//! Context-creation attribute negotiation.
//!
//! Negotiation seeds a complete attribute record with the platform defaults
//! and then overrides exactly the fields the caller asked for.  The requested
//! GL version is passed through verbatim: invalid combinations surface only
//! as creation failure, never as negotiation failure.

use vstd::prelude::*;

verus! {

/// The complete attribute record consumed once at context creation.
#[derive(Clone, Copy, PartialEq, Eq, Structural, Debug)]
pub struct ContextAttributes {
    pub alpha: bool,
    pub depth: bool,
    pub stencil: bool,
    pub antialias: bool,
    pub premultiplied_alpha: bool,
    pub preserve_drawing_buffer: bool,
    pub prefer_low_power_to_high_performance: bool,
    pub fail_if_major_performance_caveat: bool,
    pub major_version: u32,
    pub minor_version: u32,
    pub enable_extensions_by_default: bool,
}

/// The record the platform's attribute initializer reports by default.
pub open spec fn spec_platform_defaults() -> ContextAttributes {
    ContextAttributes {
        alpha: true,
        depth: true,
        stencil: false,
        antialias: true,
        premultiplied_alpha: true,
        preserve_drawing_buffer: false,
        prefer_low_power_to_high_performance: false,
        fail_if_major_performance_caveat: false,
        major_version: 1,
        minor_version: 0,
        enable_extensions_by_default: true,
    }
}

/// The result of negotiating `gl_version` against `defaults`: the version
/// fields are overridden when a version was requested, and nothing else ever
/// changes.
pub open spec fn spec_negotiate(
    defaults: ContextAttributes,
    gl_version: Option<(u32, u32)>,
) -> ContextAttributes {
    match gl_version {
        Some(v) => ContextAttributes { major_version: v.0, minor_version: v.1, ..defaults },
        None => defaults,
    }
}

impl ContextAttributes {
    /// A fully-populated default record, standing in for the platform's
    /// attribute-defaults initializer; no field is left uninitialized.
    pub fn platform_defaults() -> (r: ContextAttributes)
        ensures
            r == spec_platform_defaults(),
    {
        ContextAttributes {
            alpha: true,
            depth: true,
            stencil: false,
            antialias: true,
            premultiplied_alpha: true,
            preserve_drawing_buffer: false,
            prefer_low_power_to_high_performance: false,
            fail_if_major_performance_caveat: false,
            major_version: 1,
            minor_version: 0,
            enable_extensions_by_default: true,
        }
    }
}

/// Builds the attribute record for context creation: the defaults, with the
/// requested GL version written over them when one was given.  No validation
/// is performed on the version numbers; they are passed through verbatim.
pub fn negotiate(defaults: ContextAttributes, gl_version: Option<(u32, u32)>) -> (r:
    ContextAttributes)
    ensures
        r == spec_negotiate(defaults, gl_version),
{
    match gl_version {
        Some((major, minor)) => ContextAttributes {
            major_version: major,
            minor_version: minor,
            ..defaults
        },
        None => defaults,
    }
}

/// Negotiation never mutates a platform default it was not asked to override:
/// every field other than the GL version is returned untouched, and with no
/// requested version the defaults come back whole.
pub proof fn lemma_negotiate_preserves_defaults(
    defaults: ContextAttributes,
    gl_version: Option<(u32, u32)>,
)
    ensures
        spec_negotiate(defaults, gl_version).alpha == defaults.alpha,
        spec_negotiate(defaults, gl_version).depth == defaults.depth,
        spec_negotiate(defaults, gl_version).stencil == defaults.stencil,
        spec_negotiate(defaults, gl_version).antialias == defaults.antialias,
        spec_negotiate(defaults, gl_version).premultiplied_alpha == defaults.premultiplied_alpha,
        spec_negotiate(defaults, gl_version).preserve_drawing_buffer
            == defaults.preserve_drawing_buffer,
        spec_negotiate(defaults, gl_version).prefer_low_power_to_high_performance
            == defaults.prefer_low_power_to_high_performance,
        spec_negotiate(defaults, gl_version).fail_if_major_performance_caveat
            == defaults.fail_if_major_performance_caveat,
        spec_negotiate(defaults, gl_version).enable_extensions_by_default
            == defaults.enable_extensions_by_default,
        gl_version is None ==> spec_negotiate(defaults, gl_version) == defaults,
        gl_version matches Some(v) ==> spec_negotiate(defaults, gl_version).major_version == v.0
            && spec_negotiate(defaults, gl_version).minor_version == v.1,
{
}

} // verus!
