//! The canvas surface, modelled as explicit environment state.
//!
//! The browser owns the one canvas: its applied CSS size, whether a requested
//! resize has been applied yet, whether the context has been lost, and
//! whether the native size query currently succeeds.  The embedder (or a
//! test) constructs a `Canvas` from what the environment reports and drives
//! its transitions; the window's size mediation is then verified against this
//! state.

use vstd::prelude::*;

verus! {

/// The state of the one canvas surface, as the environment reports it.
#[derive(Clone, Copy, PartialEq, Debug)]
pub struct Canvas {
    /// CSS pixel width currently applied by the environment.
    pub css_width: u32,
    /// CSS pixel height currently applied by the environment.
    pub css_height: u32,
    /// A resize that was requested but that the environment has not applied
    /// yet; resize requests take effect asynchronously.
    pub pending_resize: Option<(u32, u32)>,
    /// Whether the environment has reported the context lost.
    pub context_lost: bool,
    /// Whether the native CSS-size query currently succeeds.
    pub size_query_ok: bool,
}

/// A canvas as it stands right after context creation: the reported size,
/// no resize pending, the context not lost, and size queries succeeding.
pub open spec fn spec_fresh_canvas(css_width: u32, css_height: u32) -> Canvas {
    Canvas {
        css_width,
        css_height,
        pending_resize: None,
        context_lost: false,
        size_query_ok: true,
    }
}

/// The canvas after the environment applies the pending resize, if any:
/// the pending size becomes the applied size and the request is consumed;
/// with nothing pending the canvas is unchanged.
pub open spec fn spec_apply_pending(c: Canvas) -> Canvas {
    match c.pending_resize {
        Some(wh) => Canvas {
            css_width: wh.0,
            css_height: wh.1,
            pending_resize: None,
            ..c
        },
        None => c,
    }
}

/// The canvas after a resize request: only the pending request changes.
pub open spec fn spec_request_resize(c: Canvas, width: u32, height: u32) -> Canvas {
    Canvas { pending_resize: Some((width, height)), ..c }
}

/// What a size query reports on this canvas: the applied CSS size when the
/// native query succeeds, and nothing on any native failure.
pub open spec fn spec_inner_size(c: Canvas) -> Option<(u32, u32)> {
    if c.size_query_ok {
        Some((c.css_width, c.css_height))
    } else {
        None
    }
}

/// What an outer-size query reports: the same as the inner size, since a
/// canvas has no window chrome.
pub open spec fn spec_outer_size(c: Canvas) -> Option<(u32, u32)> {
    spec_inner_size(c)
}

/// Whether a window over this canvas counts as closed.  "Closed" means
/// "context lost"; there is no user-driven window close in this environment.
pub open spec fn spec_is_closed(c: Canvas) -> bool {
    c.context_lost
}

impl Canvas {
    /// A canvas as the environment reports it right after creation.
    pub fn new(css_width: u32, css_height: u32) -> (c: Canvas)
        ensures
            c == spec_fresh_canvas(css_width, css_height),
    {
        Canvas {
            css_width,
            css_height,
            pending_resize: None,
            context_lost: false,
            size_query_ok: true,
        }
    }

    /// The environment applies the pending resize request, if one is there.
    pub fn apply_pending_resize(&mut self)
        ensures
            *final(self) == spec_apply_pending(*old(self)),
    {
        match self.pending_resize {
            Some((width, height)) => {
                self.css_width = width;
                self.css_height = height;
                self.pending_resize = None;
            },
            None => {},
        }
    }

    /// The environment reports the context lost; nothing else changes.
    pub fn lose_context(&mut self)
        ensures
            *final(self) == (Canvas { context_lost: true, ..*old(self) }),
    {
        self.context_lost = true;
    }

    /// The environment reports whether the native size query currently
    /// succeeds; nothing else changes.
    pub fn set_size_query_ok(&mut self, ok: bool)
        ensures
            *final(self) == (Canvas { size_query_ok: ok, ..*old(self) }),
    {
        self.size_query_ok = ok;
    }
}

/// Resize requests are eventually consistent: once the environment applies a
/// requested resize, a successful size query reports exactly the requested
/// size.
pub proof fn lemma_resize_eventually_visible(c: Canvas, width: u32, height: u32)
    requires
        c.size_query_ok,
    ensures
        spec_inner_size(spec_apply_pending(spec_request_resize(c, width, height))) == Some(
            (width, height),
        ),
{
}

/// Inner and outer size always coincide for the same canvas state: there is
/// no window chrome in this environment.
pub proof fn lemma_inner_outer_size_agree(c: Canvas)
    ensures
        spec_outer_size(c) == spec_inner_size(c),
{
}

} // verus!
