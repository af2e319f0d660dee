//! The window facade: context lifecycle and the cross-platform surface.
//!
//! A `Window` owns exactly one live native context handle from successful
//! creation until teardown.  Creation fails fast on a non-positive handle and
//! returns a descriptive error instead of a window; teardown consumes the
//! window and orders the destruction of the context exactly once.

use vstd::prelude::*;
use vstd::string::StringExecFns;
use crate::native::NativeAction;
use crate::native::spec_teardown_actions;
use crate::status::error_to_str;
use crate::status::spec_error_str;
use crate::status::spec_status_from_code;
use crate::status::status_from_code;
use crate::surface::Canvas;
use crate::surface::spec_fresh_canvas;
use crate::surface::spec_inner_size;
use crate::surface::spec_is_closed;
use crate::surface::spec_outer_size;
use crate::surface::spec_request_resize;

verus! {

/// An event this backend would deliver; it never delivers any, since event
/// delivery is outside this backend's capabilities.
#[derive(Clone, Copy, PartialEq, Eq, Structural, Debug)]
pub struct Event;

/// The distinct signal for an operation this backend does not support.
#[derive(Clone, Copy, PartialEq, Eq, Structural, Debug)]
pub struct UnsupportedOperation;

/// A window over the one canvas surface, holding the native context handle
/// it exclusively owns.
#[derive(Debug)]
pub struct Window {
    context: i32,
}

/// The error message creation reports for the raw handle it got back: the
/// fixed diagnostic prefix followed by the translation of the handle value
/// read as a native status code.
pub open spec fn spec_creation_error(code: int) -> Seq<char> {
    "Error while calling the native context creation: "@ + spec_error_str(
        spec_status_from_code(code),
    )
}

impl Window {
    /// The native context handle this window owns.
    pub closed spec fn handle(self) -> i32 {
        self.context
    }

    /// A window is well-formed when its handle is a valid (positive) one;
    /// construction never yields anything else.
    pub open spec fn wf(self) -> bool {
        self.handle() > 0
    }

    /// Builds a window from the raw handle the native context creation
    /// returned.  A non-positive handle is a creation failure: it yields a
    /// descriptive error embedding the translated status code, and no window.
    /// A positive handle yields the window that owns it.
    pub fn new(handle: i32) -> (r: Result<Window, String>)
        ensures
            r is Ok <==> handle > 0,
            r matches Ok(w) ==> w.wf() && w.handle() == handle,
            r matches Err(m) ==> m@ == spec_creation_error(handle as int) && m@.len() > 0,
    {
        if handle <= 0 {
            let status = status_from_code(handle);
            let prefix = String::from_str("Error while calling the native context creation: ");
            proof {
                reveal_strlit("Error while calling the native context creation: ");
            }
            Err(prefix.concat(error_to_str(status)))
        } else {
            Ok(Window { context: handle })
        }
    }

    /// Whether the window counts as closed.  "Closed" here means "context
    /// lost": there is no user-driven window close in this environment, so
    /// the only closing the environment can report is the loss of the
    /// context.
    pub fn is_closed(&self, canvas: &Canvas) -> (r: bool)
        ensures
            r == spec_is_closed(*canvas),
    {
        canvas.context_lost
    }

    /// Accepted and ignored: a canvas has no title.  Present only to satisfy
    /// the cross-platform interface contract.
    pub fn set_title(&self, _title: &str) {
    }

    /// Always the fixed origin: a canvas has no independent screen position.
    pub fn get_position(&self) -> (r: Option<(i32, i32)>)
        ensures
            r == Some((0i32, 0i32)),
    {
        Some((0, 0))
    }

    /// Accepted and ignored: a canvas cannot be moved.  Present only to
    /// satisfy the cross-platform interface contract.
    pub fn set_position(&self, _x: i32, _y: i32) {
    }

    /// The canvas's CSS pixel size, when the native query succeeds; nothing
    /// on any native failure, since the caller has no actionable recovery
    /// either way.
    pub fn get_inner_size(&self, canvas: &Canvas) -> (r: Option<(u32, u32)>)
        ensures
            r == spec_inner_size(*canvas),
    {
        if canvas.size_query_ok {
            Some((canvas.css_width, canvas.css_height))
        } else {
            None
        }
    }

    /// The same value as the inner size: there is no window chrome in this
    /// environment, so inner and outer size coincide by definition.
    pub fn get_outer_size(&self, canvas: &Canvas) -> (r: Option<(u32, u32)>)
        ensures
            r == spec_outer_size(*canvas),
            r == spec_inner_size(*canvas),
    {
        self.get_inner_size(canvas)
    }

    /// Requests that the environment resize the canvas's CSS backing size.
    /// Fire and forget: the request is recorded as pending and takes effect
    /// only once the environment applies it; there is no failure channel.
    pub fn set_inner_size(&self, canvas: &mut Canvas, width: u32, height: u32)
        ensures
            *final(canvas) == spec_request_resize(*old(canvas), width, height),
    {
        canvas.pending_resize = Some((width, height));
    }

    /// Event polling is outside this backend's capabilities; the distinct
    /// unsupported-operation signal comes back instead of an event batch.
    pub fn poll_events(&self) -> (r: Result<Vec<Event>, UnsupportedOperation>)
        ensures
            r is Err,
    {
        Err(UnsupportedOperation)
    }

    /// Event waiting is outside this backend's capabilities; the distinct
    /// unsupported-operation signal comes back instead of an event batch.
    pub fn wait_events(&self) -> (r: Result<Vec<Event>, UnsupportedOperation>)
        ensures
            r is Err,
    {
        Err(UnsupportedOperation)
    }

    /// Orders the binding of this window's context as the thread's current
    /// rendering context.
    pub fn make_current(&self) -> (a: NativeAction)
        ensures
            a == NativeAction::MakeCurrent(self.handle()),
    {
        NativeAction::MakeCurrent(self.context)
    }

    /// Deliberate no-op: presentation happens implicitly whenever control
    /// returns to the environment's event loop.  Callers still call it for
    /// interface symmetry.
    pub fn swap_buffers(&self) {
    }

    /// Consumes the window and orders its teardown: first the best-effort
    /// fullscreen exit, then the destruction of the owned context.  Taking
    /// the window by value makes a second teardown impossible, and the
    /// ordered sequence destroys the context exactly once.
    pub fn teardown(self) -> (actions: Vec<NativeAction>)
        ensures
            actions@ == spec_teardown_actions(self.handle()),
    {
        let mut actions: Vec<NativeAction> = Vec::new();
        actions.push(NativeAction::ExitFullscreen);
        actions.push(NativeAction::DestroyContext(self.context));
        proof {
            assert(actions@ =~= spec_teardown_actions(self.handle()));
        }
        actions
    }
}

/// Creation with a positive handle yields a window (`Window::new` promises
/// `Ok` exactly there), and immediately after creation — before any loss is
/// reported — that window is open: the fresh canvas carries no context-lost
/// report, so `is_closed` answers `false` on it.
pub proof fn lemma_created_window_is_open(css_width: u32, css_height: u32)
    ensures
        !spec_is_closed(spec_fresh_canvas(css_width, css_height)),
{
}

} // verus!
