//! The native actions the library orders the embedder to perform.
//!
//! The library decides; the embedder executes.  Teardown in particular is
//! returned as an explicit action sequence, so that "the context is destroyed
//! exactly once" is a proved property of the sequence rather than a
//! convention.

use vstd::prelude::*;

verus! {

/// One call the embedder must forward to the native layer.
#[derive(Clone, Copy, PartialEq, Eq, Structural, Debug)]
pub enum NativeAction {
    /// Best-effort exit from fullscreen; its failure is ignored.
    ExitFullscreen,
    /// Release the native context behind the given handle.
    DestroyContext(i32),
    /// Bind the context behind the given handle as the thread's current one.
    MakeCurrent(i32),
}

/// The action sequence a window's teardown orders: first the best-effort
/// fullscreen exit, then the destruction of the context.
pub open spec fn spec_teardown_actions(handle: i32) -> Seq<NativeAction> {
    seq![NativeAction::ExitFullscreen, NativeAction::DestroyContext(handle)]
}

/// Whether an action destroys a context.
pub open spec fn is_destroy(a: NativeAction) -> bool {
    a is DestroyContext
}

/// How many of the actions destroy a context.
pub open spec fn count_destroys(actions: Seq<NativeAction>) -> int
    decreases actions.len(),
{
    if actions.len() == 0 {
        0
    } else {
        count_destroys(actions.drop_last()) + if is_destroy(actions.last()) {
            1int
        } else {
            0int
        }
    }
}

/// Teardown destroys the context exactly once — never zero times, never
/// twice — whatever becomes of the best-effort fullscreen exit ordered before
/// it, and the destruction names the torn-down window's own handle.
pub proof fn lemma_teardown_destroys_exactly_once(handle: i32)
    ensures
        count_destroys(spec_teardown_actions(handle)) == 1,
        spec_teardown_actions(handle).last() == NativeAction::DestroyContext(handle),
{
    let actions = spec_teardown_actions(handle);
    let rest = actions.drop_last();
    assert(actions.len() == 2);
    assert(actions.last() == NativeAction::DestroyContext(handle));
    assert(rest.len() == 1);
    assert(rest.last() == NativeAction::ExitFullscreen);
    assert(rest.drop_last().len() == 0);
    assert(count_destroys(rest.drop_last()) == 0);
    assert(count_destroys(rest) == 0);
}

} // verus!
