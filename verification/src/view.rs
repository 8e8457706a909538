//! The contract between the loop and the screens of the game: what a view
//! is, what it may ask of the loop, and what the loop makes of it.

use crate::context::Phi;
use vstd::prelude::*;

verus! {

/// What the view that was just rendered asks of the loop.
pub enum ViewAction<V> {
    /// Show the frame and go on with the same view.
    Continue,
    /// Stop the loop.
    Quit,
    /// Drop the current view and go on with this one.
    ChangeView(V),
}

/// A screen of the game: it is rendered once per frame and tells the loop
/// how to go on.
pub trait View<R, F>: Sized {
    /// What one call of `render` may do. It relates the view and the
    /// context before the call and the time that has passed to the view
    /// and the context after the call and to what the view asks for. A
    /// view that says nothing of itself may do anything; one that does
    /// says so here, and the loop hands it on.
    open spec fn renders(
        before: Self,
        context_before: Phi<R, F>,
        elapsed: u32,
        after: Self,
        context_after: Phi<R, F>,
        action: ViewAction<Self>,
    ) -> bool {
        true
    }

    /// Called on every frame to take care of both the logic and the
    /// rendering of the view. `elapsed` is the time since the previous
    /// frame in milliseconds.
    fn render(&mut self, context: &mut Phi<R, F>, elapsed: u32) -> (action: ViewAction<Self>)
        ensures
            Self::renders(*old(self), *old(context), elapsed, *final(self), *final(context), action),
    ;
}

/// What the loop does once a frame has been rendered.
#[derive(Clone, Copy, Debug, PartialEq, Eq, Structural)]
pub enum Step {
    /// Show the frame that was drawn.
    Present,
    /// Show nothing: the view was replaced, and the new view draws its
    /// first frame on the next tick.
    Skip,
    /// Leave the loop; nothing is shown.
    Exit,
}

/// The view that is active once an action has been acted on: the new view
/// if the action brings one, else the view that was rendered.
pub open spec fn view_after<V>(rendered: V, action: ViewAction<V>) -> V {
    match action {
        ViewAction::ChangeView(view) => view,
        _ => rendered,
    }
}

/// The step that answers an action: only `Continue` shows a frame.
pub open spec fn step_for<V>(action: ViewAction<V>) -> Step {
    match action {
        ViewAction::Continue => Step::Present,
        ViewAction::Quit => Step::Exit,
        ViewAction::ChangeView(_) => Step::Skip,
    }
}

/// A frame is shown exactly when the view asks to continue. A view that
/// asks for another view has nothing of its frame shown, and the other view
/// is the active one from then on. A view that asks to quit has nothing
/// shown either, and only such a view ends the loop. Unless another view is
/// asked for, the view that was rendered stays.
pub proof fn lemma_only_continue_presents<V>(rendered: V, action: ViewAction<V>)
    ensures
        step_for(action) is Present <==> action is Continue,
        step_for(action) is Skip <==> action is ChangeView,
        step_for(action) is Exit <==> action is Quit,
        action matches ViewAction::ChangeView(other) ==> view_after(rendered, action) == other,
        !(action is ChangeView) ==> view_after(rendered, action) == rendered,
{
}

} // verus!
