//! The state machine of the game loop: the clock says when a frame is
//! due, a frame pumps the input, renders the active view and acts on what
//! the view asks for.

use crate::clock::{ClockState, FrameClock, Tick};
use crate::context::Phi;
use crate::events::RawEvent;
use crate::view::{step_for, view_after, Step, ViewAction};
use vstd::prelude::*;

verus! {

/// The state of a running game: the context, the view that is active and
/// the frame clock.
pub struct GameLoop<R, F, V> {
    pub context: Phi<R, F>,
    pub current_view: V,
    pub clock: FrameClock,
}

impl<R, F, V: crate::view::View<R, F>> GameLoop<R, F, V> {
    /// A loop that starts at time `now` with the given view.
    pub fn new(context: Phi<R, F>, view: V, now: u32) -> (game: GameLoop<R, F, V>)
        ensures
            game.context == context,
            game.current_view == view,
            game.clock@ == ClockState::start(now),
    {
        GameLoop { context, current_view: view, clock: FrameClock::new(now) }
    }

    /// Reads the clock at `now`: either the frame is not due and the result
    /// says how long to sleep, or a frame starts. Neither the context nor
    /// the view is touched.
    pub fn tick(&mut self, now: u32) -> (t: Tick)
        ensures
            final(self).clock@ == old(self).clock@.next(now),
            t == old(self).clock@.decide(now),
            final(self).context == old(self).context,
            final(self).current_view == old(self).current_view,
    {
        self.clock.tick(now)
    }

    /// Runs one frame: pumps the input accumulator with the raw events that
    /// have arrived, renders the active view once, on the context as the
    /// pump left it and with the time that has passed, and acts on what the
    /// view asks for. Whatever the view does, the clock stays as it is.
    pub fn frame(&mut self, elapsed: u32, raw: &Vec<RawEvent>) -> (step: Step)
        ensures
            final(self).clock == old(self).clock,
            exists|pumped: Phi<R, F>, rendered: V, action: ViewAction<V>|
                {
                    &&& pumped.pumped_from(old(self).context, raw@)
                    &&& #[trigger] V::renders(
                        old(self).current_view,
                        pumped,
                        elapsed,
                        rendered,
                        final(self).context,
                        action,
                    )
                    &&& step == step_for(action)
                    &&& final(self).current_view == view_after(rendered, action)
                },
    {
        self.context.pump(raw);
        let ghost pumped = self.context;
        let action = self.current_view.render(&mut self.context, elapsed);
        let ghost rendered = self.current_view;
        let ghost asked = action;
        let step = self.apply(action);
        assert(V::renders(
            old(self).current_view,
            pumped,
            elapsed,
            rendered,
            self.context,
            asked,
        ));
        step
    }

    /// Acts on what the rendered view asked for: `Continue` shows the
    /// frame, `Quit` leaves the loop, and `ChangeView` makes the new view
    /// the active one without showing anything.
    pub fn apply(&mut self, action: ViewAction<V>) -> (step: Step)
        ensures
            step == step_for(action),
            final(self).current_view == view_after(old(self).current_view, action),
            final(self).context == old(self).context,
            final(self).clock == old(self).clock,
    {
        match action {
            ViewAction::Continue => Step::Present,
            ViewAction::Quit => Step::Exit,
            ViewAction::ChangeView(view) => {
                self.current_view = view;
                Step::Skip
            },
        }
    }
}

} // verus!
