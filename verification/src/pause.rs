use vstd::prelude::*;

use crate::input::{ControlKey, InputFrame};

verus! {

/// Why the game is paused: the player pressed `Esc`, or the window lost focus.
#[derive(Clone, Copy, Debug, PartialEq, Eq, Structural)]
pub struct PauseStateRes {
    pub user_click_pause: bool,
    pub lose_focus_pause: bool,
}

impl PauseStateRes {
    pub fn new(user_click_pause: bool, lose_focus_pause: bool) -> (res: PauseStateRes)
        ensures
            res.user_click_pause == user_click_pause,
            res.lose_focus_pause == lose_focus_pause,
    {
        PauseStateRes { user_click_pause, lose_focus_pause }
    }

    /// The game is paused while either reason holds.
    pub open spec fn spec_is_pause_state(&self) -> bool {
        self.user_click_pause || self.lose_focus_pause
    }

    #[verifier::when_used_as_spec(spec_is_pause_state)]
    pub fn is_pause_state(&self) -> (res: bool)
        ensures
            res == self.spec_is_pause_state(),
    {
        self.user_click_pause || self.lose_focus_pause
    }
}

/// Whether the game runs: the moving systems are held while the game is paused.
pub fn is_not_pause_state(pause_state: &PauseStateRes) -> (res: bool)
    ensures
        res == !pause_state.is_pause_state(),
{
    !pause_state.is_pause_state()
}

/// The pause state after a frame in which the window reported the focus changes
/// `focus_events` (`true` for focus gained) and `Esc` was or was not pressed.
pub open spec fn next_pause_state(state: PauseStateRes, focus_events: Seq<bool>, escape_pressed: bool) -> PauseStateRes {
    PauseStateRes {
        user_click_pause: if escape_pressed { !state.user_click_pause } else { state.user_click_pause },
        lose_focus_pause: if focus_events.len() == 0 { state.lose_focus_pause } else { !focus_events.last() },
    }
}

/// Updates the pause state for one frame: the last focus change of the window
/// decides whether focus loss pauses the game, and `Esc` toggles the pause the
/// player asked for.
pub fn pause_state_changed_event(
    input: &InputFrame,
    focus_events: &Vec<bool>,
    pause_state: &mut PauseStateRes,
)
    ensures
        *final(pause_state) == next_pause_state(
            *old(pause_state),
            focus_events@,
            input.spec_just_pressed(ControlKey::Escape),
        ),
{
    let mut i: usize = 0;
    while i < focus_events.len()
        invariant
            i <= focus_events.len(),
            pause_state.user_click_pause == old(pause_state).user_click_pause,
            pause_state.lose_focus_pause == (if i == 0 { old(pause_state).lose_focus_pause } else { !focus_events@[i - 1] }),
        decreases focus_events.len() - i,
    {
        pause_state.lose_focus_pause = !focus_events[i];
        i = i + 1;
    }
    if input.just_pressed(ControlKey::Escape) {
        pause_state.user_click_pause = !pause_state.user_click_pause;
    }
}

/// Each reason pauses the game on its own, whatever the other one is, and with
/// neither reason the game runs.
pub proof fn either_reason_pauses(state: PauseStateRes)
    ensures
        state.user_click_pause ==> state.is_pause_state(),
        state.lose_focus_pause ==> state.is_pause_state(),
        !state.user_click_pause && !state.lose_focus_pause ==> !state.is_pause_state(),
{
}

/// Pressing `Esc` in two frames without focus changes leaves the pause state as it was.
pub proof fn escape_twice_restores(state: PauseStateRes)
    ensures
        next_pause_state(next_pause_state(state, Seq::empty(), true), Seq::empty(), true) == state,
{
}

/// Once the window gets the focus back, the game is paused exactly when the player paused it.
pub proof fn regaining_focus_resumes_unless_paused_by_player(state: PauseStateRes, focus_events: Seq<bool>)
    requires
        focus_events.len() > 0,
        focus_events.last(),
    ensures
        next_pause_state(state, focus_events, false).is_pause_state() == state.user_click_pause,
{
}

} // verus!
