use vstd::prelude::*;

use crate::app_state::{ButtonInteraction, GameState};

verus! {

/// The buttons of the help screen.
#[derive(Clone, Copy, Debug, PartialEq, Eq, Structural)]
pub enum GameOverMenuHelpButtonAction {
    Back,
}

/// The text of the help screen, one control per line.
pub open spec fn spec_controls_text() -> Seq<char> {
    "
                    Left : move left    \n
                    Right : move right                 \n
                    Up : rotate \n
                    Down : soft drop     \n
                    Space : hard drop      \n
                    Esc : pause game       \n"@
}

/// The text of the help screen, listing the controls.
pub fn controls_text() -> (res: &'static str)
    ensures
        res@ == spec_controls_text(),
{
    "
                    Left : move left    \n
                    Right : move right                 \n
                    Up : rotate \n
                    Down : soft drop     \n
                    Space : hard drop      \n
                    Esc : pause game       \n"
}

/// Whether a pressed `Back` is among `events`.
pub open spec fn help_goes_back(events: Seq<(ButtonInteraction, GameOverMenuHelpButtonAction)>) -> bool {
    exists|i: int|
        0 <= i < events.len() && #[trigger] events[i] == (ButtonInteraction::Pressed, GameOverMenuHelpButtonAction::Back)
}

/// Hovered or idle buttons never leave the help screen; a pressed `Back` always
/// does, whatever else happened in the frame.
pub proof fn only_a_pressed_back_leaves(
    events: Seq<(ButtonInteraction, GameOverMenuHelpButtonAction)>,
    event: (ButtonInteraction, GameOverMenuHelpButtonAction),
)
    ensures
        (forall|i: int| 0 <= i < events.len() ==> (#[trigger] events[i]).0 != ButtonInteraction::Pressed)
            ==> !help_goes_back(events),
        event.0 != ButtonInteraction::Pressed ==> help_goes_back(events.push(event)) == help_goes_back(events),
        event.0 == ButtonInteraction::Pressed ==> help_goes_back(events.push(event)),
{
    let after = events.push(event);
    assert(after[events.len() as int] == event);
    if help_goes_back(events) {
        let i = choose|i: int| 0 <= i < events.len() && #[trigger] events[i] == (ButtonInteraction::Pressed, GameOverMenuHelpButtonAction::Back);
        assert(after[i] == events[i]);
        assert(events[i].0 == ButtonInteraction::Pressed);
    }
    if help_goes_back(after) && event.0 != ButtonInteraction::Pressed {
        let i = choose|i: int| 0 <= i < after.len() && #[trigger] after[i] == (ButtonInteraction::Pressed, GameOverMenuHelpButtonAction::Back);
        assert(i < events.len());
        assert(events[i] == after[i]);
    }
    if event.0 == ButtonInteraction::Pressed {
        assert(event == (ButtonInteraction::Pressed, GameOverMenuHelpButtonAction::Back));
    }
}

/// Handles the clicks on the help screen in one frame: `Back` returns to the main menu.
pub fn menu_action(events: &Vec<(ButtonInteraction, GameOverMenuHelpButtonAction)>) -> (next_state: Option<GameState>)
    ensures
        next_state == (if help_goes_back(events@) { Some(GameState::Menu) } else { None }),
{
    let mut next_state: Option<GameState> = None;
    let mut i: usize = 0;
    while i < events.len()
        invariant
            i <= events.len(),
            next_state == (if help_goes_back(events@.take(i as int)) { Some(GameState::Menu) } else { None }),
        decreases events.len() - i,
    {
        let (interaction, action) = events[i];
        let ghost before = events@.take(i as int);
        let ghost after = events@.take(i + 1);
        proof {
            assert forall|j: int| 0 <= j < i implies #[trigger] after[j] == before[j] by {}
            assert(after[i as int] == events@[i as int]);
        }
        if interaction == ButtonInteraction::Pressed {
            match action {
                GameOverMenuHelpButtonAction::Back => {
                    next_state = Some(GameState::Menu);
                },
            }
        }
        proof {
            if help_goes_back(before) {
                let j = choose|j: int| 0 <= j < i && #[trigger] before[j] == (ButtonInteraction::Pressed, GameOverMenuHelpButtonAction::Back);
                assert(after[j] == before[j]);
            }
            if help_goes_back(after) {
                let j = choose|j: int| 0 <= j < i + 1 && #[trigger] after[j] == (ButtonInteraction::Pressed, GameOverMenuHelpButtonAction::Back);
                if j < i {
                    assert(before[j] == after[j]);
                }
            }
        }
        i = i + 1;
    }
    proof {
        assert(events@.take(events.len() as int) =~= events@);
    }
    next_state
}

} // verus!
