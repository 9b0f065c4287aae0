use vstd::prelude::*;

use crate::app_state::{ButtonInteraction, GameState, MenuEffects};

verus! {

/// The buttons of the game-over screen.
#[derive(Clone, Copy, Debug, PartialEq, Eq, Structural)]
pub enum GameOverMenuButtonAction {
    Back,
    Quit,
}

/// Whether a pressed `Back` is among `events`.
pub open spec fn gameover_goes_back(events: Seq<(ButtonInteraction, GameOverMenuButtonAction)>) -> bool {
    exists|i: int|
        0 <= i < events.len() && #[trigger] events[i] == (ButtonInteraction::Pressed, GameOverMenuButtonAction::Back)
}

/// Whether a pressed `Quit` is among `events`.
pub open spec fn gameover_quits(events: Seq<(ButtonInteraction, GameOverMenuButtonAction)>) -> bool {
    exists|i: int|
        0 <= i < events.len() && #[trigger] events[i] == (ButtonInteraction::Pressed, GameOverMenuButtonAction::Quit)
}

/// A frame in which no button is pressed changes nothing: no return to the
/// menu and no quitting.
pub proof fn unpressed_buttons_do_nothing(events: Seq<(ButtonInteraction, GameOverMenuButtonAction)>)
    requires
        forall|i: int| 0 <= i < events.len() ==> (#[trigger] events[i]).0 != ButtonInteraction::Pressed,
    ensures
        !gameover_goes_back(events),
        !gameover_quits(events),
{
    if gameover_goes_back(events) {
        let i = choose|i: int| 0 <= i < events.len() && #[trigger] events[i] == (ButtonInteraction::Pressed, GameOverMenuButtonAction::Back);
        assert(events[i].0 != ButtonInteraction::Pressed);
    }
    if gameover_quits(events) {
        let i = choose|i: int| 0 <= i < events.len() && #[trigger] events[i] == (ButtonInteraction::Pressed, GameOverMenuButtonAction::Quit);
        assert(events[i].0 != ButtonInteraction::Pressed);
    }
}

/// Adding a button that is hovered or idle changes nothing; adding a pressed
/// `Back` returns to the menu and a pressed `Quit` quits, each leaving the
/// other effect as it was.
pub proof fn each_press_has_its_own_effect(
    events: Seq<(ButtonInteraction, GameOverMenuButtonAction)>,
    event: (ButtonInteraction, GameOverMenuButtonAction),
)
    ensures
        event.0 != ButtonInteraction::Pressed ==> gameover_goes_back(events.push(event)) == gameover_goes_back(events)
            && gameover_quits(events.push(event)) == gameover_quits(events),
        event == (ButtonInteraction::Pressed, GameOverMenuButtonAction::Back) ==> gameover_goes_back(events.push(event))
            && gameover_quits(events.push(event)) == gameover_quits(events),
        event == (ButtonInteraction::Pressed, GameOverMenuButtonAction::Quit) ==> gameover_quits(events.push(event))
            && gameover_goes_back(events.push(event)) == gameover_goes_back(events),
{
    let after = events.push(event);
    assert(after[events.len() as int] == event);
    if gameover_goes_back(events) {
        let i = choose|i: int| 0 <= i < events.len() && #[trigger] events[i] == (ButtonInteraction::Pressed, GameOverMenuButtonAction::Back);
        assert(after[i] == events[i]);
    }
    if gameover_quits(events) {
        let i = choose|i: int| 0 <= i < events.len() && #[trigger] events[i] == (ButtonInteraction::Pressed, GameOverMenuButtonAction::Quit);
        assert(after[i] == events[i]);
    }
    if gameover_goes_back(after) && event != (ButtonInteraction::Pressed, GameOverMenuButtonAction::Back) {
        let i = choose|i: int| 0 <= i < after.len() && #[trigger] after[i] == (ButtonInteraction::Pressed, GameOverMenuButtonAction::Back);
        assert(i < events.len());
        assert(events[i] == after[i]);
    }
    if gameover_quits(after) && event != (ButtonInteraction::Pressed, GameOverMenuButtonAction::Quit) {
        let i = choose|i: int| 0 <= i < after.len() && #[trigger] after[i] == (ButtonInteraction::Pressed, GameOverMenuButtonAction::Quit);
        assert(i < events.len());
        assert(events[i] == after[i]);
    }
}

/// Handles the clicks on the game-over screen in one frame: `Main Menu` returns
/// to the main menu and `Quit` asks to leave the application.
pub fn menu_action(events: &Vec<(ButtonInteraction, GameOverMenuButtonAction)>) -> (effects: MenuEffects)
    ensures
        effects.next_state == (if gameover_goes_back(events@) { Some(GameState::Menu) } else { None }),
        effects.exit == gameover_quits(events@),
{
    let mut effects = MenuEffects { next_state: None, exit: false };
    let mut i: usize = 0;
    while i < events.len()
        invariant
            i <= events.len(),
            effects.next_state == (if gameover_goes_back(events@.take(i as int)) { Some(GameState::Menu) } else { None }),
            effects.exit == gameover_quits(events@.take(i as int)),
        decreases events.len() - i,
    {
        let (interaction, action) = events[i];
        let ghost before = events@.take(i as int);
        let ghost after = events@.take(i + 1);
        proof {
            assert forall|j: int| 0 <= j < i implies #[trigger] after[j] == before[j] by {}
            assert(after[i as int] == events@[i as int]);
        }
        if interaction == ButtonInteraction::Pressed {
            match action {
                GameOverMenuButtonAction::Quit => {
                    effects.exit = true;
                },
                GameOverMenuButtonAction::Back => {
                    effects.next_state = Some(GameState::Menu);
                },
            }
        }
        proof {
            if gameover_goes_back(before) {
                let j = choose|j: int| 0 <= j < i && #[trigger] before[j] == (ButtonInteraction::Pressed, GameOverMenuButtonAction::Back);
                assert(after[j] == before[j]);
            }
            if gameover_quits(before) {
                let j = choose|j: int| 0 <= j < i && #[trigger] before[j] == (ButtonInteraction::Pressed, GameOverMenuButtonAction::Quit);
                assert(after[j] == before[j]);
            }
            if gameover_goes_back(after) {
                let j = choose|j: int| 0 <= j < i + 1 && #[trigger] after[j] == (ButtonInteraction::Pressed, GameOverMenuButtonAction::Back);
                if j < i {
                    assert(before[j] == after[j]);
                }
            }
            if gameover_quits(after) {
                let j = choose|j: int| 0 <= j < i + 1 && #[trigger] after[j] == (ButtonInteraction::Pressed, GameOverMenuButtonAction::Quit);
                if j < i {
                    assert(before[j] == after[j]);
                }
            }
        }
        i = i + 1;
    }
    proof {
        assert(events@.take(events.len() as int) =~= events@);
    }
    effects
}

} // verus!
