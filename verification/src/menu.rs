use vstd::prelude::*;

use crate::app_state::{ButtonInteraction, GameState, MenuEffects};

verus! {

/// The difficulty chosen in the main menu.
#[derive(Clone, Copy, Debug, PartialEq, Eq, Structural)]
pub enum GameSelectedLevel {
    Easy,
    Normal,
    Hard,
}

/// The difficulty the next game is played at; the menu starts on `Easy`.
#[derive(Clone, Copy, Debug, PartialEq, Eq, Structural)]
pub struct GameLevelRes(pub GameSelectedLevel);

impl GameLevelRes {
    pub fn new() -> (res: GameLevelRes)
        ensures
            res.0 == GameSelectedLevel::Easy,
    {
        GameLevelRes(GameSelectedLevel::Easy)
    }
}

/// The buttons of the main menu.
#[derive(Clone, Copy, Debug, PartialEq, Eq, Structural)]
pub enum MenuButtonAction {
    EasyPlay,
    NormalPlay,
    HardPlay,
    Help,
    Quit,
}

/// The screen a pressed main-menu button leads to (`None` for `Quit`).
pub open spec fn button_target(action: MenuButtonAction) -> Option<GameState> {
    match action {
        MenuButtonAction::EasyPlay => Some(GameState::Game),
        MenuButtonAction::NormalPlay => Some(GameState::Game),
        MenuButtonAction::HardPlay => Some(GameState::Game),
        MenuButtonAction::Help => Some(GameState::HelpMenu),
        MenuButtonAction::Quit => None,
    }
}

/// The difficulty a pressed main-menu button selects, if it selects one.
pub open spec fn button_level(action: MenuButtonAction) -> Option<GameSelectedLevel> {
    match action {
        MenuButtonAction::EasyPlay => Some(GameSelectedLevel::Easy),
        MenuButtonAction::NormalPlay => Some(GameSelectedLevel::Normal),
        MenuButtonAction::HardPlay => Some(GameSelectedLevel::Hard),
        _ => None,
    }
}

/// The screen requested by the pressed buttons among `events`, the last request winning.
pub open spec fn menu_next_state(events: Seq<(ButtonInteraction, MenuButtonAction)>) -> Option<GameState>
    decreases events.len(),
{
    if events.len() == 0 {
        None
    } else {
        let (interaction, action) = events.last();
        if interaction == ButtonInteraction::Pressed && button_target(action) is Some {
            button_target(action)
        } else {
            menu_next_state(events.drop_last())
        }
    }
}

/// The difficulty after the pressed buttons among `events`, starting from `level`.
pub open spec fn menu_level(
    level: GameSelectedLevel,
    events: Seq<(ButtonInteraction, MenuButtonAction)>,
) -> GameSelectedLevel
    decreases events.len(),
{
    if events.len() == 0 {
        level
    } else {
        let (interaction, action) = events.last();
        if interaction == ButtonInteraction::Pressed && button_level(action) is Some {
            button_level(action).unwrap()
        } else {
            menu_level(level, events.drop_last())
        }
    }
}

/// Whether `Quit` is among the pressed buttons in `events`.
pub open spec fn menu_quits(events: Seq<(ButtonInteraction, MenuButtonAction)>) -> bool {
    exists|i: int|
        0 <= i < events.len() && #[trigger] events[i] == (ButtonInteraction::Pressed, MenuButtonAction::Quit)
}

/// A frame in which no button is pressed changes nothing: no screen change, no
/// quitting, and the difficulty stays.
pub proof fn unpressed_buttons_do_nothing(level: GameSelectedLevel, events: Seq<(ButtonInteraction, MenuButtonAction)>)
    requires
        forall|i: int| 0 <= i < events.len() ==> (#[trigger] events[i]).0 != ButtonInteraction::Pressed,
    ensures
        menu_next_state(events) is None,
        menu_level(level, events) == level,
        !menu_quits(events),
    decreases events.len(),
{
    if events.len() > 0 {
        let rest = events.drop_last();
        assert forall|i: int| 0 <= i < rest.len() implies (#[trigger] rest[i]).0 != ButtonInteraction::Pressed by {
            assert(rest[i] == events[i]);
        }
        unpressed_buttons_do_nothing(level, rest);
        assert(events.last() == events[events.len() - 1]);
    }
}

/// A button that is hovered or idle, added to a frame, changes nothing the frame does.
pub proof fn unpressed_button_changes_nothing(
    level: GameSelectedLevel,
    events: Seq<(ButtonInteraction, MenuButtonAction)>,
    event: (ButtonInteraction, MenuButtonAction),
)
    requires
        event.0 != ButtonInteraction::Pressed,
    ensures
        menu_next_state(events.push(event)) == menu_next_state(events),
        menu_level(level, events.push(event)) == menu_level(level, events),
        menu_quits(events.push(event)) == menu_quits(events),
{
    let after = events.push(event);
    assert(after.drop_last() =~= events);
    if menu_quits(after) {
        let i = choose|i: int| 0 <= i < after.len() && #[trigger] after[i] == (ButtonInteraction::Pressed, MenuButtonAction::Quit);
        assert(i < events.len());
        assert(events[i] == after[i]);
    }
    if menu_quits(events) {
        let i = choose|i: int| 0 <= i < events.len() && #[trigger] events[i] == (ButtonInteraction::Pressed, MenuButtonAction::Quit);
        assert(after[i] == events[i]);
    }
}

/// The last pressed button decides: a difficulty button starts a game at that
/// difficulty, `Help` opens the help screen and keeps the difficulty, `Quit`
/// asks to quit and leaves the screen and difficulty as the earlier presses set them.
pub proof fn last_pressed_button_decides(
    level: GameSelectedLevel,
    events: Seq<(ButtonInteraction, MenuButtonAction)>,
    action: MenuButtonAction,
)
    ensures
        action == MenuButtonAction::EasyPlay ==> menu_next_state(events.push((ButtonInteraction::Pressed, action)))
            == Some(GameState::Game) && menu_level(level, events.push((ButtonInteraction::Pressed, action)))
            == GameSelectedLevel::Easy,
        action == MenuButtonAction::NormalPlay ==> menu_next_state(events.push((ButtonInteraction::Pressed, action)))
            == Some(GameState::Game) && menu_level(level, events.push((ButtonInteraction::Pressed, action)))
            == GameSelectedLevel::Normal,
        action == MenuButtonAction::HardPlay ==> menu_next_state(events.push((ButtonInteraction::Pressed, action)))
            == Some(GameState::Game) && menu_level(level, events.push((ButtonInteraction::Pressed, action)))
            == GameSelectedLevel::Hard,
        action == MenuButtonAction::Help ==> menu_next_state(events.push((ButtonInteraction::Pressed, action)))
            == Some(GameState::HelpMenu) && menu_level(level, events.push((ButtonInteraction::Pressed, action)))
            == menu_level(level, events),
        action == MenuButtonAction::Quit ==> menu_quits(events.push((ButtonInteraction::Pressed, action)))
            && menu_next_state(events.push((ButtonInteraction::Pressed, action))) == menu_next_state(events)
            && menu_level(level, events.push((ButtonInteraction::Pressed, action))) == menu_level(level, events),
        action != MenuButtonAction::Quit ==> menu_quits(events.push((ButtonInteraction::Pressed, action)))
            == menu_quits(events),
{
    let after = events.push((ButtonInteraction::Pressed, action));
    assert(after.drop_last() =~= events);
    assert(after[events.len() as int] == (ButtonInteraction::Pressed, action));
    if action != MenuButtonAction::Quit {
        if menu_quits(after) {
            let i = choose|i: int| 0 <= i < after.len() && #[trigger] after[i] == (ButtonInteraction::Pressed, MenuButtonAction::Quit);
            assert(i < events.len());
            assert(events[i] == after[i]);
        }
        if menu_quits(events) {
            let i = choose|i: int| 0 <= i < events.len() && #[trigger] events[i] == (ButtonInteraction::Pressed, MenuButtonAction::Quit);
            assert(after[i] == events[i]);
        }
    }
}

/// Handles the clicks on the main menu in one frame: every pressed difficulty
/// button starts a game at that difficulty, `Help` opens the help screen and
/// `Quit` asks to leave the application.
pub fn menu_action(
    events: &Vec<(ButtonInteraction, MenuButtonAction)>,
    game_level: &mut GameLevelRes,
) -> (effects: MenuEffects)
    ensures
        effects.next_state == menu_next_state(events@),
        effects.exit == menu_quits(events@),
        final(game_level).0 == menu_level(old(game_level).0, events@),
{
    let mut effects = MenuEffects { next_state: None, exit: false };
    let mut i: usize = 0;
    while i < events.len()
        invariant
            i <= events.len(),
            effects.next_state == menu_next_state(events@.take(i as int)),
            effects.exit == menu_quits(events@.take(i as int)),
            game_level.0 == menu_level(old(game_level).0, events@.take(i as int)),
        decreases events.len() - i,
    {
        let (interaction, action) = events[i];
        proof {
            assert(events@.take(i + 1).drop_last() =~= events@.take(i as int));
            assert(events@.take(i + 1).last() == events@[i as int]);
        }
        if interaction == ButtonInteraction::Pressed {
            match action {
                MenuButtonAction::Quit => {
                    effects.exit = true;
                    assert(events@.take(i + 1)[i as int] == (ButtonInteraction::Pressed, MenuButtonAction::Quit));
                },
                MenuButtonAction::EasyPlay => {
                    effects.next_state = Some(GameState::Game);
                    game_level.0 = GameSelectedLevel::Easy;
                },
                MenuButtonAction::NormalPlay => {
                    effects.next_state = Some(GameState::Game);
                    game_level.0 = GameSelectedLevel::Normal;
                },
                MenuButtonAction::HardPlay => {
                    effects.next_state = Some(GameState::Game);
                    game_level.0 = GameSelectedLevel::Hard;
                },
                MenuButtonAction::Help => {
                    effects.next_state = Some(GameState::HelpMenu);
                },
            }
        }
        proof {
            assert forall|j: int| 0 <= j < i + 1 && #[trigger] events@.take(i + 1)[j] == (ButtonInteraction::Pressed, MenuButtonAction::Quit)
                implies j == i || events@.take(i as int)[j] == (ButtonInteraction::Pressed, MenuButtonAction::Quit) by {}
            if menu_quits(events@.take(i as int)) {
                let j = choose|j: int| 0 <= j < i && #[trigger] events@.take(i as int)[j] == (ButtonInteraction::Pressed, MenuButtonAction::Quit);
                assert(events@.take(i + 1)[j] == events@.take(i as int)[j]);
            }
        }
        i = i + 1;
    }
    proof {
        assert(events@.take(events.len() as int) =~= events@);
    }
    effects
}

} // verus!
