use vstd::prelude::*;

verus! {

/// The screens the game moves between.
#[derive(Clone, Copy, Debug, PartialEq, Eq, Hash, Structural)]
pub enum GameState {
    Menu,
    Game,
    GameOver,
    HelpMenu,
}

/// The state of a button in the frame a click is looked at.
#[derive(Clone, Copy, Debug, PartialEq, Eq, Structural)]
pub enum ButtonInteraction {
    Pressed,
    Hovered,
    Idle,
}

/// What the buttons of a menu screen ask of the application in one frame: the
/// screen to switch to, if any (the last request wins), and whether to quit.
#[derive(Clone, Copy, Debug, PartialEq, Eq, Structural)]
pub struct MenuEffects {
    pub next_state: Option<GameState>,
    pub exit: bool,
}

} // verus!
