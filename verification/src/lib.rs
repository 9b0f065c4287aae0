//! The rules of a falling-block puzzle game: how the chosen difficulty sets up a
//! game, how the moving brick reacts to gravity and to the player's keys, how
//! landings are scored, when the game pauses, and what the menu buttons do.

pub mod app_state;
pub mod brick_kind;
pub mod game;
pub mod gameover;
pub mod input;
pub mod menu;
pub mod menu_help;
pub mod moving;
pub mod pause;
pub mod position;
pub mod text;
