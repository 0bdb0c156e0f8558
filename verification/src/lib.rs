//! A two-player lane battle simulation engine.
//!
//! The board is a fixed grid split into two halves, one per player. Players
//! spend keys to place resource-costed objects into cells; every tick the
//! objects generate keys or deal damage across the division line, each on
//! its own cooldown.

pub mod cooldown;
pub mod game;
pub mod game_controller;
pub mod object;
pub mod player;

pub use cooldown::Cooldown;
pub use game::Game;
pub use game_controller::GameController;
pub use object::Object;
pub use player::Player;
pub use player::Players;
