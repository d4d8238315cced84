//! Gameplay core of a small arcade game in which a physics-driven drone is
//! flown from a start podium to a finish podium.

pub mod campaign;
pub mod game;
pub mod input;
pub mod menus;
pub mod state;

pub use input::KeyMap;
pub use state::{AppState, CurrentLevel};
