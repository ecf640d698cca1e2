//! A four-by-four drop board for two kinds of item, with win detection over
//! ten lines and a seeded generator that fills whole boards.

pub mod equal;
pub mod generator;
pub mod item;
pub mod render;
pub mod rules;
pub mod service;
pub mod session;

pub use generator::Generator;
pub use item::{GameState, Item};
pub use session::AppState;
