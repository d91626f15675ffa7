//! The config language of the game.

pub mod analyze;
pub mod parse;
