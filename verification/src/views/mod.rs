//! The screens of the game and what they share.

pub mod shared;
pub mod main_menu;
pub mod game;
