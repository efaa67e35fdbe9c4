//! The Minesweeper engine: cells, board generation, the reveal rules,
//! the menu and the controller that ties them together.

pub mod app;
pub mod board;
mod flood;
pub mod grid;
pub mod laws;
pub mod layout;
pub mod menu;
mod shuffle;
pub mod tile;
pub mod uncover;
pub mod update;
