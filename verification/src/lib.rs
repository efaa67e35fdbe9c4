//! Engines for two small terminal programs: a Minesweeper game and a
//! line calculator. The crate holds their state machines; drawing and
//! reading the terminal are left to the program that embeds them.

pub mod calculator;
pub mod keys;
pub mod minesweeper;
