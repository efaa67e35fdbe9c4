//! The line calculator: an expression being typed, a history of
//! evaluated expressions, and two tabs that differ in how they evaluate.

pub mod events;
pub mod layout;
pub mod state;
