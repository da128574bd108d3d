//! A one-market trading game: the state of a session and the rules that move it
//! from one turn to the next.

pub mod game;
pub mod input;
pub mod laws;
