//! A live multi-player trivia game: the authoritative game state, the rules of
//! its stage transitions, question selection without repeats, and scoring.

pub mod questions;
pub mod state;
pub mod selection;
pub mod scoring;
pub mod identity;
pub mod interface;
pub mod narration;
pub mod audio;
pub mod controller;
pub mod generation;
