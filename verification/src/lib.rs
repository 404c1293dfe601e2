//! Core engine of a turn-based cultivation role-playing game: character
//! creation, scaled random encounters, turn-by-turn combat resolution,
//! qi training and breakthrough progression, and village actions
//! (rest, gear purchases, quest dialogue).
//!
//! Every state transition is a plain function from the current records and
//! a decision (plus, where the game rolls dice, the drawn number) to the
//! next state, so a front end of any kind can drive a session.

pub mod combat;
pub mod encounter;
pub mod entities;
pub mod progression;
mod rng;
pub mod village;
