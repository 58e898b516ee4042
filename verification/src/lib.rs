//! Rules of a small arcade space shooter, kept apart from any engine.
//!
//! The crate decides what happens in a frame: which way the ship heads, what
//! is spawned, how much health a hit costs and when the game is over. It
//! works on whole numbers and flags only; reading the keyboard, advancing
//! clocks, moving sprites and testing bounding boxes for overlap belong to
//! the program that drives it.

pub mod components;
pub mod constants;
pub mod states;
pub mod damage;
pub mod player;
pub mod foe;
