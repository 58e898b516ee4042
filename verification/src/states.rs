//! The two states of the game and the way back into play.

use vstd::prelude::*;

verus! {

/// Whether a round is running or has been lost.
#[derive(Clone, Copy, Debug, PartialEq, Eq, Hash, Structural)]
pub enum GameState {
    Playing,
    GameOver,
}

impl Default for GameState {
    /// A game starts in play.
    fn default() -> (state: Self)
        ensures
            state == GameState::Playing,
    {
        GameState::Playing
    }
}

/// The state to enter from the game-over screen: a fresh round as soon as
/// the reset key goes down, otherwise none.
pub fn check_to_reset(reset_just_pressed: bool) -> (next: Option<GameState>)
    ensures
        next == if reset_just_pressed {
            Some(GameState::Playing)
        } else {
            None
        },
{
    if reset_just_pressed {
        Some(GameState::Playing)
    } else {
        None
    }
}

} // verus!
