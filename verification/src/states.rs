//! The screens of the game.

use vstd::prelude::*;

verus! {

/// Which screen is up.
#[derive(Clone, Copy, Debug, PartialEq, Eq, Hash, Structural)]
pub enum GameState {
    Menu,
    Game,
}

impl Default for GameState {
    fn default() -> (r: Self)
        ensures
            r == GameState::Menu,
    {
        GameState::Menu
    }
}

} // verus!
