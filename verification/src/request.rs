//! The request to play a move.

use vstd::prelude::*;

verus! {

/// What a player sends: a move in UCI notation and, if wished, a resignation.
pub struct MakeMoveRequest {
    pub uci_move: String,
    pub resign: Option<bool>,
}

impl MakeMoveRequest {
    /// Whether the request resigns; a request that does not say resigns not.
    pub fn resigns(&self) -> (resign: bool)
        ensures
            resign == (self.resign == Some(true)),
    {
        match self.resign {
            Some(resign) => resign,
            None => false,
        }
    }
}

} // verus!
