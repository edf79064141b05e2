use vstd::prelude::*;

verus! {

/// How a round or a match ended, seen from one player's side.
#[derive(Debug, Clone, Copy, PartialEq, Eq, Structural)]
pub enum Outcome {
    Win,
    Loss,
    Draw,
}

/// One of the three hands a player can show.
#[derive(Debug, Clone, Copy, PartialEq, Eq, Structural)]
pub enum Move {
    Rock,
    Paper,
    Scissors,
}

/// The canonical cycle: Rock beats Scissors, Scissors beats Paper, Paper beats Rock.
pub open spec fn defeats(a: Move, b: Move) -> bool {
    ||| (a == Move::Rock && b == Move::Scissors)
    ||| (a == Move::Scissors && b == Move::Paper)
    ||| (a == Move::Paper && b == Move::Rock)
}

/// `None` for equal moves, otherwise whether `a` beats `b`.
pub open spec fn beats_spec(a: Move, b: Move) -> Option<bool> {
    if a == b {
        None
    } else {
        Some(defeats(a, b))
    }
}

impl Move {
    /// Compares two moves: `None` when they are equal, otherwise `Some(true)`
    /// exactly when `self` beats `other`.
    pub fn beats(&self, other: &Move) -> (r: Option<bool>)
        ensures
            r == beats_spec(*self, *other),
    {
        if *self == *other {
            None
        } else {
            Some(
                match (*self, *other) {
                    (Move::Rock, Move::Scissors) => true,
                    (Move::Scissors, Move::Paper) => true,
                    (Move::Paper, Move::Rock) => true,
                    _ => false,
                },
            )
        }
    }
}

} // verus!
