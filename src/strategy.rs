use vstd::prelude::*;
use crate::game::{Move, Outcome};

verus! {

/// One played round, from the agent's side.
#[derive(Debug, Clone, Copy, PartialEq, Eq, Structural)]
pub struct Round {
    pub my_move: Move,
    pub their_move: Move,
    pub outcome: Outcome,
}

/// How an agent picks its next move from the rounds played so far.
pub trait Strategy {
    /// The move this strategy picks after `history`.
    spec fn choice(&self, history: Seq<Round>) -> Move;

    fn make_move(&self, history: &Vec<Round>) -> (m: Move)
        ensures
            m == self.choice(history@),
    ;
}

/// Always Rock.
pub struct OnlyRock {}

/// Always Paper.
pub struct OnlyPaper {}

/// Always Scissors.
pub struct OnlyScissors {}

/// A placeholder for a random strategy: for now it plays Rock.
pub struct RandomMove {}

impl Strategy for OnlyRock {
    open spec fn choice(&self, history: Seq<Round>) -> Move {
        Move::Rock
    }

    fn make_move(&self, history: &Vec<Round>) -> (m: Move) {
        Move::Rock
    }
}

impl Strategy for OnlyPaper {
    open spec fn choice(&self, history: Seq<Round>) -> Move {
        Move::Paper
    }

    fn make_move(&self, history: &Vec<Round>) -> (m: Move) {
        Move::Paper
    }
}

impl Strategy for OnlyScissors {
    open spec fn choice(&self, history: Seq<Round>) -> Move {
        Move::Scissors
    }

    fn make_move(&self, history: &Vec<Round>) -> (m: Move) {
        Move::Scissors
    }
}

impl Strategy for RandomMove {
    open spec fn choice(&self, history: Seq<Round>) -> Move {
        Move::Rock
    }

    fn make_move(&self, history: &Vec<Round>) -> (m: Move) {
        Move::Rock
    }
}

/// An agent: its strategy, the rounds it played and its last move.
pub struct Client<T> {
    pub strategy: T,
    pub history: Vec<Round>,
    pub last_move: Option<Move>,
}

impl<T: Strategy> Client<T> {
    /// An agent with no rounds played.
    pub fn new(strategy: T) -> (r: Self)
        ensures
            r.strategy == strategy,
            r.history@ == Seq::<Round>::empty(),
            r.last_move.is_none(),
    {
        Client { strategy, history: Vec::new(), last_move: None }
    }

    /// Picks the next move with the strategy and remembers it.
    pub fn play(&mut self) -> (m: Move)
        ensures
            m == old(self).strategy.choice(old(self).history@),
            final(self).last_move == Some(m),
            final(self).history@ == old(self).history@,
            final(self).strategy == old(self).strategy,
    {
        let next_move = self.strategy.make_move(&self.history);
        self.last_move = Some(next_move);
        next_move
    }
}

} // verus!
