use vstd::prelude::*;
use crate::game::{Move, Outcome};
use crate::id::Id;

verus! {

/// The result of one decided round, from one player's side.
#[derive(Debug, Clone, Copy, PartialEq, Eq, Structural)]
pub struct RoundResultResponse {
    pub result: Outcome,
    pub other_move: Move,
}

/// What a client asks of the game service.
#[derive(Debug, Clone, Copy, PartialEq, Eq, Structural)]
pub enum ClientRequest {
    JoinGame,
    Move { value: Move },
}

/// What the game service sends to a client.
#[derive(Debug, Clone, Copy, PartialEq, Eq, Structural)]
pub enum ClientResponse {
    GameJoined,
    PendingMove,
    RoundResult(RoundResultResponse),
    MatchResult { result: Outcome, wins: u8, total: u8 },
}

/// A player as seen by the game service: its id and the push sink into its session.
#[derive(Debug, Clone)]
pub struct PlayerHandle<S> {
    pub id: Id,
    pub sender: S,
}

/// A client request routed from a game session towards the player's match.
#[derive(Debug, Clone)]
pub struct GameRequest<S> {
    pub player: PlayerHandle<S>,
    pub request: ClientRequest,
}

} // verus!
