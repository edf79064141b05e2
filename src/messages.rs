use vstd::prelude::*;
use crate::id::Id;

verus! {

/// The identify handshake: the first frame a client sends on a session.
#[derive(Debug, Clone, Copy, PartialEq, Eq, Structural)]
pub struct OpenSocketRequest {
    pub user_id: Id,
}

/// A client frame after the handshake: an optional user id and a body.
#[derive(Debug, Clone, PartialEq, Eq)]
pub struct SocketRequest<T> {
    pub user_id: Option<Id>,
    pub body: T,
}

/// A server frame: the session's user id and a body.
#[derive(Debug, Clone, PartialEq, Eq)]
pub struct SocketResponse<T> {
    pub user_id: Id,
    pub body: T,
}

/// Matchmaking to game service: create a match between the listed players.
#[derive(Debug, Clone, PartialEq, Eq)]
pub struct CreateGameRequest {
    pub players: Vec<Id>,
    pub games_to_win: u8,
}

/// The game service's answer to a successful `CreateGameRequest`.
#[derive(Debug, Clone, Copy, PartialEq, Eq, Structural)]
pub struct CreateGameResponse {
    pub game_id: Id,
}

/// Lookup of a match by its id.
#[derive(Debug, Clone, Copy, PartialEq, Eq, Structural)]
pub struct GetGameRequest {
    pub game_id: Id,
}

/// A match and its two players.
#[derive(Debug, Clone, Copy, PartialEq, Eq)]
pub struct GetGameResponse {
    pub game_id: Id,
    pub players: (Id, Id),
}

} // verus!
