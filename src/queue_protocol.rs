use vstd::prelude::*;
use crate::id::Id;

verus! {

/// What a client asks of the matchmaking service.
#[derive(Debug, Clone, Copy, PartialEq, Eq, Structural)]
pub enum ClientRequest {
    /// Put this user in the pairing queue.
    JoinQueue,
    /// Keepalive.
    Ping,
    /// Ask again for the address of the assigned game server.
    GetServer,
}

/// What the matchmaking service sends to a client.
#[derive(Debug, Clone, PartialEq, Eq)]
pub enum ClientResponse {
    /// The user is now in the queue.
    JoinedQueue,
    /// Answer to a keepalive.
    QueuePing { time_elapsed: u32 },
    /// A match was made: connect to the game server at this address.
    MatchFound { game_id: Id, server_address: String },
    /// Connect to the game server at this IPv6 address (its 128 bits).
    JoinServer { server_ip: u128 },
}

/// A queued user: its id and the push sink into its session.
#[derive(Debug, Clone)]
pub struct Player<S> {
    pub id: Id,
    pub sender: S,
}

/// Messages from the queue sessions to the matchmaking task.
#[derive(Debug, Clone)]
pub enum MatchmakingRequest<S> {
    JoinQueue(Player<S>),
    LeaveQueue(Id),
}

} // verus!
