use vstd::prelude::*;
use crate::game_protocol::{ClientRequest, ClientResponse, GameRequest, PlayerHandle};
use crate::id::Id;
use crate::websocket::WebsocketHandler;

verus! {

/// The game service's session policy.
pub struct GameSocket {}

impl GameSocket {
    pub fn new() -> (r: Self) {
        GameSocket {}
    }

    /// Answers a client request of a game session: never at once; the request
    /// goes to the router with the user's id and push sink.
    pub fn respond_to_request<S>(user_id: Id, request: ClientRequest, to_user_sender: S) -> (r: (
        Option<ClientResponse>,
        GameRequest<S>,
    ))
        ensures
            r == (None::<ClientResponse>, GameRequest { player: PlayerHandle { id: user_id, sender: to_user_sender }, request }),
    {
        (None, GameRequest { player: PlayerHandle { id: user_id, sender: to_user_sender }, request })
    }
}

impl WebsocketHandler<ClientResponse> for GameSocket {
    /// A game session closes after the match result.
    open spec fn closes_after(body: ClientResponse) -> bool {
        body is MatchResult
    }

    fn drop_after_send(body: &ClientResponse) -> (r: bool) {
        matches!(body, ClientResponse::MatchResult { .. })
    }
}

} // verus!
