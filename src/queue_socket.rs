use vstd::prelude::*;
use crate::id::Id;
use crate::queue_protocol::{ClientRequest, ClientResponse, MatchmakingRequest, Player};
use crate::websocket::WebsocketHandler;

verus! {

/// The matchmaking service's session policy.
pub struct QueueSocket {}

impl QueueSocket {
    pub fn new() -> (r: Self) {
        QueueSocket {}
    }

    /// Answers a client request of a queue session. `JoinQueue` is handed to
    /// the matchmaking task with the user's push sink and answered later;
    /// `Ping` is answered at once with a zero `QueuePing`; `GetServer` at once
    /// with the unspecified IPv6 address.
    pub fn respond_to_request<S>(user_id: Id, request: ClientRequest, to_user_sender: S) -> (r: (
        Option<ClientResponse>,
        Option<MatchmakingRequest<S>>,
    ))
        ensures
            r == match request {
                ClientRequest::JoinQueue => (
                    None,
                    Some(MatchmakingRequest::JoinQueue(Player { id: user_id, sender: to_user_sender })),
                ),
                ClientRequest::Ping => (Some(ClientResponse::QueuePing { time_elapsed: 0 }), None),
                ClientRequest::GetServer => (Some(ClientResponse::JoinServer { server_ip: 0 }), None),
            },
    {
        match request {
            ClientRequest::JoinQueue => (
                None,
                Some(MatchmakingRequest::JoinQueue(Player { id: user_id, sender: to_user_sender })),
            ),
            ClientRequest::Ping => (Some(ClientResponse::QueuePing { time_elapsed: 0 }), None),
            ClientRequest::GetServer => (Some(ClientResponse::JoinServer { server_ip: 0 }), None),
        }
    }
}

impl WebsocketHandler<ClientResponse> for QueueSocket {
    /// A queue session closes after it announced a game server.
    open spec fn closes_after(body: ClientResponse) -> bool {
        body is MatchFound || body is JoinServer
    }

    fn drop_after_send(body: &ClientResponse) -> (r: bool) {
        matches!(body, ClientResponse::MatchFound { .. } | ClientResponse::JoinServer { .. })
    }
}

} // verus!
