use rps_arena::game::Outcome;
use rps_arena::game_protocol::ClientResponse as GameResponse;
use rps_arena::game_socket::GameSocket;
use rps_arena::id::Id;
use rps_arena::messages::SocketResponse;
use rps_arena::queue_protocol::ClientResponse as QueueResponse;
use rps_arena::queue_socket::QueueSocket;
use rps_arena::websocket::{identify_step, HandshakeEvent, HandshakeStep, Session, SessionAction, SessionEvent, WebsocketHandler};

const U1: u128 = 0x11111111_1111_1111_1111_111111111111;
const M: u128 = 0x33333333_3333_3333_3333_333333333333;

#[test]
fn handshake_waits_for_an_identity() {
    assert_eq!(identify_step(HandshakeEvent::Unreadable), HandshakeStep::Wait);
    assert_eq!(identify_step(HandshakeEvent::Identified(Id(U1))), HandshakeStep::Serve(Id(U1)));
    assert_eq!(identify_step(HandshakeEvent::Closed), HandshakeStep::Abort);
}

#[test]
fn queue_session_sends_in_order_and_closes_after_match_found() {
    let mut s: Session<QueueResponse> = Session::new(Id(U1));
    let ping = QueueResponse::QueuePing { time_elapsed: 0 };
    assert_eq!(
        s.step::<QueueSocket>(SessionEvent::Reply(ping.clone())),
        SessionAction::Send(SocketResponse { user_id: Id(U1), body: ping })
    );
    assert_eq!(s.step::<QueueSocket>(SessionEvent::Idle), SessionAction::Wait);
    assert_eq!(
        s.step::<QueueSocket>(SessionEvent::Pushed(QueueResponse::JoinedQueue)),
        SessionAction::Send(SocketResponse { user_id: Id(U1), body: QueueResponse::JoinedQueue })
    );
    let found = QueueResponse::MatchFound { game_id: Id(M), server_address: "ws://gs".to_string() };
    assert_eq!(
        s.step::<QueueSocket>(SessionEvent::Pushed(found.clone())),
        SessionAction::SendThenClose(SocketResponse { user_id: Id(U1), body: found })
    );
    assert!(!s.open);
    assert_eq!(s.step::<QueueSocket>(SessionEvent::Pushed(QueueResponse::JoinedQueue)), SessionAction::Terminate);
}

#[test]
fn bad_frame_ends_the_session() {
    let mut s: Session<GameResponse> = Session::new(Id(U1));
    assert_eq!(s.step::<GameSocket>(SessionEvent::BadFrame), SessionAction::Terminate);
    assert!(!s.open);
    let mut t: Session<GameResponse> = Session::new(Id(U1));
    assert_eq!(t.step::<GameSocket>(SessionEvent::Closed), SessionAction::Terminate);
    assert!(!t.open);
}

#[test]
fn game_session_closes_after_match_result() {
    let mut s: Session<GameResponse> = Session::new(Id(U1));
    assert_eq!(
        s.step::<GameSocket>(SessionEvent::Pushed(GameResponse::GameJoined)),
        SessionAction::Send(SocketResponse { user_id: Id(U1), body: GameResponse::GameJoined })
    );
    let result = GameResponse::MatchResult { result: Outcome::Win, wins: 1, total: 1 };
    assert_eq!(
        s.step::<GameSocket>(SessionEvent::Pushed(result)),
        SessionAction::SendThenClose(SocketResponse { user_id: Id(U1), body: result })
    );
}

#[test]
fn drop_after_send_policies() {
    assert!(QueueSocket::drop_after_send(&QueueResponse::MatchFound { game_id: Id(M), server_address: String::new() }));
    assert!(QueueSocket::drop_after_send(&QueueResponse::JoinServer { server_ip: 0 }));
    assert!(!QueueSocket::drop_after_send(&QueueResponse::JoinedQueue));
    assert!(!QueueSocket::drop_after_send(&QueueResponse::QueuePing { time_elapsed: 3 }));
    assert!(GameSocket::drop_after_send(&GameResponse::MatchResult { result: Outcome::Loss, wins: 0, total: 1 }));
    assert!(!GameSocket::drop_after_send(&GameResponse::PendingMove));
    assert!(!GameSocket::drop_after_send(&GameResponse::GameJoined));
}
