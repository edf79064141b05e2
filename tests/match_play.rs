use rps_arena::game::{Move, Outcome};
use rps_arena::game_protocol::{ClientRequest, ClientResponse, GameRequest, PlayerHandle, RoundResultResponse};
use rps_arena::game_thread::{GameConfiguration, GamePhase, GameState, GameThread};
use rps_arena::id::Id;

const U1: u128 = 0x11111111_1111_1111_1111_111111111111;
const U2: u128 = 0x22222222_2222_2222_2222_222222222222;

fn req(id: u128, sink: u32, request: ClientRequest) -> GameRequest<u32> {
    GameRequest { player: PlayerHandle { id: Id(id), sender: sink }, request }
}

fn mv(id: u128, sink: u32, value: Move) -> GameRequest<u32> {
    req(id, sink, ClientRequest::Move { value })
}

fn joined_match(games_to_win: u8) -> GameState<u32> {
    let mut s = GameState::new(GameConfiguration { players: (Id(U1), Id(U2)), games_to_win });
    s.update(req(U1, 1, ClientRequest::JoinGame));
    s.update(req(U2, 2, ClientRequest::JoinGame));
    s
}

#[test]
fn beats_follows_the_cycle() {
    assert_eq!(Move::Rock.beats(&Move::Scissors), Some(true));
    assert_eq!(Move::Scissors.beats(&Move::Paper), Some(true));
    assert_eq!(Move::Paper.beats(&Move::Rock), Some(true));
    assert_eq!(Move::Scissors.beats(&Move::Rock), Some(false));
    assert_eq!(Move::Paper.beats(&Move::Scissors), Some(false));
    assert_eq!(Move::Rock.beats(&Move::Paper), Some(false));
    assert_eq!(Move::Rock.beats(&Move::Rock), None);
    assert_eq!(Move::Paper.beats(&Move::Paper), None);
}

#[test]
fn each_player_gets_game_joined_then_pending_move() {
    let mut s = GameState::new(GameConfiguration { players: (Id(U1), Id(U2)), games_to_win: 1 });
    let first = s.update(req(U1, 1, ClientRequest::JoinGame));
    assert_eq!(first, vec![(Id(U1), ClientResponse::GameJoined)]);
    let second = s.update(req(U2, 2, ClientRequest::JoinGame));
    assert_eq!(
        second,
        vec![
            (Id(U2), ClientResponse::GameJoined),
            (Id(U1), ClientResponse::PendingMove),
            (Id(U2), ClientResponse::PendingMove),
        ]
    );
    assert!(matches!(s.phase, GamePhase::PendingMoves { move_a: None, move_b: None }));
    assert_eq!(s.sender_of(Id(U1)), Some(&1));
    assert_eq!(s.sender_of(Id(U2)), Some(&2));
    assert_eq!(s.sender_of(Id(7)), None);
}

#[test]
fn full_rally_best_of_one() {
    let mut s = joined_match(1);
    assert!(s.update(mv(U1, 1, Move::Rock)).is_empty());
    let out = s.update(mv(U2, 2, Move::Scissors));
    assert_eq!(
        out,
        vec![
            (Id(U1), ClientResponse::RoundResult(RoundResultResponse { result: Outcome::Win, other_move: Move::Scissors })),
            (Id(U2), ClientResponse::RoundResult(RoundResultResponse { result: Outcome::Loss, other_move: Move::Rock })),
            (Id(U1), ClientResponse::MatchResult { result: Outcome::Win, wins: 1, total: 1 }),
            (Id(U2), ClientResponse::MatchResult { result: Outcome::Loss, wins: 0, total: 1 }),
        ]
    );
    assert!(GameThread::should_exit(&s));
    assert!(s.update(mv(U1, 1, Move::Paper)).is_empty());
}

#[test]
fn draw_then_decide() {
    let mut s = joined_match(1);
    assert!(s.update(mv(U1, 1, Move::Rock)).is_empty());
    assert!(s.update(mv(U2, 2, Move::Rock)).is_empty());
    assert_eq!(s.rounds_played, 1);
    assert!(matches!(s.phase, GamePhase::PendingMoves { move_a: None, move_b: None }));
    assert!(!GameThread::should_exit(&s));
    assert!(s.update(mv(U1, 1, Move::Rock)).is_empty());
    let out = s.update(mv(U2, 2, Move::Scissors));
    assert_eq!(out.len(), 4);
    assert_eq!(out[2], (Id(U1), ClientResponse::MatchResult { result: Outcome::Win, wins: 1, total: 2 }));
    assert_eq!(out[3], (Id(U2), ClientResponse::MatchResult { result: Outcome::Loss, wins: 0, total: 2 }));
}

#[test]
fn best_of_two_wins_needs_two_decided_rounds() {
    let mut s = joined_match(2);
    s.update(mv(U2, 2, Move::Paper));
    let out = s.update(mv(U1, 1, Move::Rock));
    assert_eq!(
        out,
        vec![
            (Id(U1), ClientResponse::RoundResult(RoundResultResponse { result: Outcome::Loss, other_move: Move::Paper })),
            (Id(U2), ClientResponse::RoundResult(RoundResultResponse { result: Outcome::Win, other_move: Move::Rock })),
        ]
    );
    assert_eq!((s.wins_a, s.wins_b, s.rounds_played), (0, 1, 1));
    s.update(mv(U1, 1, Move::Scissors));
    let out = s.update(mv(U2, 2, Move::Paper));
    assert_eq!(out.len(), 2);
    s.update(mv(U1, 1, Move::Paper));
    let out = s.update(mv(U2, 2, Move::Scissors));
    assert_eq!(out[3], (Id(U2), ClientResponse::MatchResult { result: Outcome::Win, wins: 2, total: 3 }));
    assert_eq!(out[2], (Id(U1), ClientResponse::MatchResult { result: Outcome::Loss, wins: 1, total: 3 }));
}

#[test]
fn double_move_is_dropped() {
    let mut s = joined_match(1);
    s.update(mv(U1, 1, Move::Rock));
    assert!(s.update(mv(U1, 1, Move::Paper)).is_empty());
    assert!(matches!(s.phase, GamePhase::PendingMoves { move_a: Some(Move::Rock), move_b: None }));
}

#[test]
fn strangers_and_wrong_phase_requests_are_dropped() {
    let mut s = GameState::new(GameConfiguration { players: (Id(U1), Id(U2)), games_to_win: 1 });
    assert!(s.update(req(9, 9, ClientRequest::JoinGame)).is_empty());
    assert!(s.update(mv(U1, 1, Move::Rock)).is_empty());
    s.update(req(U1, 1, ClientRequest::JoinGame));
    assert!(s.update(req(U1, 1, ClientRequest::JoinGame)).is_empty());
    assert!(matches!(s.phase, GamePhase::WaitingForPlayers { connected_a: true, connected_b: false }));
    s.update(req(U2, 2, ClientRequest::JoinGame));
    assert!(s.update(req(U1, 1, ClientRequest::JoinGame)).is_empty());
    assert!(s.update(mv(9, 9, Move::Rock)).is_empty());
    assert!(matches!(s.phase, GamePhase::PendingMoves { move_a: None, move_b: None }));
}

#[test]
fn zero_target_ends_at_first_decided_round() {
    let mut s = joined_match(0);
    s.update(mv(U1, 1, Move::Paper));
    let out = s.update(mv(U2, 2, Move::Rock));
    assert_eq!(out[2], (Id(U1), ClientResponse::MatchResult { result: Outcome::Win, wins: 1, total: 1 }));
    assert!(GameThread::should_exit(&s));
}

#[test]
fn rounds_played_stops_at_255() {
    let mut s = joined_match(1);
    for _ in 0..300 {
        s.update(mv(U1, 1, Move::Rock));
        s.update(mv(U2, 2, Move::Rock));
    }
    assert_eq!(s.rounds_played, 255);
    s.update(mv(U1, 1, Move::Rock));
    let out = s.update(mv(U2, 2, Move::Scissors));
    assert_eq!(out[2], (Id(U1), ClientResponse::MatchResult { result: Outcome::Win, wins: 1, total: 255 }));
}
