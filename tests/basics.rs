use rps_arena::game::Move;
use rps_arena::id::Id;
use rps_arena::strategy::{Client, OnlyPaper, OnlyRock, OnlyScissors, RandomMove, Strategy};
use rps_arena::utility::url;

#[test]
fn url_joins_its_parts() {
    assert_eq!(url("http", "127.0.0.1:8080", "create_game"), "http://127.0.0.1:8080/create_game");
    assert_eq!(url("ws", "host", ""), "ws://host/");
}

#[test]
fn id_text_is_canonical_and_reads_back() {
    let id = Id(0x11111111_1111_1111_1111_111111111111);
    assert_eq!(id.text(), "11111111-1111-1111-1111-111111111111");
    let other = Id(0xa1a2a3a4_b1b2_c1c2_d1d2_d3d4d5d6d7d8);
    assert_eq!(other.text(), "a1a2a3a4-b1b2-c1c2-d1d2-d3d4d5d6d7d8");
    assert_eq!(Id::parse(&other.text()), Some(other));
    assert_eq!(Id::parse("33333333-3333-3333-3333-333333333333"), Some(Id(0x33333333_3333_3333_3333_333333333333)));
    assert_eq!(Id::parse("not an id"), None);
}

#[test]
fn fresh_ids_differ() {
    assert_ne!(Id::new(), Id::new());
}

#[test]
fn strategies_pick_their_move() {
    let history = Vec::new();
    assert_eq!(OnlyRock {}.make_move(&history), Move::Rock);
    assert_eq!(OnlyPaper {}.make_move(&history), Move::Paper);
    assert_eq!(OnlyScissors {}.make_move(&history), Move::Scissors);
    assert_eq!(RandomMove {}.make_move(&history), Move::Rock);
}

#[test]
fn client_remembers_its_last_move() {
    let mut c = Client::new(OnlyScissors {});
    assert_eq!(c.last_move, None);
    assert_eq!(c.play(), Move::Scissors);
    assert_eq!(c.last_move, Some(Move::Scissors));
    assert!(c.history.is_empty());
}
