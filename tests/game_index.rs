use rps_arena::game_manager::{CreateGameError, GameManager};
use rps_arena::game_protocol::{ClientRequest, ClientResponse};
use rps_arena::game_socket::GameSocket;
use rps_arena::id::Id;
use rps_arena::messages::{CreateGameRequest, CreateGameResponse, GetGameResponse};

const U1: u128 = 0x11111111_1111_1111_1111_111111111111;
const U2: u128 = 0x22222222_2222_2222_2222_222222222222;
const M: u128 = 0x33333333_3333_3333_3333_333333333333;

fn request(players: Vec<u128>) -> CreateGameRequest {
    CreateGameRequest { players: players.into_iter().map(Id).collect(), games_to_win: 1 }
}

#[test]
fn create_then_get_and_route() {
    let mut gm = GameManager::new();
    let r = gm.create_game_with_id(&request(vec![U1, U2]), Id(M), "actor-m");
    assert_eq!(r, Ok(CreateGameResponse { game_id: Id(M) }));
    assert_eq!(gm.get_game(Id(M)), Some(GetGameResponse { game_id: Id(M), players: (Id(U1), Id(U2)) }));
    assert_eq!(gm.get_game(Id(U1)), None);
    assert_eq!(gm.route_request(Id(U1)), Some(&"actor-m"));
    assert_eq!(gm.route_request(Id(U2)), Some(&"actor-m"));
    assert_eq!(gm.route_request(Id(9)), None);
    assert!(gm.is_assigned(Id(U1)) && gm.is_assigned(Id(U2)));
    assert!(gm.has_game(Id(M)));
}

#[test]
fn create_conflict_repeats_without_change() {
    let mut gm = GameManager::new();
    gm.create_game_with_id(&request(vec![U1, U2]), Id(M), 1u8).unwrap();
    for _ in 0..3 {
        assert_eq!(
            gm.create_game_with_id(&request(vec![U1, 5]), Id(6), 2u8),
            Err(CreateGameError::PlayerAlreadyAssigned)
        );
        assert_eq!(
            gm.create_game_with_id(&request(vec![5, U2]), Id(7), 2u8),
            Err(CreateGameError::PlayerAlreadyAssigned)
        );
    }
    assert!(!gm.has_game(Id(6)) && !gm.has_game(Id(7)));
    assert!(!gm.is_assigned(Id(5)));
    assert_eq!(gm.route_request(Id(U1)), Some(&1u8));
}

#[test]
fn malformed_and_colliding_requests_are_refused() {
    let mut gm = GameManager::new();
    assert_eq!(gm.create_game_with_id(&request(vec![U1]), Id(M), 0u8), Err(CreateGameError::InvalidPlayers));
    assert_eq!(gm.create_game_with_id(&request(vec![U1, U2, 5]), Id(M), 0u8), Err(CreateGameError::InvalidPlayers));
    gm.create_game_with_id(&request(vec![U1, U2]), Id(M), 0u8).unwrap();
    assert_eq!(gm.create_game_with_id(&request(vec![5, 6]), Id(M), 1u8), Err(CreateGameError::IdInUse));
    assert!(!gm.is_assigned(Id(5)));
}

#[test]
fn create_game_draws_a_fresh_id() {
    let mut gm = GameManager::new();
    let first = gm.create_game(&request(vec![U1, U2]), 0u8).unwrap();
    let second = gm.create_game(&request(vec![5, 6]), 1u8).unwrap();
    assert_ne!(first.game_id, second.game_id);
    assert_eq!(gm.route_request(Id(5)), Some(&1u8));
    assert_eq!(gm.get_game(first.game_id).map(|g| g.players), Some((Id(U1), Id(U2))));
}

#[test]
fn removing_a_match_frees_its_players() {
    let mut gm = GameManager::new();
    gm.create_game_with_id(&request(vec![U1, U2]), Id(M), 4u8).unwrap();
    let rec = gm.remove_game(Id(M)).unwrap();
    assert_eq!((rec.id, rec.players, rec.to_actor), (Id(M), (Id(U1), Id(U2)), 4u8));
    assert!(!gm.is_assigned(Id(U1)) && !gm.is_assigned(Id(U2)));
    assert_eq!(gm.get_game(Id(M)), None);
    assert!(gm.remove_game(Id(M)).is_none());
    assert_eq!(gm.create_game_with_id(&request(vec![U1, U2]), Id(8), 5u8), Ok(CreateGameResponse { game_id: Id(8) }));
}

#[test]
fn game_socket_forwards_every_request() {
    let (reply, forwarded) = GameSocket::respond_to_request(Id(U1), ClientRequest::JoinGame, 3u32);
    assert_eq!(reply, None::<ClientResponse>);
    assert_eq!((forwarded.player.id, forwarded.player.sender), (Id(U1), 3));
    assert_eq!(forwarded.request, ClientRequest::JoinGame);
}
