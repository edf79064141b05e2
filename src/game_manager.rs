use vstd::prelude::*;
use std::collections::HashMap;
use crate::id::Id;
use crate::messages::{CreateGameRequest, CreateGameResponse, GetGameResponse};

verus! {

broadcast use vstd::std_specs::hash::group_hash_axioms;

/// A live match: its id, its two players and the sink into its actor.
#[derive(Debug)]
pub struct MatchRecord<H> {
    pub id: Id,
    pub players: (Id, Id),
    pub to_actor: H,
}

/// Why a `create_game` request was refused.
#[derive(Debug, Clone, Copy, PartialEq, Eq, Structural)]
pub enum CreateGameError {
    /// The request did not name exactly two players.
    InvalidPlayers,
    /// One of the players is already assigned to a match (HTTP 409).
    PlayerAlreadyAssigned,
    /// The identifier drawn for the new match is already in use.
    IdInUse,
}

/// The decision on a `create_game` request, given the player assignment, the
/// ids of the live matches, the players named and the id offered for the new
/// match: the two players, or the first reason to refuse.
pub open spec fn create_check(
    assignment: Map<u128, u128>,
    game_ids: Set<u128>,
    players: Seq<Id>,
    game_id: Id,
) -> Result<(Id, Id), CreateGameError> {
    if players.len() != 2 {
        Err(CreateGameError::InvalidPlayers)
    } else if assignment.contains_key(players[0].0) || assignment.contains_key(players[1].0) {
        Err(CreateGameError::PlayerAlreadyAssigned)
    } else if game_ids.contains(game_id.0) {
        Err(CreateGameError::IdInUse)
    } else {
        Ok((players[0], players[1]))
    }
}

/// The game service's index of live matches.
pub struct GameManager<H> {
    games: HashMap<u128, MatchRecord<H>>,
    player_assignment: HashMap<u128, u128>,
}

impl<H> GameManager<H> {
    /// The live matches by id.
    pub closed spec fn games(&self) -> Map<u128, MatchRecord<H>> {
        self.games@
    }

    /// The match of each assigned player.
    pub closed spec fn assignment(&self) -> Map<u128, u128> {
        self.player_assignment@
    }

    /// Every match is filed under its own id with both players assigned to
    /// it, and every assigned player is a player of the match it is assigned to.
    pub open spec fn wf(&self) -> bool {
        &&& forall|m: u128| #[trigger] self.games().contains_key(m) ==> {
            let g = self.games()[m];
            &&& g.id.0 == m
            &&& self.assignment().contains_key(g.players.0.0)
            &&& self.assignment()[g.players.0.0] == m
            &&& self.assignment().contains_key(g.players.1.0)
            &&& self.assignment()[g.players.1.0] == m
        }
        &&& forall|p: u128| #[trigger] self.assignment().contains_key(p) ==> {
            let m = self.assignment()[p];
            &&& self.games().contains_key(m)
            &&& (self.games()[m].players.0.0 == p || self.games()[m].players.1.0 == p)
        }
    }

    /// No matches, nobody assigned.
    pub fn new() -> (r: Self)
        ensures
            r.wf(),
            r.games() == Map::<u128, MatchRecord<H>>::empty(),
            r.assignment() == Map::<u128, u128>::empty(),
    {
        GameManager { games: HashMap::new(), player_assignment: HashMap::new() }
    }

    /// Whether this player is assigned to a match.
    pub fn is_assigned(&self, player: Id) -> (r: bool)
        ensures
            r == self.assignment().contains_key(player.0),
    {
        self.player_assignment.contains_key(&player.0)
    }

    /// Whether a match with this id is live.
    pub fn has_game(&self, game_id: Id) -> (r: bool)
        ensures
            r == self.games().contains_key(game_id.0),
    {
        self.games.contains_key(&game_id.0)
    }

    /// `POST /create_game` with the id offered for the new match: refuses a
    /// request that does not name two players, or names an assigned player, or
    /// comes with an id in use; otherwise files the match and assigns both
    /// players to it. A refusal changes nothing.
    pub fn create_game_with_id(&mut self, request: &CreateGameRequest, game_id: Id, to_actor: H) -> (r: Result<CreateGameResponse, CreateGameError>)
        requires
            old(self).wf(),
        ensures
            final(self).wf(),
            match create_check(old(self).assignment(), old(self).games().dom(), request.players@, game_id) {
                Ok((p1, p2)) => {
                    &&& r == Ok::<CreateGameResponse, CreateGameError>(CreateGameResponse { game_id })
                    &&& final(self).games() == old(self).games().insert(
                        game_id.0,
                        MatchRecord { id: game_id, players: (p1, p2), to_actor },
                    )
                    &&& final(self).assignment() == old(self).assignment().insert(p1.0, game_id.0).insert(p2.0, game_id.0)
                },
                Err(e) => {
                    &&& r == Err::<CreateGameResponse, CreateGameError>(e)
                    &&& final(self).games() == old(self).games()
                    &&& final(self).assignment() == old(self).assignment()
                },
            },
    {
        if request.players.len() != 2 {
            return Err(CreateGameError::InvalidPlayers);
        }
        let p1 = request.players[0];
        let p2 = request.players[1];
        if self.player_assignment.contains_key(&p1.0) || self.player_assignment.contains_key(&p2.0) {
            return Err(CreateGameError::PlayerAlreadyAssigned);
        }
        if self.games.contains_key(&game_id.0) {
            return Err(CreateGameError::IdInUse);
        }
        let ghost old_games = self.games@;
        let ghost old_assign = self.player_assignment@;
        self.player_assignment.insert(p1.0, game_id.0);
        self.player_assignment.insert(p2.0, game_id.0);
        self.games.insert(game_id.0, MatchRecord { id: game_id, players: (p1, p2), to_actor });
        proof {
            assert forall|m: u128| #[trigger] self.games().contains_key(m) implies {
                let g = self.games()[m];
                &&& g.id.0 == m
                &&& self.assignment().contains_key(g.players.0.0)
                &&& self.assignment()[g.players.0.0] == m
                &&& self.assignment().contains_key(g.players.1.0)
                &&& self.assignment()[g.players.1.0] == m
            } by {
                if m != game_id.0 {
                    let g = old_games[m];
                    assert(old_games.contains_key(m));
                    assert(g.players.0.0 != p1.0 && g.players.0.0 != p2.0);
                    assert(g.players.1.0 != p1.0 && g.players.1.0 != p2.0);
                }
            }
            assert forall|p: u128| #[trigger] self.assignment().contains_key(p) implies {
                let m = self.assignment()[p];
                &&& self.games().contains_key(m)
                &&& (self.games()[m].players.0.0 == p || self.games()[m].players.1.0 == p)
            } by {
                if p != p1.0 && p != p2.0 {
                    assert(old_assign.contains_key(p));
                    assert(old_games.contains_key(old_assign[p]));
                }
            }
        }
        Ok(CreateGameResponse { game_id })
    }

    /// `POST /create_game`: draws a fresh random id for the match and files it
    /// as `create_game_with_id` does with that id.
    pub fn create_game(&mut self, request: &CreateGameRequest, to_actor: H) -> (r: Result<CreateGameResponse, CreateGameError>)
        requires
            old(self).wf(),
        ensures
            final(self).wf(),
            exists|game_id: Id| {
                &&& #[trigger] create_check(old(self).assignment(), old(self).games().dom(), request.players@, game_id) matches Ok((p1, p2)) ==> {
                    &&& r == Ok::<CreateGameResponse, CreateGameError>(CreateGameResponse { game_id })
                    &&& final(self).games() == old(self).games().insert(
                        game_id.0,
                        MatchRecord { id: game_id, players: (p1, p2), to_actor },
                    )
                    &&& final(self).assignment() == old(self).assignment().insert(p1.0, game_id.0).insert(p2.0, game_id.0)
                }
                &&& create_check(old(self).assignment(), old(self).games().dom(), request.players@, game_id) matches Err(e) ==> {
                    &&& r == Err::<CreateGameResponse, CreateGameError>(e)
                    &&& final(self).games() == old(self).games()
                    &&& final(self).assignment() == old(self).assignment()
                }
            },
    {
        let game_id = Id::new();
        self.create_game_with_id(request, game_id, to_actor)
    }

    /// The router's lookup: the sink into the actor of this player's match,
    /// or none when the player is not assigned.
    pub fn route_request(&self, player_id: Id) -> (r: Option<&H>)
        requires
            self.wf(),
        ensures
            match r {
                Some(h) => {
                    &&& self.assignment().contains_key(player_id.0)
                    &&& *h == self.games()[self.assignment()[player_id.0]].to_actor
                },
                None => !self.assignment().contains_key(player_id.0),
            },
    {
        match self.player_assignment.get(&player_id.0) {
            None => None,
            Some(game_id) => match self.games.get(game_id) {
                Some(game) => Some(&game.to_actor),
                None => None,
            },
        }
    }

    /// `GET /game/{id}`: the match and its players, or none (HTTP 404).
    pub fn get_game(&self, game_id: Id) -> (r: Option<GetGameResponse>)
        ensures
            match r {
                Some(resp) => {
                    &&& self.games().contains_key(game_id.0)
                    &&& resp == GetGameResponse { game_id, players: self.games()[game_id.0].players }
                },
                None => !self.games().contains_key(game_id.0),
            },
    {
        match self.games.get(&game_id.0) {
            Some(game) => Some(GetGameResponse { game_id, players: game.players }),
            None => None,
        }
    }

    /// Reclaims a terminated match: drops its record and both players'
    /// assignments, and returns the record.
    pub fn remove_game(&mut self, game_id: Id) -> (r: Option<MatchRecord<H>>)
        requires
            old(self).wf(),
        ensures
            final(self).wf(),
            match r {
                Some(g) => {
                    &&& old(self).games().contains_key(game_id.0)
                    &&& g == old(self).games()[game_id.0]
                    &&& final(self).games() == old(self).games().remove(game_id.0)
                    &&& final(self).assignment() == old(self).assignment().remove(g.players.0.0).remove(g.players.1.0)
                },
                None => {
                    &&& !old(self).games().contains_key(game_id.0)
                    &&& final(self).games() == old(self).games()
                    &&& final(self).assignment() == old(self).assignment()
                },
            },
    {
        let ghost old_games = self.games@;
        let ghost old_assign = self.player_assignment@;
        match self.games.remove(&game_id.0) {
            None => {
                assert(self.games@ =~= old_games);
                assert(self.games() == old(self).games());
                assert(self.assignment() == old(self).assignment());
                assert(self.wf());
                None
            },
            Some(g) => {
                self.player_assignment.remove(&g.players.0.0);
                self.player_assignment.remove(&g.players.1.0);
                proof {
                    assert(old(self).games().contains_key(game_id.0));
                    assert(g == old_games[game_id.0]);
                    assert forall|m: u128| #[trigger] self.games().contains_key(m) implies {
                        let h = self.games()[m];
                        &&& h.id.0 == m
                        &&& self.assignment().contains_key(h.players.0.0)
                        &&& self.assignment()[h.players.0.0] == m
                        &&& self.assignment().contains_key(h.players.1.0)
                        &&& self.assignment()[h.players.1.0] == m
                    } by {
                        assert(old(self).games().contains_key(m));
                        let h = old_games[m];
                        assert(old_assign[h.players.0.0] == m && old_assign[h.players.1.0] == m);
                        assert(old_assign[g.players.0.0] == game_id.0 && old_assign[g.players.1.0] == game_id.0);
                    }
                    assert forall|p: u128| #[trigger] self.assignment().contains_key(p) implies {
                        let m = self.assignment()[p];
                        &&& self.games().contains_key(m)
                        &&& (self.games()[m].players.0.0 == p || self.games()[m].players.1.0 == p)
                    } by {
                        assert(old(self).assignment().contains_key(p));
                        let m = old_assign[p];
                        assert(old(self).games().contains_key(m));
                        if m == game_id.0 {
                            assert(p == g.players.0.0 || p == g.players.1.0);
                        }
                    }
                    assert(self.wf());
                }
                Some(g)
            },
        }
    }
}

/// In every reachable state of the index a player belongs to at most one live
/// match: two matches that both list a player are the same match.
pub proof fn lemma_player_in_one_match<H>(m: &GameManager<H>, player: u128, g1: u128, g2: u128)
    requires
        m.wf(),
        m.games().contains_key(g1),
        m.games().contains_key(g2),
        m.games()[g1].players.0.0 == player || m.games()[g1].players.1.0 == player,
        m.games()[g2].players.0.0 == player || m.games()[g2].players.1.0 == player,
    ensures
        g1 == g2,
{
}

/// A create request refused because a player is assigned is refused the same
/// way whatever id is offered, and a refusal changes nothing: repeating it
/// gives the same refusal on the same state.
pub proof fn lemma_conflict_is_stable(
    assignment: Map<u128, u128>,
    game_ids: Set<u128>,
    players: Seq<Id>,
    first: Id,
    again: Id,
)
    requires
        create_check(assignment, game_ids, players, first) == Err::<(Id, Id), CreateGameError>(CreateGameError::PlayerAlreadyAssigned),
    ensures
        create_check(assignment, game_ids, players, again) == Err::<(Id, Id), CreateGameError>(CreateGameError::PlayerAlreadyAssigned),
{
}

} // verus!
