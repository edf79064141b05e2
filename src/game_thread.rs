use vstd::prelude::*;
use crate::game::{beats_spec, defeats, Move, Outcome};
use crate::game_protocol::{ClientRequest, ClientResponse, GameRequest, RoundResultResponse};
use crate::id::Id;

verus! {

/// The two players of a match and the number of decided rounds one of them
/// must win.
#[derive(Debug, Clone, Copy, PartialEq, Eq)]
pub struct GameConfiguration {
    pub players: (Id, Id),
    pub games_to_win: u8,
}

/// The phase of a match. Player `a` is `players.0`, player `b` is `players.1`.
#[derive(Debug, Clone, Copy)]
pub enum GamePhase {
    /// Which of the two players have joined.
    WaitingForPlayers { connected_a: bool, connected_b: bool },
    /// The moves submitted in the current round.
    PendingMoves { move_a: Option<Move>, move_b: Option<Move> },
    Done,
}

/// The state owned by one match actor.
pub struct GameState<S> {
    pub phase: GamePhase,
    pub configuration: GameConfiguration,
    /// Rounds evaluated so far, draws included; it stops at 255.
    pub rounds_played: u8,
    /// Push sinks of the players, set when each joins.
    pub sink_a: Option<S>,
    pub sink_b: Option<S>,
    pub wins_a: u8,
    pub wins_b: u8,
    /// Drawn rounds so far.
    pub draws: Ghost<nat>,
}

/// Messages to push, in order, each with the id of the player it is for.
pub type Outbox = Vec<(Id, ClientResponse)>;

/// The seat of `id` in the configuration: 0 for `a`, 1 for `b`, 2 for a stranger.
pub open spec fn seat(c: GameConfiguration, id: Id) -> int {
    if id == c.players.0 {
        0
    } else if id == c.players.1 {
        1
    } else {
        2
    }
}

/// The win count that ends the match; a match asked to end at zero ends at
/// the first decided round.
pub open spec fn win_target(c: GameConfiguration) -> nat {
    if c.games_to_win == 0 {
        1
    } else {
        c.games_to_win as nat
    }
}

pub open spec fn saturating_inc(x: u8) -> u8 {
    if x < 255 {
        (x + 1) as u8
    } else {
        255
    }
}

pub open spec fn outcome_for(won: bool) -> Outcome {
    if won {
        Outcome::Win
    } else {
        Outcome::Loss
    }
}

/// The messages that report a decided round: to each player its result and
/// the opponent's move, `a` first.
pub open spec fn round_result_messages(c: GameConfiguration, a_won: bool, move_a: Move, move_b: Move) -> Seq<(Id, ClientResponse)> {
    seq![
        (c.players.0, ClientResponse::RoundResult(RoundResultResponse { result: outcome_for(a_won), other_move: move_b })),
        (c.players.1, ClientResponse::RoundResult(RoundResultResponse { result: outcome_for(!a_won), other_move: move_a })),
    ]
}

/// The messages that end a match: to each player its result, its wins and
/// the rounds played, `a` first.
pub open spec fn match_result_messages(c: GameConfiguration, a_won: bool, wins_a: u8, wins_b: u8, total: u8) -> Seq<(Id, ClientResponse)> {
    seq![
        (c.players.0, ClientResponse::MatchResult { result: outcome_for(a_won), wins: wins_a, total }),
        (c.players.1, ClientResponse::MatchResult { result: outcome_for(!a_won), wins: wins_b, total }),
    ]
}

/// Evaluation of a round once both moves are in.
pub open spec fn resolve_round<S>(s: GameState<S>, move_a: Move, move_b: Move) -> (GameState<S>, Seq<(Id, ClientResponse)>) {
    let c = s.configuration;
    let rounds = saturating_inc(s.rounds_played);
    let fresh = GamePhase::PendingMoves { move_a: None, move_b: None };
    if move_a == move_b {
        (GameState { phase: fresh, rounds_played: rounds, draws: Ghost(s.draws@ + 1), ..s }, seq![])
    } else {
        let a_won = defeats(move_a, move_b);
        let wa = if a_won { (s.wins_a + 1) as u8 } else { s.wins_a };
        let wb = if a_won { s.wins_b } else { (s.wins_b + 1) as u8 };
        let rr = round_result_messages(c, a_won, move_a, move_b);
        if (if a_won { wa } else { wb }) >= c.games_to_win {
            (
                GameState { phase: GamePhase::Done, rounds_played: rounds, wins_a: wa, wins_b: wb, ..s },
                rr + match_result_messages(c, a_won, wa, wb, rounds),
            )
        } else {
            (GameState { phase: fresh, rounds_played: rounds, wins_a: wa, wins_b: wb, ..s }, rr)
        }
    }
}

/// The phase machine: the state after one request and the messages it sends,
/// in order. Requests that the current phase does not accept change nothing.
pub open spec fn step<S>(s: GameState<S>, r: GameRequest<S>) -> (GameState<S>, Seq<(Id, ClientResponse)>) {
    let c = s.configuration;
    let p = r.player;
    let k = seat(c, p.id);
    match s.phase {
        GamePhase::WaitingForPlayers { connected_a, connected_b } => {
            if r.request == ClientRequest::JoinGame && (k == 0 && !connected_a || k == 1 && !connected_b) {
                let ca = connected_a || k == 0;
                let cb = connected_b || k == 1;
                let joined = GameState {
                    phase: GamePhase::WaitingForPlayers { connected_a: ca, connected_b: cb },
                    sink_a: if k == 0 { Some(p.sender) } else { s.sink_a },
                    sink_b: if k == 1 { Some(p.sender) } else { s.sink_b },
                    ..s
                };
                if ca && cb {
                    (
                        GameState { phase: GamePhase::PendingMoves { move_a: None, move_b: None }, ..joined },
                        seq![(p.id, ClientResponse::GameJoined), (c.players.0, ClientResponse::PendingMove), (c.players.1, ClientResponse::PendingMove)],
                    )
                } else {
                    (joined, seq![(p.id, ClientResponse::GameJoined)])
                }
            } else {
                (s, seq![])
            }
        },
        GamePhase::PendingMoves { move_a, move_b } => {
            match r.request {
                ClientRequest::Move { value } => {
                    if k == 0 && move_a.is_none() || k == 1 && move_b.is_none() {
                        let ma = if k == 0 { Some(value) } else { move_a };
                        let mb = if k == 1 { Some(value) } else { move_b };
                        if ma.is_some() && mb.is_some() {
                            resolve_round(s, ma.unwrap(), mb.unwrap())
                        } else {
                            (GameState { phase: GamePhase::PendingMoves { move_a: ma, move_b: mb }, ..s }, seq![])
                        }
                    } else {
                        (s, seq![])
                    }
                },
                _ => (s, seq![]),
            }
        },
        GamePhase::Done => (s, seq![]),
    }
}

/// A borrowed sink and an owned slot hold the same sink, or both none.
pub open spec fn same_sink<S>(r: Option<&S>, slot: Option<S>) -> bool {
    match r {
        Some(x) => slot == Some(*x),
        None => slot.is_none(),
    }
}

impl<S> GameState<S> {
    /// The invariant of a match between inputs.
    pub open spec fn wf(&self) -> bool {
        let c = self.configuration;
        let t = win_target(c);
        &&& self.rounds_played as nat == if self.wins_a + self.wins_b + self.draws@ < 255 {
            (self.wins_a + self.wins_b + self.draws@) as nat
        } else {
            255
        }
        &&& match self.phase {
            GamePhase::WaitingForPlayers { connected_a, connected_b } => {
                &&& self.sink_a.is_some() == connected_a
                &&& self.sink_b.is_some() == connected_b
                &&& connected_b ==> c.players.0 != c.players.1
                &&& self.wins_a == 0 && self.wins_b == 0 && self.draws@ == 0
            },
            GamePhase::PendingMoves { move_a, move_b } => {
                &&& self.sink_a.is_some() && self.sink_b.is_some()
                &&& c.players.0 != c.players.1
                &&& !(move_a.is_some() && move_b.is_some())
                &&& self.wins_a < t && self.wins_b < t
            },
            GamePhase::Done => {
                &&& c.players.0 != c.players.1
                &&& (self.wins_a == t && self.wins_b < t) || (self.wins_b == t && self.wins_a < t)
            },
        }
    }

    /// A match that waits for its two players.
    pub fn new(configuration: GameConfiguration) -> (r: Self)
        ensures
            r.wf(),
            r.configuration == configuration,
            r.phase == (GamePhase::WaitingForPlayers { connected_a: false, connected_b: false }),
            r.rounds_played == 0 && r.wins_a == 0 && r.wins_b == 0,
            r.sink_a.is_none() && r.sink_b.is_none(),
    {
        GameState {
            phase: GamePhase::WaitingForPlayers { connected_a: false, connected_b: false },
            configuration,
            rounds_played: 0,
            sink_a: None,
            sink_b: None,
            wins_a: 0,
            wins_b: 0,
            draws: Ghost(0),
        }
    }

    /// The seat of `id`: 0 for `a`, 1 for `b`, 2 for a stranger.
    pub fn seat_of(&self, id: Id) -> (r: u8)
        ensures
            r as int == seat(self.configuration, id),
    {
        if id == self.configuration.players.0 {
            0
        } else if id == self.configuration.players.1 {
            1
        } else {
            2
        }
    }

    /// The push sink of the player with this id, once it has joined.
    pub fn sender_of(&self, id: Id) -> (r: Option<&S>)
        ensures
            seat(self.configuration, id) == 0 ==> same_sink(r, self.sink_a),
            seat(self.configuration, id) == 1 ==> same_sink(r, self.sink_b),
            seat(self.configuration, id) == 2 ==> r.is_none(),
    {
        let k = self.seat_of(id);
        if k == 0 {
            match &self.sink_a {
                Some(x) => Some(x),
                None => None,
            }
        } else if k == 1 {
            match &self.sink_b {
                Some(x) => Some(x),
                None => None,
            }
        } else {
            None
        }
    }

    /// The winner of a round between two different moves: `a` when its move
    /// beats the other.
    fn get_winner(move_a: Move, move_b: Move) -> (a_won: Option<bool>)
        ensures
            a_won == beats_spec(move_a, move_b),
    {
        move_a.beats(&move_b)
    }

    /// Tells each player the result of a decided round.
    fn notify_round_result(&self, a_won: bool, move_a: Move, move_b: Move, out: &mut Outbox)
        ensures
            final(out)@ == old(out)@ + round_result_messages(self.configuration, a_won, move_a, move_b),
    {
        let ra = if a_won { Outcome::Win } else { Outcome::Loss };
        let rb = if a_won { Outcome::Loss } else { Outcome::Win };
        out.push((self.configuration.players.0, ClientResponse::RoundResult(RoundResultResponse { result: ra, other_move: move_b })));
        out.push((self.configuration.players.1, ClientResponse::RoundResult(RoundResultResponse { result: rb, other_move: move_a })));
        proof {
            assert(final(out)@ =~= old(out)@ + round_result_messages(self.configuration, a_won, move_a, move_b));
        }
    }

    /// Tells each player the result of the match.
    fn notify_match_result(&self, a_won: bool, out: &mut Outbox)
        ensures
            final(out)@ == old(out)@ + match_result_messages(self.configuration, a_won, self.wins_a, self.wins_b, self.rounds_played),
    {
        let ra = if a_won { Outcome::Win } else { Outcome::Loss };
        let rb = if a_won { Outcome::Loss } else { Outcome::Win };
        out.push((self.configuration.players.0, ClientResponse::MatchResult { result: ra, wins: self.wins_a, total: self.rounds_played }));
        out.push((self.configuration.players.1, ClientResponse::MatchResult { result: rb, wins: self.wins_b, total: self.rounds_played }));
        proof {
            assert(final(out)@ =~= old(out)@ + match_result_messages(self.configuration, a_won, self.wins_a, self.wins_b, self.rounds_played));
        }
    }

    /// Evaluates a round once both moves are in.
    fn resolve(&mut self, move_a: Move, move_b: Move) -> (out: Outbox)
        requires
            old(self).wins_a < 255 && old(self).wins_b < 255,
        ensures
            (*final(self), out@) == resolve_round(*old(self), move_a, move_b),
    {
        let ghost s0 = *self;
        let mut out: Outbox = Vec::new();
        self.rounds_played = if self.rounds_played < 255 { self.rounds_played + 1 } else { 255 };
        match Self::get_winner(move_a, move_b) {
            None => {
                self.draws = Ghost(self.draws@ + 1);
                self.phase = GamePhase::PendingMoves { move_a: None, move_b: None };
            },
            Some(a_won) => {
                if a_won {
                    self.wins_a = self.wins_a + 1;
                } else {
                    self.wins_b = self.wins_b + 1;
                }
                self.notify_round_result(a_won, move_a, move_b, &mut out);
                let winner_wins = if a_won { self.wins_a } else { self.wins_b };
                if winner_wins >= self.configuration.games_to_win {
                    self.notify_match_result(a_won, &mut out);
                    self.phase = GamePhase::Done;
                } else {
                    self.phase = GamePhase::PendingMoves { move_a: None, move_b: None };
                }
            },
        }
        proof {
            assert(out@ =~= resolve_round(s0, move_a, move_b).1);
        }
        out
    }

    /// Applies one request from a player to the match and returns the
    /// messages to push, in order, each with its recipient.
    pub fn update(&mut self, request: GameRequest<S>) -> (out: Outbox)
        requires
            old(self).wf(),
        ensures
            final(self).wf(),
            (*final(self), out@) == step(*old(self), request),
    {
        let ghost s0 = *self;
        let ghost r0 = request;
        let GameRequest { player, request: body } = request;
        let k = self.seat_of(player.id);
        match self.phase {
            GamePhase::WaitingForPlayers { connected_a, connected_b } => {
                let is_join = matches!(body, ClientRequest::JoinGame);
                if !(is_join && (k == 0 && !connected_a || k == 1 && !connected_b)) {
                    return Vec::new();
                }
                let ca = connected_a || k == 0;
                let cb = connected_b || k == 1;
                let mut out: Outbox = Vec::new();
                out.push((player.id, ClientResponse::GameJoined));
                if k == 0 {
                    self.sink_a = Some(player.sender);
                } else {
                    self.sink_b = Some(player.sender);
                }
                if ca && cb {
                    out.push((self.configuration.players.0, ClientResponse::PendingMove));
                    out.push((self.configuration.players.1, ClientResponse::PendingMove));
                    self.phase = GamePhase::PendingMoves { move_a: None, move_b: None };
                } else {
                    self.phase = GamePhase::WaitingForPlayers { connected_a: ca, connected_b: cb };
                }
                proof {
                    assert(out@ =~= step(s0, r0).1);
                }
                out
            },
            GamePhase::PendingMoves { move_a, move_b } => {
                let value = match body {
                    ClientRequest::Move { value } => value,
                    ClientRequest::JoinGame => {
                        return Vec::new();
                    },
                };
                if !(k == 0 && move_a.is_none() || k == 1 && move_b.is_none()) {
                    return Vec::new();
                }
                let ma = if k == 0 { Some(value) } else { move_a };
                let mb = if k == 1 { Some(value) } else { move_b };
                match (ma, mb) {
                    (Some(x), Some(y)) => self.resolve(x, y),
                    _ => {
                        self.phase = GamePhase::PendingMoves { move_a: ma, move_b: mb };
                        Vec::new()
                    },
                }
            },
            GamePhase::Done => Vec::new(),
        }
    }
}

/// Between inputs a match waiting for moves holds at most one of them: the
/// second move is evaluated in the same step that receives it.
pub proof fn lemma_at_most_one_pending_move<S>(s: GameState<S>, r: GameRequest<S>)
    requires
        s.wf(),
    ensures
        s.phase matches GamePhase::PendingMoves { move_a, move_b } ==> !(move_a.is_some() && move_b.is_some()),
        step(s, r).0.wf(),
        step(s, r).0.phase matches GamePhase::PendingMoves { move_a, move_b } ==> !(move_a.is_some() && move_b.is_some()),
{
}

/// Round accounting of a match: the rounds played never exceed the wins plus
/// the draws, and never fall below the wins while their sum fits in a `u8`;
/// a finished match has exactly one player at `games_to_win` wins (for a
/// target of at least one).
pub proof fn lemma_round_accounting<S>(s: GameState<S>)
    requires
        s.wf(),
    ensures
        s.rounds_played <= s.wins_a + s.wins_b + s.draws@,
        s.wins_a + s.wins_b <= 255 ==> s.wins_a + s.wins_b <= s.rounds_played,
        s.configuration.games_to_win >= 1 && s.phase is Done ==> {
            ||| s.wins_a == s.configuration.games_to_win && s.wins_b < s.configuration.games_to_win
            ||| s.wins_b == s.configuration.games_to_win && s.wins_a < s.configuration.games_to_win
        },
{
}

/// The actor around a match state.
pub struct GameThread {}

impl GameThread {
    /// Whether the actor leaves its loop: once the match is over.
    pub fn should_exit<S>(state: &GameState<S>) -> (r: bool)
        ensures
            r == (state.phase is Done),
    {
        matches!(state.phase, GamePhase::Done)
    }
}

} // verus!
