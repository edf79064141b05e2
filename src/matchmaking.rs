use vstd::prelude::*;
use std::collections::HashSet;
use crate::id::Id;
use crate::messages::CreateGameResponse;
use crate::queue_protocol::{ClientResponse, MatchmakingRequest, Player};

verus! {

broadcast use vstd::std_specs::hash::group_hash_axioms;

/// The ids of a queue, front first.
pub open spec fn queued_ids<S>(q: Seq<Player<S>>) -> Seq<u128> {
    q.map_values(|p: Player<S>| p.id.0)
}

/// A queue is valid when no id appears in it twice.
pub open spec fn queue_wf<S>(q: Seq<Player<S>>) -> bool {
    queued_ids(q).no_duplicates()
}

pub open spec fn is_queued<S>(q: Seq<Player<S>>, v: u128) -> bool {
    queued_ids(q).contains(v)
}

/// `JoinQueue`: append the player unless its id is already queued.
pub open spec fn join_queue<S>(q: Seq<Player<S>>, p: Player<S>) -> Seq<Player<S>> {
    if is_queued(q, p.id.0) {
        q
    } else {
        q.push(p)
    }
}

/// The position of `id` in a queue that holds it.
pub open spec fn position_of<S>(q: Seq<Player<S>>, id: Id) -> int {
    choose|i: int| 0 <= i < q.len() && q[i].id.0 == id.0
}

/// `LeaveQueue`: remove the player with this id, if it is queued.
pub open spec fn leave_queue<S>(q: Seq<Player<S>>, id: Id) -> Seq<Player<S>> {
    if is_queued(q, id.0) {
        q.remove(position_of(q, id))
    } else {
        q
    }
}

/// The pairs that a pairing tick makes: front-to-back, two by two.
pub open spec fn pairs_of<S>(q: Seq<Player<S>>) -> Seq<(Player<S>, Player<S>)> {
    Seq::new(q.len() / 2, |i: int| (q[2 * i], q[2 * i + 1]))
}

/// What a pairing tick leaves in the queue: the last player when their number is odd.
pub open spec fn unpaired_of<S>(q: Seq<Player<S>>) -> Seq<Player<S>> {
    q.subrange(2 * (q.len() / 2) as int, q.len() as int)
}

/// How many times `create_game` is tried again after a failure before the
/// pair is put back in the queue.
pub const CREATE_GAME_RETRIES: u32 = 3;

/// What to do with a pair after one attempt to create its game.
#[derive(Debug, Clone, PartialEq, Eq)]
pub enum PairStep {
    /// The game exists: push this `MatchFound` to both players.
    Announce(ClientResponse),
    /// Try `create_game` again.
    Retry,
    /// Give up and put both players back at the tail of the queue.
    Requeue,
}

/// Configuration of the matchmaking service.
#[derive(Debug, Clone)]
pub struct MatchmakingConfig {
    pub socket_address: String,
    pub rest_address: String,
    pub db_url: String,
    pub game_server_url: String,
}

/// The matchmaking queue: a FIFO of players and the set of their ids.
pub struct MatchmakingServiceState<S> {
    queue: Vec<Player<S>>,
    users_in_queue: HashSet<u128>,
}

impl<S> MatchmakingServiceState<S> {
    /// The queued players, front first.
    pub closed spec fn players(&self) -> Seq<Player<S>> {
        self.queue@
    }

    /// The set of queued ids.
    pub closed spec fn members(&self) -> Set<u128> {
        self.users_in_queue@
    }

    /// The set holds exactly the ids of the queue, and none is queued twice.
    pub closed spec fn wf(&self) -> bool {
        &&& queue_wf(self.queue@)
        &&& self.users_in_queue@ == queued_ids(self.queue@).to_set()
    }

    /// An empty queue.
    pub fn new() -> (r: Self)
        ensures
            r.wf(),
            r.players() == Seq::<Player<S>>::empty(),
    {
        let r = MatchmakingServiceState { queue: Vec::new(), users_in_queue: HashSet::new() };
        proof {
            assert(queued_ids(r.queue@).to_set() =~= Set::empty());
        }
        r
    }

    /// The number of queued players.
    pub fn len(&self) -> (r: usize)
        ensures
            r == self.players().len(),
    {
        self.queue.len()
    }

    /// Whether `id` is queued.
    pub fn contains(&self, id: Id) -> (r: bool)
        requires
            self.wf(),
        ensures
            r == is_queued(self.players(), id.0),
    {
        self.users_in_queue.contains(&id.0)
    }

    /// `JoinQueue`: appends the player unless its id is already queued. Returns
    /// whether it was appended, that is whether `JoinedQueue` is owed to it.
    pub fn add_user(&mut self, player: Player<S>) -> (added: bool)
        requires
            old(self).wf(),
        ensures
            final(self).wf(),
            added == !is_queued(old(self).players(), player.id.0),
            final(self).players() == join_queue(old(self).players(), player),
            is_queued(final(self).players(), player.id.0),
    {
        let v = player.id.0;
        proof {
            lemma_join_queue(self.queue@, player);
        }
        if self.users_in_queue.contains(&v) {
            return false;
        }
        let ghost q0 = self.queue@;
        self.queue.push(player);
        self.users_in_queue.insert(v);
        proof {
            assert(queued_ids(self.queue@) =~= queued_ids(q0).push(v));
            queued_ids(q0).lemma_push_to_set_commute(v);
        }
        true
    }

    /// `LeaveQueue`: removes the player with this id from the queue and the set,
    /// if it is there. Returns whether it was there.
    pub fn remove_user(&mut self, id: Id) -> (removed: bool)
        requires
            old(self).wf(),
        ensures
            final(self).wf(),
            removed == is_queued(old(self).players(), id.0),
            final(self).players() == leave_queue(old(self).players(), id),
    {
        let ghost q0 = self.queue@;
        if !self.users_in_queue.contains(&id.0) {
            return false;
        }
        let mut i: usize = 0;
        while i < self.queue.len() && self.queue[i].id.0 != id.0
            invariant
                self.queue@ == q0,
                queue_wf(q0),
                self.users_in_queue@ == queued_ids(q0).to_set(),
                queued_ids(q0).contains(id.0),
                i <= q0.len(),
                forall|j: int| 0 <= j < i ==> q0[j].id.0 != id.0,
            decreases q0.len() - i,
        {
            i = i + 1;
        }
        proof {
            if i == q0.len() {
                let k = choose|k: int| 0 <= k < queued_ids(q0).len() && queued_ids(q0)[k] == id.0;
                assert(q0[k].id.0 == id.0);
            }
        }
        assert(i < q0.len() && q0[i as int].id.0 == id.0);
        proof {
            let p = position_of(q0, id);
            assert(0 <= p < q0.len() && q0[p].id.0 == id.0);
            assert(queued_ids(q0)[p] == queued_ids(q0)[i as int]);
            assert(p == i);
        }
        self.queue.remove(i);
        self.users_in_queue.remove(&id.0);
        proof {
            lemma_leave_queue(q0, id);
            assert(self.queue@ =~= leave_queue(q0, id));
        }
        true
    }

    /// Applies one message from a queue session. Returns whether `JoinedQueue`
    /// is owed to the sender: only for a `JoinQueue` that appended it.
    pub fn handle_message(&mut self, message: MatchmakingRequest<S>) -> (notify: bool)
        requires
            old(self).wf(),
        ensures
            final(self).wf(),
            match message {
                MatchmakingRequest::JoinQueue(p) => {
                    &&& final(self).players() == join_queue(old(self).players(), p)
                    &&& notify == !is_queued(old(self).players(), p.id.0)
                },
                MatchmakingRequest::LeaveQueue(id) => {
                    &&& final(self).players() == leave_queue(old(self).players(), id)
                    &&& !notify
                },
            },
    {
        match message {
            MatchmakingRequest::JoinQueue(p) => self.add_user(p),
            MatchmakingRequest::LeaveQueue(id) => {
                self.remove_user(id);
                false
            },
        }
    }

    /// The pairing tick: takes the players out of the queue two by two, front
    /// to back, and returns the pairs in that order; a last, unpaired player
    /// stays queued. The paired ids leave the set with them.
    pub fn pair_players(&mut self) -> (pairs: Vec<(Player<S>, Player<S>)>)
        requires
            old(self).wf(),
        ensures
            final(self).wf(),
            pairs@ == pairs_of(old(self).players()),
            final(self).players() == unpaired_of(old(self).players()),
    {
        let ghost q0 = self.queue@;
        let mut taken: Vec<Player<S>> = Vec::new();
        std::mem::swap(&mut taken, &mut self.queue);
        let mut holder: Option<Player<S>> = None;
        let mut pairs: Vec<(Player<S>, Player<S>)> = Vec::new();
        for p in it: taken
            invariant
                it.seq() == q0,
                self.queue@ == Seq::<Player<S>>::empty(),
                pairs@ == pairs_of(q0.subrange(0, it.index() as int)),
                it.index() % 2 == 0 ==> holder.is_none(),
                it.index() % 2 == 1 ==> holder == Some(q0[it.index() - 1]),
        {
            let ghost k = it.index();
            match holder {
                None => {
                    holder = Some(p);
                },
                Some(h) => {
                    pairs.push((h, p));
                    holder = None;
                },
            }
            proof {
                assert(pairs@ =~= pairs_of(q0.subrange(0, k + 1)));
            }
        }
        assert(q0.subrange(0, q0.len() as int) == q0);
        let ghost rest = unpaired_of(q0);
        match holder {
            Some(h) => {
                let v = h.id.0;
                self.queue.push(h);
                self.users_in_queue.clear();
                self.users_in_queue.insert(v);
                proof {
                    assert(self.queue@ =~= rest);
                    assert(queued_ids(self.queue@) =~= seq![v]);
                    assert(queued_ids(self.queue@).to_set() =~= Set::empty().insert(v)) by {
                        assert(queued_ids(self.queue@)[0] == v);
                    }
                }
            },
            None => {
                self.users_in_queue.clear();
                proof {
                    assert(self.queue@ =~= rest);
                    assert(queued_ids(self.queue@).to_set() =~= Set::empty());
                }
            },
        }
        pairs
    }
}

/// Decides what follows one `create_game` attempt for a pair, given how many
/// attempts for it had already failed: announce the game on success, try again
/// while fewer than `CREATE_GAME_RETRIES` retries were spent, else requeue.
pub fn after_create_attempt(
    failures_before: u32,
    result: Option<CreateGameResponse>,
    server_address: String,
) -> (step: PairStep)
    ensures
        match result {
            Some(resp) => step == PairStep::Announce(
                ClientResponse::MatchFound { game_id: resp.game_id, server_address },
            ),
            None => if failures_before < CREATE_GAME_RETRIES {
                step == PairStep::Retry
            } else {
                step == PairStep::Requeue
            },
        },
{
    match result {
        Some(resp) => PairStep::Announce(
            ClientResponse::MatchFound { game_id: resp.game_id, server_address },
        ),
        None => if failures_before < CREATE_GAME_RETRIES {
            PairStep::Retry
        } else {
            PairStep::Requeue
        },
    }
}

/// Removing an id from a valid queue leaves a valid queue that no longer holds
/// that id and still holds every other id it held.
pub proof fn lemma_leave_queue<S>(q: Seq<Player<S>>, id: Id)
    requires
        queue_wf(q),
    ensures
        queue_wf(leave_queue(q, id)),
        !is_queued(leave_queue(q, id), id.0),
        queued_ids(leave_queue(q, id)).to_set() == queued_ids(q).to_set().remove(id.0),
        forall|x: u128| x != id.0 ==> is_queued(leave_queue(q, id), x) == is_queued(q, x),
{
    let ids0 = queued_ids(q);
    if !is_queued(q, id.0) {
        assert(ids0.to_set() =~= ids0.to_set().remove(id.0));
        return;
    }
    let k = choose|k: int| 0 <= k < ids0.len() && ids0[k] == id.0;
    assert(q[k].id.0 == id.0);
    let i = position_of(q, id);
    assert(ids0[i] == ids0[k]);
    let ids1 = queued_ids(leave_queue(q, id));
    assert(ids1 =~= ids0.remove(i));
    assert forall|a: int, b: int| 0 <= a < ids1.len() && 0 <= b < ids1.len() && a != b
        implies ids1[a] != ids1[b] by {
        let a0 = if a < i { a } else { a + 1 };
        let b0 = if b < i { b } else { b + 1 };
        assert(ids1[a] == ids0[a0] && ids1[b] == ids0[b0]);
    }
    assert forall|x: u128| ids1.contains(x) <==> (ids0.contains(x) && x != id.0) by {
        if ids1.contains(x) {
            let a = choose|a: int| 0 <= a < ids1.len() && ids1[a] == x;
            let a0 = if a < i { a } else { a + 1 };
            assert(ids0[a0] == x);
            assert(a0 != i);
        }
        if ids0.contains(x) && x != id.0 {
            let a0 = choose|a0: int| 0 <= a0 < ids0.len() && ids0[a0] == x;
            assert(a0 != i);
            let a = if a0 < i { a0 } else { a0 - 1 };
            assert(ids1[a] == x);
        }
    }
    assert(ids1.to_set() =~= ids0.to_set().remove(id.0));
}

/// Joining a valid queue leaves a valid queue that holds the joined id.
pub proof fn lemma_join_queue<S>(q: Seq<Player<S>>, p: Player<S>)
    requires
        queue_wf(q),
    ensures
        queue_wf(join_queue(q, p)),
        is_queued(join_queue(q, p), p.id.0),
        forall|x: u128| x != p.id.0 ==> is_queued(join_queue(q, p), x) == is_queued(q, x),
{
    if !is_queued(q, p.id.0) {
        assert(queued_ids(q.push(p)) =~= queued_ids(q).push(p.id.0));
        assert(queued_ids(q.push(p)).last() == p.id.0);
        assert forall|x: u128| x != p.id.0 implies is_queued(q.push(p), x) == is_queued(q, x) by {
            if is_queued(q, x) {
                let a = choose|a: int| 0 <= a < queued_ids(q).len() && queued_ids(q)[a] == x;
                assert(queued_ids(q.push(p))[a] == x);
            }
            if is_queued(q.push(p), x) {
                let a = choose|a: int| 0 <= a < queued_ids(q.push(p)).len() && queued_ids(q.push(p))[a] == x;
                assert(queued_ids(q)[a] == x);
            }
        }
    }
}

/// In every reachable queue state an id is in the set of queued ids exactly
/// when it appears in the queue, and then it appears there exactly once.
pub proof fn lemma_members_match_queue<S>(s: &MatchmakingServiceState<S>)
    requires
        s.wf(),
    ensures
        forall|v: u128| s.members().contains(v) <==> is_queued(s.players(), v),
        forall|i: int, j: int|
            0 <= i < s.players().len() && 0 <= j < s.players().len() && #[trigger] s.players()[i].id
                == #[trigger] s.players()[j].id ==> i == j,
{
    let ids = queued_ids(s.players());
    assert forall|i: int, j: int|
        0 <= i < s.players().len() && 0 <= j < s.players().len() && #[trigger] s.players()[i].id
            == #[trigger] s.players()[j].id implies i == j by {
        assert(ids[i] == ids[j]);
    }
}

/// A second `JoinQueue` for an id that is already queued changes nothing and
/// is owed no `JoinedQueue`.
pub proof fn lemma_join_idempotent<S>(q: Seq<Player<S>>, p: Player<S>, again: Player<S>)
    requires
        queue_wf(q),
        again.id == p.id,
    ensures
        join_queue(join_queue(q, p), again) == join_queue(q, p),
        is_queued(join_queue(q, p), again.id.0),
{
    lemma_join_queue(q, p);
}

/// A `JoinQueue` and a `LeaveQueue` for one id, applied in either order, leave
/// a valid queue: enqueued when the join came last, not enqueued when the
/// leave came last; other ids keep their membership.
pub proof fn lemma_join_leave_race<S>(q: Seq<Player<S>>, p: Player<S>)
    requires
        queue_wf(q),
    ensures
        queue_wf(leave_queue(join_queue(q, p), p.id)),
        !is_queued(leave_queue(join_queue(q, p), p.id), p.id.0),
        queue_wf(join_queue(leave_queue(q, p.id), p)),
        is_queued(join_queue(leave_queue(q, p.id), p), p.id.0),
        forall|x: u128|
            x != p.id.0 ==> is_queued(leave_queue(join_queue(q, p), p.id), x) == is_queued(q, x)
                && is_queued(join_queue(leave_queue(q, p.id), p), x) == is_queued(q, x),
{
    lemma_join_queue(q, p);
    lemma_leave_queue(join_queue(q, p), p.id);
    lemma_leave_queue(q, p.id);
    lemma_join_queue(leave_queue(q, p.id), p);
}

/// A pairing tick on a queue of zero or one player makes no pair and leaves
/// the queue as it was.
pub proof fn lemma_pairing_small_queue<S>(q: Seq<Player<S>>)
    requires
        q.len() <= 1,
    ensures
        pairs_of(q).len() == 0,
        unpaired_of(q) == q,
{
    assert(unpaired_of(q) =~= q);
}

} // verus!
