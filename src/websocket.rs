use vstd::prelude::*;
use crate::id::Id;
use crate::messages::SocketResponse;

verus! {

/// The policy hooks of a duplex session service.
pub trait WebsocketHandler<RS> {
    /// Whether the session closes once `body` has been sent.
    spec fn closes_after(body: RS) -> bool;

    /// Decides, after a frame with this body was sent, whether to close.
    fn drop_after_send(body: &RS) -> (r: bool)
        ensures
            r == Self::closes_after(*body),
    ;
}

/// What the identify phase sees.
#[derive(Debug, Clone, Copy, PartialEq, Eq, Structural)]
pub enum HandshakeEvent {
    /// A text frame that reads as an identify request for this user.
    Identified(Id),
    /// A frame that is not text, or text that does not read as an identify request.
    Unreadable,
    /// The socket closed.
    Closed,
}

/// What the identify phase does next.
#[derive(Debug, Clone, Copy, PartialEq, Eq, Structural)]
pub enum HandshakeStep {
    /// The user is known: start serving.
    Serve(Id),
    /// Ignore the frame and read the next one.
    Wait,
    /// Give up on the session.
    Abort,
}

/// The identify phase: the first frame that names a user starts the session;
/// unreadable frames are skipped; a close before that ends it.
pub fn identify_step(event: HandshakeEvent) -> (r: HandshakeStep)
    ensures
        r == match event {
            HandshakeEvent::Identified(id) => HandshakeStep::Serve(id),
            HandshakeEvent::Unreadable => HandshakeStep::Wait,
            HandshakeEvent::Closed => HandshakeStep::Abort,
        },
{
    match event {
        HandshakeEvent::Identified(id) => HandshakeStep::Serve(id),
        HandshakeEvent::Unreadable => HandshakeStep::Wait,
        HandshakeEvent::Closed => HandshakeStep::Abort,
    }
}

/// What the serve loop sees.
#[derive(Debug, Clone, PartialEq, Eq)]
pub enum SessionEvent<RS> {
    /// `respond_to_request` answered an inbound request at once with this body.
    Reply(RS),
    /// The push tick drained this body from the session's push sink.
    Pushed(RS),
    /// An inbound request with no immediate answer, or a tick with nothing queued.
    Idle,
    /// An inbound frame that is not text, or does not read as a request.
    BadFrame,
    /// The socket closed.
    Closed,
}

/// What the serve loop does next.
#[derive(Debug, Clone, PartialEq, Eq)]
pub enum SessionAction<RS> {
    /// Send this frame and keep serving.
    Send(SocketResponse<RS>),
    /// Send this frame, then a Normal close, and end the session.
    SendThenClose(SocketResponse<RS>),
    /// Nothing to send.
    Wait,
    /// End the session.
    Terminate,
}

/// The state of one served session.
pub struct Session<RS> {
    /// The identity established by the handshake.
    pub user_id: Id,
    /// Whether the session is still served.
    pub open: bool,
    /// The bodies sent so far, in order.
    pub sent: Ghost<Seq<RS>>,
}

/// The bodies that a run of events carries (replies and pushes), in order.
pub open spec fn bodies_of<RS>(events: Seq<SessionEvent<RS>>) -> Seq<RS>
    decreases events.len(),
{
    if events.len() == 0 {
        Seq::empty()
    } else {
        let rest = bodies_of(events.drop_last());
        match events.last() {
            SessionEvent::Reply(b) => rest.push(b),
            SessionEvent::Pushed(b) => rest.push(b),
            _ => rest,
        }
    }
}

/// One turn of the session model: whether it stays open and what it has
/// sent, after one event. A closed session ignores everything.
pub open spec fn session_next<RS, H: WebsocketHandler<RS>>(open: bool, sent: Seq<RS>, event: SessionEvent<RS>) -> (bool, Seq<RS>) {
    if !open {
        (open, sent)
    } else {
        match event {
            SessionEvent::Reply(b) => (!H::closes_after(b), sent.push(b)),
            SessionEvent::Pushed(b) => (!H::closes_after(b), sent.push(b)),
            SessionEvent::Idle => (true, sent),
            _ => (false, sent),
        }
    }
}

/// The session model after a run of events, starting open with nothing sent.
pub open spec fn run<RS, H: WebsocketHandler<RS>>(events: Seq<SessionEvent<RS>>) -> (bool, Seq<RS>)
    decreases events.len(),
{
    if events.len() == 0 {
        (true, Seq::empty())
    } else {
        let (open, sent) = run::<RS, H>(events.drop_last());
        session_next::<RS, H>(open, sent, events.last())
    }
}

/// The frame for a body: always under the handshake's user id.
pub open spec fn frame_of<RS>(user_id: Id, body: RS) -> SocketResponse<RS> {
    SocketResponse { user_id, body }
}

impl<RS> Session<RS> {
    /// A session for the identified user, with nothing sent yet.
    pub fn new(user_id: Id) -> (r: Self)
        ensures
            r.user_id == user_id,
            r.open,
            r.sent@ == Seq::<RS>::empty(),
    {
        Session { user_id, open: true, sent: Ghost(Seq::empty()) }
    }

    /// Sends one body as a frame under the session's user id, and closes
    /// after it when the service's policy says so.
    fn deliver<H: WebsocketHandler<RS>>(&mut self, body: RS) -> (a: SessionAction<RS>)
        ensures
            final(self).user_id == old(self).user_id,
            final(self).open == !H::closes_after(body),
            final(self).sent@ == old(self).sent@.push(body),
            a == if H::closes_after(body) {
                SessionAction::SendThenClose(frame_of(old(self).user_id, body))
            } else {
                SessionAction::Send(frame_of(old(self).user_id, body))
            },
    {
        let close = H::drop_after_send(&body);
        self.sent = Ghost(self.sent@.push(body));
        self.open = !close;
        let frame = SocketResponse { user_id: self.user_id, body };
        if close {
            SessionAction::SendThenClose(frame)
        } else {
            SessionAction::Send(frame)
        }
    }

    /// One turn of the serve loop. Replies and pushed bodies are sent in the
    /// order they come, each under the handshake's user id; a bad frame or a
    /// closed socket ends the session; a closed session sends nothing more.
    pub fn step<H: WebsocketHandler<RS>>(&mut self, event: SessionEvent<RS>) -> (a: SessionAction<RS>)
        ensures
            final(self).user_id == old(self).user_id,
            (final(self).open, final(self).sent@) == session_next::<RS, H>(old(self).open, old(self).sent@, event),
            a == if !old(self).open {
                SessionAction::Terminate
            } else {
                match event {
                    SessionEvent::Reply(b) => if H::closes_after(b) {
                        SessionAction::SendThenClose(frame_of(old(self).user_id, b))
                    } else {
                        SessionAction::Send(frame_of(old(self).user_id, b))
                    },
                    SessionEvent::Pushed(b) => if H::closes_after(b) {
                        SessionAction::SendThenClose(frame_of(old(self).user_id, b))
                    } else {
                        SessionAction::Send(frame_of(old(self).user_id, b))
                    },
                    SessionEvent::Idle => SessionAction::Wait,
                    _ => SessionAction::Terminate,
                }
            },
    {
        if !self.open {
            return SessionAction::Terminate;
        }
        match event {
            SessionEvent::Reply(b) => self.deliver::<H>(b),
            SessionEvent::Pushed(b) => self.deliver::<H>(b),
            SessionEvent::Idle => SessionAction::Wait,
            _ => {
                self.open = false;
                SessionAction::Terminate
            },
        }
    }
}

/// Per session, the bodies sent are a prefix of the replies and pushes in the
/// order they came: nothing is reordered, dropped in between or invented, and
/// after a close nothing more is sent.
pub proof fn lemma_sent_is_prefix<RS, H: WebsocketHandler<RS>>(events: Seq<SessionEvent<RS>>)
    ensures
        run::<RS, H>(events).1.len() <= bodies_of(events).len(),
        run::<RS, H>(events).1 == bodies_of(events).take(run::<RS, H>(events).1.len() as int),
        run::<RS, H>(events).0 ==> run::<RS, H>(events).1 == bodies_of(events),
    decreases events.len(),
{
    if events.len() > 0 {
        let prev = events.drop_last();
        lemma_sent_is_prefix::<RS, H>(prev);
        let b0 = bodies_of(prev);
        let s0 = run::<RS, H>(prev).1;
        let b1 = bodies_of(events);
        let s1 = run::<RS, H>(events).1;
        assert(b0.take(s0.len() as int) == s0);
        match events.last() {
            SessionEvent::Reply(b) => {
                assert(b1 == b0.push(b));
                assert(b1.take(s0.len() as int) =~= b0.take(s0.len() as int));
                if run::<RS, H>(prev).0 {
                    assert(s1 =~= b1.take(s1.len() as int));
                }
            },
            SessionEvent::Pushed(b) => {
                assert(b1 == b0.push(b));
                assert(b1.take(s0.len() as int) =~= b0.take(s0.len() as int));
                if run::<RS, H>(prev).0 {
                    assert(s1 =~= b1.take(s1.len() as int));
                }
            },
            _ => {},
        }
    }
}

} // verus!
