//! One relay session: the subscribe → collect → unsubscribe protocol against
//! a single endpoint.
//!
//! The network I/O itself (sending the subscribe and close requests,
//! awaiting notifications, enforcing the deadline) lives outside this crate;
//! here stands everything the protocol decides.  A [`RelaySession`] holds the
//! state of one open subscription, [`RelaySession::absorb`] is the decision
//! taken on each inbound notification, and [`RelaySession::close`] retires
//! the subscription, handing back the close request that must go to the
//! endpoint.  The driver feeds notifications in, in arrival order, until
//! [`RelaySession::absorb`] says to stop or the deadline expires, then closes
//! and takes the outcome.
//!
//! The same transitions are mirrored by the spec function [`apply_op`], over
//! which [`lemma_close_exactly_once`] states the lifecycle law: any valid
//! sequence of operations that leaves a fresh session closed contains
//! exactly one close, on every exit path.

use vstd::prelude::*;

verus! {

/// The structured-event category under which the broker publishes its order
/// listings.
pub const ORDER_LISTING_CATEGORY: u16 = 30000;

/// What one discovery subscription asks an endpoint for: events published
/// under `publisher`'s identity (given in its hexadecimal wire form), in one
/// structured-event category.
#[derive(Clone, Debug)]
pub struct FilterDescription {
    pub publisher: String,
    pub category: u16,
}

/// The filter description of a discovery run: publisher identity equality,
/// in the order-listing category.
pub fn order_filter(publisher: String) -> (f: FilterDescription)
    ensures
        f.publisher == publisher,
        f.category == ORDER_LISTING_CATEGORY,
{
    FilterDescription { publisher, category: ORDER_LISTING_CATEGORY }
}

/// The begin-subscription request of one session: the correlation id and the
/// filter description it binds.
#[derive(Clone, Debug)]
pub struct SubscribeRequest {
    pub sub_id: u128,
    pub filter: FilterDescription,
}

/// An inbound notification from a relay connection, as the protocol sees it:
/// which subscription it belongs to, and whether it delivers an event,
/// signals the end of stored events, or is anything else.
#[derive(Debug)]
pub enum RelayNotification {
    /// An event payload delivered under subscription `sub_id`.
    EventDelivered { sub_id: u128, payload: String },
    /// The endpoint has delivered every stored event matching `sub_id`:
    /// the normal successful termination of a collection.
    EndOfStored { sub_id: u128 },
    /// Any other notification kind; always ignored.
    Other,
}

/// Ghost image of a [`RelayNotification`].
pub enum NoteView {
    EventDelivered { sub_id: u128, payload: Seq<char> },
    EndOfStored { sub_id: u128 },
    Other,
}

impl DeepView for RelayNotification {
    type V = NoteView;

    open spec fn deep_view(&self) -> NoteView {
        self.view()
    }
}

impl View for RelayNotification {
    type V = NoteView;

    open spec fn view(&self) -> NoteView {
        match self {
            RelayNotification::EventDelivered { sub_id, payload } => NoteView::EventDelivered {
                sub_id: *sub_id,
                payload: payload@,
            },
            RelayNotification::EndOfStored { sub_id } => NoteView::EndOfStored { sub_id: *sub_id },
            RelayNotification::Other => NoteView::Other,
        }
    }
}

/// Ghost state of one relay session.
pub struct SessionView {
    pub sub_id: u128,
    pub events: Seq<Seq<char>>,
    pub finished: bool,
    pub closed: bool,
}

/// An operation on a session, for stating lifecycle laws.
pub enum SessionOp {
    Absorb(NoteView),
    Close,
}

/// The session state freshly opened under correlation id `sub_id`.
pub open spec fn fresh_session(sub_id: u128) -> SessionView {
    SessionView { sub_id, events: Seq::empty(), finished: false, closed: false }
}

/// May `op` be applied in state `s`?  Notifications are only absorbed while
/// the collection is still running, and a session is closed at most once.
pub open spec fn op_enabled(s: SessionView, op: SessionOp) -> bool {
    match op {
        SessionOp::Absorb(_) => !s.finished && !s.closed,
        SessionOp::Close => !s.closed,
    }
}

/// The transition relation of a session, one operation at a time.
///
/// An event delivered under this session's correlation id is appended; the
/// end-of-stored-events marker for this id finishes the collection; a
/// notification for any other subscription, and any other notification kind,
/// leaves the state unchanged.
pub open spec fn apply_op(s: SessionView, op: SessionOp) -> SessionView {
    match op {
        SessionOp::Absorb(n) => match n {
            NoteView::EventDelivered { sub_id, payload } => if sub_id == s.sub_id {
                SessionView { events: s.events.push(payload), ..s }
            } else {
                s
            },
            NoteView::EndOfStored { sub_id } => if sub_id == s.sub_id {
                SessionView { finished: true, ..s }
            } else {
                s
            },
            NoteView::Other => s,
        },
        SessionOp::Close => SessionView { closed: true, ..s },
    }
}

/// Fold [`apply_op`] over a sequence of operations.
pub open spec fn run_ops(s: SessionView, ops: Seq<SessionOp>) -> SessionView
    decreases ops.len(),
{
    if ops.len() == 0 {
        s
    } else {
        run_ops(apply_op(s, ops[0]), ops.drop_first())
    }
}

/// Each operation of `ops` is enabled in the state it is applied to.
pub open spec fn valid_run(s: SessionView, ops: Seq<SessionOp>) -> bool
    decreases ops.len(),
{
    if ops.len() == 0 {
        true
    } else {
        op_enabled(s, ops[0]) && valid_run(apply_op(s, ops[0]), ops.drop_first())
    }
}

/// How many close operations `ops` contains.
pub open spec fn close_count(ops: Seq<SessionOp>) -> int
    decreases ops.len(),
{
    if ops.len() == 0 {
        0int
    } else {
        (if ops[0] is Close {
            1int
        } else {
            0int
        }) + close_count(ops.drop_first())
    }
}

proof fn lemma_close_count_general(s: SessionView, ops: Seq<SessionOp>)
    requires
        valid_run(s, ops),
    ensures
        !s.closed && run_ops(s, ops).closed ==> close_count(ops) == 1,
        !s.closed && !run_ops(s, ops).closed ==> close_count(ops) == 0,
        s.closed ==> close_count(ops) == 0 && run_ops(s, ops).closed,
    decreases ops.len(),
{
    if ops.len() > 0 {
        lemma_close_count_general(apply_op(s, ops[0]), ops.drop_first());
    }
}

/// Subscription lifecycle law: a valid sequence of operations that takes a
/// freshly opened session to a closed state — whether the collection
/// finished normally, was abandoned on timeout, or absorbed nothing at all —
/// issues the close exactly once.
pub proof fn lemma_close_exactly_once(sub_id: u128, ops: Seq<SessionOp>)
    requires
        valid_run(fresh_session(sub_id), ops),
        run_ops(fresh_session(sub_id), ops).closed,
    ensures
        close_count(ops) == 1,
{
    lemma_close_count_general(fresh_session(sub_id), ops);
}

/// The payloads a session under `sub_id` collects from `notes`: every event
/// delivered under `sub_id` before the first end-of-stored-events marker for
/// `sub_id`, in arrival order.
pub open spec fn collected(sub_id: u128, notes: Seq<NoteView>) -> Seq<Seq<char>>
    decreases notes.len(),
{
    if notes.len() == 0 {
        Seq::empty()
    } else {
        match notes[0] {
            NoteView::EventDelivered { sub_id: n, payload } => if n == sub_id {
                seq![payload] + collected(sub_id, notes.drop_first())
            } else {
                collected(sub_id, notes.drop_first())
            },
            NoteView::EndOfStored { sub_id: n } => if n == sub_id {
                Seq::empty()
            } else {
                collected(sub_id, notes.drop_first())
            },
            NoteView::Other => collected(sub_id, notes.drop_first()),
        }
    }
}

/// How one relay session ended, as the discovery coordinator sees it.
#[derive(Debug)]
pub enum SessionOutcome {
    /// The collection ran to its end; the batch may be empty.
    Collected(Vec<String>),
    /// No terminal notification arrived within the deadline; whatever had
    /// accumulated is discarded.
    TimedOut,
    /// The endpoint could not be reached or the connection failed.
    TransportFailed,
}

/// The close request for one subscription, to be sent to its endpoint so it
/// stops pushing further events.
#[derive(Debug, PartialEq, Eq, Structural)]
pub struct CloseRequest {
    pub sub_id: u128,
}

/// The state of one open subscription against a single endpoint.
#[derive(Debug)]
pub struct RelaySession {
    /// Correlation id binding this session's request stream.
    pub sub_id: u128,
    /// Event payloads collected so far, in arrival order.
    pub events: Vec<String>,
    /// Whether the end-of-stored-events marker for `sub_id` has arrived.
    pub finished: bool,
    /// Whether the close request has been handed out.
    pub closed: bool,
}

impl View for RelaySession {
    type V = SessionView;

    open spec fn view(&self) -> SessionView {
        SessionView {
            sub_id: self.sub_id,
            events: self.events.deep_view(),
            finished: self.finished,
            closed: self.closed,
        }
    }
}

impl RelaySession {
    /// Open a session under the given correlation id.
    pub fn open(sub_id: u128) -> (s: Self)
        ensures
            s@ == fresh_session(sub_id),
    {
        let s = RelaySession { sub_id, events: Vec::new(), finished: false, closed: false };
        proof {
            assert(s@.events =~= fresh_session(sub_id).events);
            assert(s@ =~= fresh_session(sub_id));
        }
        s
    }

    /// The begin-subscription request for this session: it carries the
    /// session's own correlation id and the given filter description.
    pub fn subscribe_request(&self, filter: FilterDescription) -> (r: SubscribeRequest)
        ensures
            r.sub_id == self@.sub_id,
            r.filter == filter,
    {
        SubscribeRequest { sub_id: self.sub_id, filter }
    }

    /// Take the decision on one inbound notification, per the transition
    /// relation [`apply_op`].  Returns whether the collection is finished
    /// and the driver should stop waiting for further notifications.
    pub fn absorb(&mut self, note: RelayNotification) -> (stop: bool)
        requires
            !old(self)@.finished,
            !old(self)@.closed,
        ensures
            final(self)@ == apply_op(old(self)@, SessionOp::Absorb(note@)),
            stop == final(self)@.finished,
    {
        match note {
            RelayNotification::EventDelivered { sub_id, payload } => {
                if sub_id == self.sub_id {
                    self.events.push(payload);
                    proof {
                        assert(self@.events =~= old(self)@.events.push(payload@));
                        assert(self@ =~= apply_op(old(self)@, SessionOp::Absorb(note@)));
                    }
                    false
                } else {
                    proof {
                        assert(self@ =~= apply_op(old(self)@, SessionOp::Absorb(note@)));
                    }
                    false
                }
            },
            RelayNotification::EndOfStored { sub_id } => {
                if sub_id == self.sub_id {
                    self.finished = true;
                    proof {
                        assert(self@ =~= apply_op(old(self)@, SessionOp::Absorb(note@)));
                    }
                    true
                } else {
                    proof {
                        assert(self@ =~= apply_op(old(self)@, SessionOp::Absorb(note@)));
                    }
                    false
                }
            },
            RelayNotification::Other => {
                proof {
                    assert(self@ =~= apply_op(old(self)@, SessionOp::Absorb(note@)));
                }
                false
            },
        }
    }

    /// Retire the subscription: mark the session closed and hand back the
    /// close request for its correlation id.  A session is closed exactly
    /// once; the caller must send the request on every exit path, timeout
    /// included.
    pub fn close(&mut self) -> (req: CloseRequest)
        requires
            !old(self)@.closed,
        ensures
            final(self)@ == apply_op(old(self)@, SessionOp::Close),
            req.sub_id == old(self)@.sub_id,
    {
        self.closed = true;
        proof {
            assert(self@ =~= apply_op(old(self)@, SessionOp::Close));
        }
        CloseRequest { sub_id: self.sub_id }
    }

    /// Give up the closed session for its outcome.  On timeout the partial
    /// batch is discarded; otherwise the collected payloads are handed out.
    pub fn into_outcome(self, timed_out: bool) -> (r: SessionOutcome)
        requires
            self@.closed,
        ensures
            timed_out ==> r is TimedOut,
            !timed_out ==> (r matches SessionOutcome::Collected(evs) && evs.deep_view()
                == self@.events),
    {
        if timed_out {
            SessionOutcome::TimedOut
        } else {
            SessionOutcome::Collected(self.events)
        }
    }
}

/// Relies on `uuid::Uuid::new_v4` (and `as_u128`, which repacks the bytes):
/// a randomly generated 128-bit correlation id.  Nothing is assumed of the
/// value; collision with a concurrently open subscription is negligible but
/// not impossible, so no contract claims freshness.
#[verifier::external_body]
fn fresh_correlation_id() -> u128 {
    uuid::Uuid::new_v4().as_u128()
}

/// Open a session under a freshly generated random correlation id.
pub fn open_fresh_session() -> (s: RelaySession)
    ensures
        s@ == fresh_session(s@.sub_id),
{
    RelaySession::open(fresh_correlation_id())
}

/// Run one whole session over the notifications that arrived before the
/// deadline: open under `sub_id`, absorb each notification in arrival order
/// until the end-of-stored-events marker for `sub_id`, close, and take the
/// outcome.
///
/// The close request is part of the result on every path — success, timeout,
/// or a stream that ended without a terminal marker — so a caller that sends
/// `r.1` unsubscribes exactly once however the collection went.
pub fn collect_session(sub_id: u128, notes: Vec<RelayNotification>, timed_out: bool) -> (r: (
    SessionOutcome,
    CloseRequest,
))
    ensures
        r.1.sub_id == sub_id,
        timed_out ==> r.0 is TimedOut,
        !timed_out ==> (r.0 matches SessionOutcome::Collected(evs) && evs.deep_view() == collected(
            sub_id,
            notes.deep_view(),
        )),
{
    let ghost all = notes.deep_view();
    let mut s = RelaySession::open(sub_id);
    let mut rem = notes;
    let mut stop = false;
    while !stop && rem.len() > 0
        invariant
            s@.sub_id == sub_id,
            !s@.closed,
            stop == s@.finished,
            !stop ==> collected(sub_id, all) == s@.events + collected(sub_id, rem.deep_view()),
            stop ==> collected(sub_id, all) == s@.events,
        decreases rem.len(),
    {
        proof {
            assert(rem.deep_view().len() == rem@.len());
            assert(rem.deep_view()[0] == rem@[0]@);
        }
        let ghost before = rem.deep_view();
        let n = rem.remove(0);
        proof {
            assert(rem.deep_view() =~= before.drop_first());
        }
        stop = s.absorb(n);
        proof {
            if !stop {
                assert(collected(sub_id, all) =~= s@.events + collected(sub_id, rem.deep_view()));
            }
        }
    }
    proof {
        if !stop {
            assert(rem.deep_view().len() == rem@.len());
            assert(collected(sub_id, rem.deep_view()) =~= Seq::<Seq<char>>::empty());
            assert(collected(sub_id, all) =~= s@.events);
        }
    }
    let req = s.close();
    let outcome = s.into_outcome(timed_out);
    (outcome, req)
}

} // verus!
