use vstd::prelude::*;
use vstd::string::StringExecFns;
use crate::envelope::{
    join_notice_view, joined_text, leave_notice_view, left_text, user_message_view, ChatMessage, MessageView,
};
use crate::text::{trim, trimmed};

verus! {

/// Where a connection stands: waiting for its first line (the username),
/// relaying with a fixed username, or finished.
pub enum SessionState {
    AwaitingIdentity,
    Active { username: String },
    Terminated,
}

/// The mathematical value of a `SessionState`.
pub enum Phase {
    AwaitingIdentity,
    Active(Seq<char>),
    Terminated,
}

impl View for SessionState {
    type V = Phase;

    open spec fn view(&self) -> Phase {
        match self {
            SessionState::AwaitingIdentity => Phase::AwaitingIdentity,
            SessionState::Active { username } => Phase::Active(username@),
            SessionState::Terminated => Phase::Terminated,
        }
    }
}

/// What happened on one of the two sources a session waits on.
pub enum SessionEvent {
    /// A line arrived from the client (one or more bytes were read).
    LineRead(String),
    /// The client's socket reached end of stream, failed to read, or failed
    /// to be written.
    Disconnected,
    /// The hub delivered one serialised envelope.
    Delivered(String),
    /// The hub reported that this subscriber missed some envelopes.
    Lagged,
}

pub enum EventView {
    LineRead(Seq<char>),
    Disconnected,
    Delivered(Seq<char>),
    Lagged,
}

impl View for SessionEvent {
    type V = EventView;

    open spec fn view(&self) -> EventView {
        match self {
            SessionEvent::LineRead(l) => EventView::LineRead(l@),
            SessionEvent::Disconnected => EventView::Disconnected,
            SessionEvent::Delivered(r) => EventView::Delivered(r@),
            SessionEvent::Lagged => EventView::Lagged,
        }
    }
}

/// What the session asks its driver to do.
pub enum SessionAction {
    /// Publish the envelope to every subscriber of the hub.
    Publish(ChatMessage),
    /// Write these characters to the client's socket.
    Write(String),
}

pub enum ActionView {
    Publish(MessageView),
    Write(Seq<char>),
}

impl View for SessionAction {
    type V = ActionView;

    open spec fn view(&self) -> ActionView {
        match self {
            SessionAction::Publish(m) => ActionView::Publish(m@),
            SessionAction::Write(s) => ActionView::Write(s@),
        }
    }
}

pub open spec fn actions_view(a: Seq<SessionAction>) -> Seq<ActionView> {
    a.map_values(|x: SessionAction| x@)
}

/// One transition: the next phase, and the actions taken on the way, for an
/// event observed at time `stamp`.
pub open spec fn step_spec(p: Phase, e: EventView, stamp: Seq<char>) -> (Phase, Seq<ActionView>) {
    match p {
        Phase::AwaitingIdentity => match e {
            EventView::LineRead(l) => (
                Phase::Active(trimmed(l)),
                seq![ActionView::Publish(join_notice_view(trimmed(l), stamp))],
            ),
            EventView::Disconnected => (Phase::Terminated, Seq::empty()),
            _ => (Phase::AwaitingIdentity, Seq::empty()),
        },
        Phase::Active(u) => match e {
            EventView::LineRead(l) => (
                Phase::Active(u),
                seq![ActionView::Publish(user_message_view(u, trimmed(l), stamp))],
            ),
            EventView::Disconnected => (
                Phase::Terminated,
                seq![ActionView::Publish(leave_notice_view(u, stamp))],
            ),
            EventView::Delivered(r) => (Phase::Active(u), seq![ActionView::Write(r + "\n"@)]),
            EventView::Lagged => (Phase::Active(u), Seq::empty()),
        },
        Phase::Terminated => (Phase::Terminated, Seq::empty()),
    }
}

/// The phase reached, and every action taken, over a sequence of events,
/// each paired with the time at which it was observed.
pub open spec fn run_spec(p: Phase, evs: Seq<(EventView, Seq<char>)>) -> (Phase, Seq<ActionView>)
    decreases evs.len(),
{
    if evs.len() == 0 {
        (p, Seq::empty())
    } else {
        let first = step_spec(p, evs[0].0, evs[0].1);
        let rest = run_spec(first.0, evs.drop_first());
        (rest.0, first.1 + rest.1)
    }
}


/// `acts[i]`, taken by a session relaying as `u`, is placed as the rules
/// require: it publishes as `u`, is no second join notice, and a leave notice
/// comes last.
pub open spec fn well_placed(u: Seq<char>, acts: Seq<ActionView>, i: int) -> bool {
    match acts[i] {
        ActionView::Publish(m) => {
            &&& m.username == u
            &&& !m.is_join_notice()
            &&& m.is_leave_notice() ==> i == acts.len() - 1
        },
        ActionView::Write(_) => true,
    }
}

pub open spec fn relays_as(u: Seq<char>, acts: Seq<ActionView>) -> bool {
    forall|i: int| 0 <= i < acts.len() ==> #[trigger] well_placed(u, acts, i)
}

pub open spec fn is_leave_of(a: ActionView, u: Seq<char>) -> bool {
    a matches ActionView::Publish(m) && m.is_leave_notice() && m.username == u
}

/// The lines written back to the client, in order.
pub open spec fn writes_of(acts: Seq<ActionView>) -> Seq<Seq<char>>
    decreases acts.len(),
{
    if acts.len() == 0 {
        Seq::empty()
    } else {
        let here = match acts[0] {
            ActionView::Write(s) => seq![s],
            ActionView::Publish(_) => Seq::empty(),
        };
        here + writes_of(acts.drop_first())
    }
}

/// The records delivered by the hub before the client disconnects, each
/// followed by a line terminator.
pub open spec fn deliveries(evs: Seq<(EventView, Seq<char>)>) -> Seq<Seq<char>>
    decreases evs.len(),
{
    if evs.len() == 0 {
        Seq::empty()
    } else {
        match evs[0].0 {
            EventView::Disconnected => Seq::empty(),
            EventView::Delivered(r) => seq![r + "\n"@] + deliveries(evs.drop_first()),
            _ => deliveries(evs.drop_first()),
        }
    }
}

proof fn lemma_notices_differ()
    ensures
        joined_text() != left_text(),
{
    reveal_strlit("joined the chat");
    reveal_strlit("left the chat");
    assert(joined_text().len() != left_text().len());
}

/// A finished session does nothing more, whatever happens.
pub proof fn lemma_terminated_is_silent(evs: Seq<(EventView, Seq<char>)>)
    ensures
        run_spec(Phase::Terminated, evs) == (Phase::Terminated, Seq::<ActionView>::empty()),
    decreases evs.len(),
{
    if evs.len() > 0 {
        lemma_terminated_is_silent(evs.drop_first());
        assert(run_spec(Phase::Terminated, evs).1 =~= Seq::<ActionView>::empty());
    }
}

/// A session relaying as `u` publishes only as `u` and never joins again; it
/// publishes at most one leave notice, as its very last action; and once the
/// client disconnects it has published exactly that one leave notice and is
/// finished.
pub proof fn lemma_leave_is_final(u: Seq<char>, evs: Seq<(EventView, Seq<char>)>)
    ensures
        relays_as(u, run_spec(Phase::Active(u), evs).1),
        (exists|j: int| 0 <= j < evs.len() && #[trigger] evs[j].0 is Disconnected) ==> {
            let r = run_spec(Phase::Active(u), evs);
            &&& r.1.len() > 0
            &&& is_leave_of(r.1.last(), u)
            &&& r.0 == Phase::Terminated
        },
    decreases evs.len(),
{
    lemma_notices_differ();
    if evs.len() > 0 {
        let first = step_spec(Phase::Active(u), evs[0].0, evs[0].1);
        let tail = evs.drop_first();
        let acts = run_spec(Phase::Active(u), evs).1;
        if evs[0].0 is Disconnected {
            lemma_terminated_is_silent(tail);
            assert(acts =~= first.1);
            assert(well_placed(u, acts, 0));
        } else {
            lemma_leave_is_final(u, tail);
            let rest = run_spec(Phase::Active(u), tail).1;
            assert(first.0 == Phase::Active(u));
            assert(acts == first.1 + rest);
            assert forall|i: int| 0 <= i < acts.len() implies #[trigger] well_placed(u, acts, i) by {
                if i >= first.1.len() {
                    assert(well_placed(u, rest, i - first.1.len()));
                    assert(acts[i] == rest[i - first.1.len()]);
                }
            }
            if exists|j: int| 0 <= j < evs.len() && #[trigger] evs[j].0 is Disconnected {
                let j = choose|j: int| 0 <= j < evs.len() && #[trigger] evs[j].0 is Disconnected;
                assert(j > 0);
                assert(tail[j - 1].0 is Disconnected);
                assert(acts.last() == rest.last());
            }
        }
    }
}

/// A new session's first action, if any, is the join notice of its user;
/// everything after it is published under that same name, with no second
/// join notice and a leave notice only as the last action.
pub proof fn lemma_join_comes_first(evs: Seq<(EventView, Seq<char>)>)
    ensures
        ({
            let acts = run_spec(Phase::AwaitingIdentity, evs).1;
            acts.len() > 0 ==> {
                &&& acts[0] is Publish
                &&& acts[0]->Publish_0.is_join_notice()
                &&& relays_as(acts[0]->Publish_0.username, acts.drop_first())
            }
        }),
    decreases evs.len(),
{
    if evs.len() > 0 {
        let tail = evs.drop_first();
        let acts = run_spec(Phase::AwaitingIdentity, evs).1;
        match evs[0].0 {
            EventView::LineRead(l) => {
                let u = trimmed(l);
                lemma_leave_is_final(u, tail);
                assert(acts.drop_first() =~= run_spec(Phase::Active(u), tail).1);
            },
            EventView::Disconnected => {
                lemma_terminated_is_silent(tail);
            },
            _ => {
                lemma_join_comes_first(tail);
                assert(acts =~= run_spec(Phase::AwaitingIdentity, tail).1);
            },
        }
    }
}

proof fn lemma_writes_of_prefix(a: Seq<ActionView>, b: Seq<ActionView>)
    requires
        a.len() <= 1,
    ensures
        writes_of(a + b) == writes_of(a) + writes_of(b),
{
    if a.len() == 0 {
        assert(a + b =~= b);
        assert(writes_of(a) + writes_of(b) =~= writes_of(b));
    } else {
        assert((a + b).drop_first() =~= b);
        assert(a.drop_first() =~= Seq::<ActionView>::empty());
        assert(writes_of(a.drop_first()) == Seq::<Seq<char>>::empty());
        let here = match a[0] {
            ActionView::Write(s) => seq![s],
            ActionView::Publish(_) => Seq::<Seq<char>>::empty(),
        };
        assert(writes_of(a) =~= here);
    }
}

/// A session relaying as `u` writes back to its client exactly the records
/// the hub delivered before the client disconnected, each on its own line,
/// in the order of delivery.
pub proof fn lemma_deliveries_written_in_order(u: Seq<char>, evs: Seq<(EventView, Seq<char>)>)
    ensures
        writes_of(run_spec(Phase::Active(u), evs).1) == deliveries(evs),
    decreases evs.len(),
{
    if evs.len() > 0 {
        let first = step_spec(Phase::Active(u), evs[0].0, evs[0].1);
        let tail = evs.drop_first();
        let rest = run_spec(first.0, tail);
        lemma_writes_of_prefix(first.1, rest.1);
        if evs[0].0 is Disconnected {
            lemma_terminated_is_silent(tail);
            assert(writes_of(rest.1) == Seq::<Seq<char>>::empty());
            assert(first.1.drop_first() =~= Seq::<ActionView>::empty());
            assert(writes_of(first.1) =~= Seq::<Seq<char>>::empty());
        } else {
            lemma_deliveries_written_in_order(u, tail);
            if first.1.len() == 1 {
                assert(first.1.drop_first() =~= Seq::<ActionView>::empty());
                assert(writes_of(first.1.drop_first()) == Seq::<Seq<char>>::empty());
            }
            match evs[0].0 {
                EventView::Delivered(r) => {
                    assert(writes_of(first.1) =~= seq![r + "\n"@]);
                },
                EventView::LineRead(l) => {
                    assert(writes_of(first.1) =~= Seq::<Seq<char>>::empty());
                },
                _ => {
                    assert(writes_of(first.1) =~= Seq::<Seq<char>>::empty());
                },
            }
            assert(writes_of(first.1) + deliveries(tail) =~= deliveries(evs));
        }
    }
}

impl SessionState {
    /// A freshly accepted connection.
    pub fn new() -> (r: SessionState)
        ensures
            r@ == Phase::AwaitingIdentity,
    {
        SessionState::AwaitingIdentity
    }

    pub fn is_terminated(&self) -> (r: bool)
        ensures
            r == (self@ is Terminated),
    {
        match self {
            SessionState::Terminated => true,
            _ => false,
        }
    }

    /// Takes one event, observed at time `stamp`, and returns the actions the
    /// driver must perform, in order.
    pub fn handle(&mut self, event: SessionEvent, stamp: &str) -> (actions: Vec<SessionAction>)
        ensures
            (final(self)@, actions_view(actions@)) == step_spec(old(self)@, event@, stamp@),
            actions@.len() == step_spec(old(self)@, event@, stamp@).1.len(),
    {
        let mut actions: Vec<SessionAction> = Vec::new();
        let mut cur = SessionState::Terminated;
        core::mem::swap(self, &mut cur);
        match cur {
            SessionState::AwaitingIdentity => match event {
                SessionEvent::LineRead(line) => {
                    let username = trim(line.as_str());
                    actions.push(
                        SessionAction::Publish(ChatMessage::join_notice(username.as_str(), stamp)),
                    );
                    *self = SessionState::Active { username };
                },
                SessionEvent::Disconnected => {},
                _ => {
                    *self = SessionState::AwaitingIdentity;
                },
            },
            SessionState::Active { username } => match event {
                SessionEvent::LineRead(line) => {
                    let content = trim(line.as_str());
                    actions.push(
                        SessionAction::Publish(
                            ChatMessage::user_message(username.as_str(), content.as_str(), stamp),
                        ),
                    );
                    *self = SessionState::Active { username };
                },
                SessionEvent::Disconnected => {
                    actions.push(
                        SessionAction::Publish(ChatMessage::leave_notice(username.as_str(), stamp)),
                    );
                },
                SessionEvent::Delivered(record) => {
                    let mut out = record;
                    out.append("\n");
                    actions.push(SessionAction::Write(out));
                    *self = SessionState::Active { username };
                },
                SessionEvent::Lagged => {
                    *self = SessionState::Active { username };
                },
            },
            SessionState::Terminated => {},
        }
        proof {
            assert(actions_view(actions@) =~= step_spec(old(self)@, event@, stamp@).1);
        }
        actions
    }
}

} // verus!
