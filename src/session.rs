//! The connection session: one client's lifecycle, as a state machine from
//! phase and event to next phase and the actions to perform.
//!
//! A session shakes hands (probe, first read, greeting), then runs two tasks:
//! the inbound task reads the client's frames, the outbound task forwards the
//! pool's events to the client. Whichever task ends first has the other
//! cancelled; once both have stopped, the session announces the client's
//! departure. The driver performs the actions and reports the events.
use vstd::prelude::*;
use crate::codec::{decode, decoded, Body, BodyView, ChatEvent, EventView};
use crate::identity::ClientAddr;

verus! {

#[derive(Clone, Copy, Debug, PartialEq, Eq, Structural)]
pub enum Phase {
    /// The liveness probe is being sent.
    Probing,
    /// The probe went out; the first inbound read is awaited.
    AwaitingReply,
    /// The initial input box is being sent.
    Greeting,
    /// Both tasks run.
    Active,
    /// One task has ended and the other is being cancelled.
    Closing,
    /// Nothing more happens.
    Closed,
}

/// One of the two tasks of an active session.
#[derive(Clone, Copy, Debug, PartialEq, Eq, Structural)]
pub enum Task {
    Inbound,
    Outbound,
}

/// A frame read from the client.
#[derive(Clone, Debug, PartialEq, Eq)]
pub enum Frame {
    Text(String),
    Close,
    /// Binary and control frames.
    Other,
}

/// What the outbound task's subscription yielded.
#[derive(Clone, Debug, PartialEq, Eq)]
pub enum Delivery {
    Event(ChatEvent),
    /// The subscription fell behind and lost this many events.
    Lagged(u64),
    Closed,
}

/// What happened to the session.
#[derive(Clone, Debug, PartialEq, Eq)]
pub enum SessionEvent {
    /// The probe was sent (`true`) or its sending failed (`false`).
    ProbeSent(bool),
    /// The first inbound read ended without error (`true`) or with one.
    FirstRead(bool),
    /// The initial input box was sent (`true`) or its sending failed.
    GreetingSent(bool),
    /// The inbound task read a frame.
    Inbound(Frame),
    /// The inbound stream ended or failed.
    InboundEnded,
    /// The outbound task's subscription yielded.
    Delivery(Delivery),
    /// A write to the client failed.
    WriteFailed,
    /// Both tasks have stopped.
    Stopped,
}

/// What the driver is to do.
#[derive(Clone, Debug, PartialEq, Eq)]
pub enum SessionAction {
    /// Send this client, and no other, its input box.
    SendInputBox,
    /// Subscribe to the pool and start the inbound and outbound tasks.
    StartTasks,
    /// Publish an event to the pool.
    Publish(ChatEvent),
    /// Write an event to this client.
    Forward(ChatEvent),
    /// End a task: the one that reported returns, its sibling is aborted.
    Cancel(Task),
}

/// The mathematical value of a `SessionAction`.
pub enum ActionView {
    SendInputBox,
    StartTasks,
    Publish(EventView),
    Forward(EventView),
    Cancel(Task),
}

impl View for SessionAction {
    type V = ActionView;

    open spec fn view(&self) -> ActionView {
        match self {
            SessionAction::SendInputBox => ActionView::SendInputBox,
            SessionAction::StartTasks => ActionView::StartTasks,
            SessionAction::Publish(e) => ActionView::Publish(e@),
            SessionAction::Forward(e) => ActionView::Forward(e@),
            SessionAction::Cancel(t) => ActionView::Cancel(*t),
        }
    }
}

pub open spec fn views(acts: Seq<SessionAction>) -> Seq<ActionView> {
    acts.map_values(|a: SessionAction| a@)
}

pub open spec fn lifecycle(addr: ClientAddr, body: BodyView) -> ActionView {
    ActionView::Publish(EventView { sender: addr, body })
}

/// Whether an event ends the inbound task.
pub open spec fn ends_inbound(ev: SessionEvent) -> bool {
    ev is InboundEnded || ev == SessionEvent::Inbound(Frame::Close)
}

/// Whether an event ends the outbound task.
pub open spec fn ends_outbound(ev: SessionEvent) -> bool {
    ev is WriteFailed || ev == SessionEvent::Delivery(Delivery::Closed)
}

/// The next phase of a session of `addr` in phase `p` on event `ev`, and the
/// actions to perform, in order. Events that do not belong to the phase
/// change nothing.
pub open spec fn transition(addr: ClientAddr, p: Phase, ev: SessionEvent) -> (
    Phase,
    Seq<ActionView>,
) {
    match p {
        Phase::Probing => match ev {
            SessionEvent::ProbeSent(ok) => if ok {
                (Phase::AwaitingReply, seq![])
            } else {
                (Phase::Closed, seq![])
            },
            _ => (p, seq![]),
        },
        Phase::AwaitingReply => match ev {
            SessionEvent::FirstRead(ok) => if ok {
                (Phase::Greeting, seq![ActionView::SendInputBox])
            } else {
                (Phase::Closed, seq![])
            },
            _ => (p, seq![]),
        },
        Phase::Greeting => match ev {
            SessionEvent::GreetingSent(ok) => if ok {
                (
                    Phase::Active,
                    seq![ActionView::StartTasks, lifecycle(addr, BodyView::Joined)],
                )
            } else {
                (Phase::Closed, seq![])
            },
            _ => (p, seq![]),
        },
        Phase::Active => if ends_inbound(ev) {
            (Phase::Closing, seq![ActionView::Cancel(Task::Outbound)])
        } else if ends_outbound(ev) {
            (Phase::Closing, seq![ActionView::Cancel(Task::Inbound)])
        } else {
            match ev {
                SessionEvent::Inbound(Frame::Text(t)) => match decoded(t@) {
                    Some(m) => (
                        Phase::Active,
                        seq![lifecycle(addr, BodyView::Text(m)), ActionView::SendInputBox],
                    ),
                    None => (Phase::Active, seq![]),
                },
                SessionEvent::Delivery(Delivery::Event(e)) => (
                    Phase::Active,
                    seq![ActionView::Forward(e@)],
                ),
                _ => (Phase::Active, seq![]),
            }
        },
        Phase::Closing => match ev {
            SessionEvent::Stopped => (Phase::Closed, seq![lifecycle(addr, BodyView::Left)]),
            _ => (p, seq![]),
        },
        Phase::Closed => (p, seq![]),
    }
}

/// The phase after a sequence of events, and all the actions, in order.
pub open spec fn run(addr: ClientAddr, p: Phase, evs: Seq<SessionEvent>) -> (
    Phase,
    Seq<ActionView>,
)
    decreases evs.len(),
{
    if evs.len() == 0 {
        (p, seq![])
    } else {
        let (p1, a1) = transition(addr, p, evs[0]);
        let (p2, a2) = run(addr, p1, evs.drop_first());
        (p2, a1 + a2)
    }
}

/// The number of actions that publish an event with body `body`.
pub open spec fn count_published(acts: Seq<ActionView>, body: BodyView) -> nat
    decreases acts.len(),
{
    if acts.len() == 0 {
        0
    } else {
        (if acts[0] matches ActionView::Publish(e) && e.body == body {
            1nat
        } else {
            0nat
        }) + count_published(acts.drop_first(), body)
    }
}

/// Whether a phase comes before the session is active.
pub open spec fn handshaking(p: Phase) -> bool {
    p is Probing || p is AwaitingReply || p is Greeting
}

proof fn lemma_count_concat(a: Seq<ActionView>, b: Seq<ActionView>, body: BodyView)
    ensures
        count_published(a + b, body) == count_published(a, body) + count_published(b, body),
    decreases a.len(),
{
    if a.len() > 0 {
        assert((a + b).drop_first() =~= a.drop_first() + b);
        lemma_count_concat(a.drop_first(), b, body);
    } else {
        assert(a + b =~= b);
    }
}

proof fn lemma_count_pair(x: ActionView, y: ActionView, body: BodyView)
    ensures
        count_published(seq![x, y], body) == count_published(seq![x], body) + count_published(
            seq![y],
            body,
        ),
{
    assert(seq![x, y] =~= seq![x] + seq![y]);
    lemma_count_concat(seq![x], seq![y], body);
}

proof fn lemma_count_one(x: ActionView, body: BodyView)
    ensures
        count_published(seq![x], body) == (if x matches ActionView::Publish(e) && e.body == body {
            1nat
        } else {
            0nat
        }),
{
    assert(seq![x].drop_first() =~= Seq::<ActionView>::empty());
    assert(seq![x][0] == x);
    assert(count_published(Seq::<ActionView>::empty(), body) == 0);
}

/// A frame whose payload decodes to no message (a missing, non-string or
/// blank `msg` field, or no JSON object at all) publishes nothing and sends
/// nothing: the session stays active.
pub proof fn lemma_undecodable_frame_is_dropped(addr: ClientAddr, text: String)
    requires
        decoded(text@) is None,
    ensures
        transition(addr, Phase::Active, SessionEvent::Inbound(Frame::Text(text))) == (
            Phase::Active,
            Seq::<ActionView>::empty(),
        ),
{
}

/// A closed session does nothing more, whatever happens.
pub proof fn lemma_closed_is_silent(addr: ClientAddr, evs: Seq<SessionEvent>)
    ensures
        run(addr, Phase::Closed, evs) == (Phase::Closed, Seq::<ActionView>::empty()),
    decreases evs.len(),
{
    if evs.len() > 0 {
        lemma_closed_is_silent(addr, evs.drop_first());
        assert(Seq::<ActionView>::empty() + Seq::<ActionView>::empty() =~= Seq::<
            ActionView,
        >::empty());
    }
}

/// A closing session forwards nothing and publishes nothing but its
/// departure, exactly once, when both tasks have stopped.
pub proof fn lemma_closing_announces_departure_once(addr: ClientAddr, evs: Seq<SessionEvent>)
    ensures
        run(addr, Phase::Closing, evs).1 == (if exists|i: int|
            0 <= i < evs.len() && #[trigger] evs[i] is Stopped {
            seq![lifecycle(addr, BodyView::Left)]
        } else {
            Seq::<ActionView>::empty()
        }),
    decreases evs.len(),
{
    if evs.len() > 0 {
        let rest = evs.drop_first();
        if evs[0] is Stopped {
            lemma_closed_is_silent(addr, rest);
            assert(seq![lifecycle(addr, BodyView::Left)] + Seq::<ActionView>::empty() =~= seq![
                lifecycle(addr, BodyView::Left),
            ]);
        } else {
            lemma_closing_announces_departure_once(addr, rest);
            assert forall|i: int| 0 <= i < rest.len() implies (#[trigger] rest[i] is Stopped
                <==> evs[i + 1] is Stopped) by {}
            if exists|i: int| 0 <= i < evs.len() && #[trigger] evs[i] is Stopped {
                let i = choose|i: int| 0 <= i < evs.len() && #[trigger] evs[i] is Stopped;
                assert(rest[i - 1] is Stopped);
            }
            if exists|i: int| 0 <= i < rest.len() && #[trigger] rest[i] is Stopped {
                let i = choose|i: int| 0 <= i < rest.len() && #[trigger] rest[i] is Stopped;
                assert(evs[i + 1] is Stopped);
            }
            assert(Seq::<ActionView>::empty() + run(addr, Phase::Closing, rest).1 =~= run(
                addr,
                Phase::Closing,
                rest,
            ).1);
        }
    }
}

/// When the inbound task of an active session ends, the outbound task is
/// cancelled at once, nothing more is forwarded to the client, and the
/// departure is published exactly once, after both tasks have stopped.
pub proof fn lemma_inbound_end_cancels_outbound(
    addr: ClientAddr,
    ev: SessionEvent,
    rest: Seq<SessionEvent>,
)
    requires
        ends_inbound(ev),
    ensures
        run(addr, Phase::Active, seq![ev] + rest).1 == seq![ActionView::Cancel(Task::Outbound)]
            + (if exists|i: int| 0 <= i < rest.len() && #[trigger] rest[i] is Stopped {
            seq![lifecycle(addr, BodyView::Left)]
        } else {
            Seq::<ActionView>::empty()
        }),
{
    let evs = seq![ev] + rest;
    assert(evs[0] == ev);
    assert(evs.drop_first() =~= rest);
    lemma_closing_announces_departure_once(addr, rest);
}

/// Whatever happens, a session announces its client's arrival at most once,
/// and its departure no more often than its arrival: a client whose
/// handshake failed is never announced.
pub proof fn lemma_lifecycle_announced_once(addr: ClientAddr, evs: Seq<SessionEvent>)
    ensures
        count_published(run(addr, Phase::Probing, evs).1, BodyView::Joined) <= 1,
        count_published(run(addr, Phase::Probing, evs).1, BodyView::Left) <= count_published(
            run(addr, Phase::Probing, evs).1,
            BodyView::Joined,
        ),
{
    lemma_lifecycle_counts(addr, Phase::Probing, evs);
}

proof fn lemma_lifecycle_counts(addr: ClientAddr, p: Phase, evs: Seq<SessionEvent>)
    ensures
        count_published(run(addr, p, evs).1, BodyView::Joined) <= (if handshaking(p) {
            1nat
        } else {
            0nat
        }),
        count_published(run(addr, p, evs).1, BodyView::Left) <= (if p is Closed {
            0nat
        } else {
            1nat
        }),
        handshaking(p) ==> count_published(run(addr, p, evs).1, BodyView::Left)
            <= count_published(run(addr, p, evs).1, BodyView::Joined),
    decreases evs.len(),
{
    if evs.len() > 0 {
        let (p1, a1) = transition(addr, p, evs[0]);
        let rest = evs.drop_first();
        lemma_lifecycle_counts(addr, p1, rest);
        let a2 = run(addr, p1, rest).1;
        lemma_count_concat(a1, a2, BodyView::Joined);
        lemma_count_concat(a1, a2, BodyView::Left);
        if a1.len() == 1 {
            lemma_count_one(a1[0], BodyView::Joined);
            lemma_count_one(a1[0], BodyView::Left);
            assert(a1 =~= seq![a1[0]]);
        } else if a1.len() == 2 {
            lemma_count_pair(a1[0], a1[1], BodyView::Joined);
            lemma_count_pair(a1[0], a1[1], BodyView::Left);
            lemma_count_one(a1[0], BodyView::Joined);
            lemma_count_one(a1[0], BodyView::Left);
            lemma_count_one(a1[1], BodyView::Joined);
            lemma_count_one(a1[1], BodyView::Left);
            assert(a1 =~= seq![a1[0], a1[1]]);
        }
        if p1 is Closed {
            lemma_closed_is_silent(addr, rest);
        }
    }
}

/// A connection's session.
pub struct Session {
    pub addr: ClientAddr,
    pub phase: Phase,
}

impl Session {
    /// A session of the client at `addr`, about to send its probe.
    pub fn new(addr: ClientAddr) -> (r: Session)
        ensures
            r.addr == addr,
            r.phase == Phase::Probing,
    {
        Session { addr, phase: Phase::Probing }
    }

    /// Takes an event: moves to the next phase and returns the actions to
    /// perform, in order.
    pub fn step(&mut self, ev: SessionEvent) -> (r: Vec<SessionAction>)
        ensures
            final(self).addr == old(self).addr,
            (final(self).phase, views(r@)) == transition(old(self).addr, old(self).phase, ev),
    {
        let ghost ev0 = ev;
        let addr = self.addr;
        let mut acts: Vec<SessionAction> = Vec::new();
        match self.phase {
            Phase::Probing => {
                if let SessionEvent::ProbeSent(ok) = ev {
                    self.phase = if ok {
                        Phase::AwaitingReply
                    } else {
                        Phase::Closed
                    };
                }
            },
            Phase::AwaitingReply => {
                if let SessionEvent::FirstRead(ok) = ev {
                    if ok {
                        self.phase = Phase::Greeting;
                        acts.push(SessionAction::SendInputBox);
                    } else {
                        self.phase = Phase::Closed;
                    }
                }
            },
            Phase::Greeting => {
                if let SessionEvent::GreetingSent(ok) = ev {
                    if ok {
                        self.phase = Phase::Active;
                        acts.push(SessionAction::StartTasks);
                        acts.push(SessionAction::Publish(ChatEvent::new(addr, Body::Joined)));
                    } else {
                        self.phase = Phase::Closed;
                    }
                }
            },
            Phase::Active => {
                match ev {
                    SessionEvent::InboundEnded | SessionEvent::Inbound(Frame::Close) => {
                        self.phase = Phase::Closing;
                        acts.push(SessionAction::Cancel(Task::Outbound));
                    },
                    SessionEvent::WriteFailed | SessionEvent::Delivery(Delivery::Closed) => {
                        self.phase = Phase::Closing;
                        acts.push(SessionAction::Cancel(Task::Inbound));
                    },
                    SessionEvent::Inbound(Frame::Text(t)) => {
                        if let Some(m) = decode(t.as_str()) {
                            acts.push(SessionAction::Publish(ChatEvent::new(addr, Body::Text(m))));
                            acts.push(SessionAction::SendInputBox);
                        }
                    },
                    SessionEvent::Delivery(Delivery::Event(e)) => {
                        acts.push(SessionAction::Forward(e));
                    },
                    _ => {},
                }
            },
            Phase::Closing => {
                if let SessionEvent::Stopped = ev {
                    self.phase = Phase::Closed;
                    acts.push(SessionAction::Publish(ChatEvent::new(addr, Body::Left)));
                }
            },
            Phase::Closed => {},
        }
        let ghost expected = transition(addr, old(self).phase, ev0).1;
        assert(views(acts@) =~= expected);
        acts
    }
}

} // verus!
