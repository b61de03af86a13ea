//! The broadcast pool: one shared fan-out channel of chat events.
use vstd::prelude::*;
use crate::codec::{Body, ChatEvent};
use crate::identity::ClientAddr;
use tokio::sync::broadcast::{Receiver, Sender};

verus! {

#[verifier::external_type_specification]
#[verifier::external_body]
#[verifier::reject_recursive_types(T)]
pub struct ExSender<T>(Sender<T>);

#[verifier::external_type_specification]
#[verifier::external_body]
#[verifier::reject_recursive_types(T)]
pub struct ExReceiver<T>(Receiver<T>);

/// The backlog of a pool made by `default`.
pub const DEFAULT_BACKLOG: usize = 1000;

/// Relies on tokio's `broadcast::Sender::new`, which panics on a capacity of
/// zero or above `usize::MAX / 2`.
#[verifier::external_body]
fn new_sender(capacity: usize) -> (r: Sender<ChatEvent>)
    requires
        0 < capacity <= usize::MAX / 2,
{
    Sender::new(capacity)
}

/// Relies on tokio's `broadcast::Sender::send`: it never waits, and hands the
/// event to every receiver; its error, when no receiver exists, is read as
/// zero receivers reached.
#[verifier::external_body]
fn send_event(tx: &Sender<ChatEvent>, event: ChatEvent) -> (r: usize) {
    match tx.send(event) {
        Ok(n) => n,
        Err(_) => 0,
    }
}

/// Relies on tokio's `broadcast::Sender::subscribe`: the receiver sees the
/// events sent after this call. It panics past `usize::MAX >> 2` receivers,
/// which no memory can hold.
#[verifier::external_body]
fn subscribe_to(tx: &Sender<ChatEvent>) -> (r: Receiver<ChatEvent>) {
    tx.subscribe()
}

/// The shared pool of connected clients. Publishing never blocks: a
/// subscriber that falls `backlog` events behind loses the oldest ones.
pub struct ClientPool {
    tx: Sender<ChatEvent>,
    backlog: usize,
}

impl ClientPool {
    /// How many unread events a subscriber may hold before it loses the oldest.
    pub closed spec fn spec_backlog(&self) -> nat {
        self.backlog as nat
    }

    /// A pool with the given backlog.
    pub fn new(backlog: usize) -> (r: ClientPool)
        requires
            0 < backlog <= usize::MAX / 2,
        ensures
            r.spec_backlog() == backlog,
    {
        ClientPool { tx: new_sender(backlog), backlog }
    }

    pub fn backlog(&self) -> (r: usize)
        ensures
            r == self.spec_backlog(),
    {
        self.backlog
    }

    /// Publishes the event `{ sender: user, body }` to every subscriber, and
    /// returns how many subscribers it reached.
    pub fn send(&self, user: ClientAddr, body: Body) -> (r: usize) {
        send_event(&self.tx, ChatEvent::new(user, body))
    }

    /// A new subscription, which sees the events published after this call, in
    /// the order of publication.
    pub fn subscribe(&self) -> (r: Receiver<ChatEvent>) {
        subscribe_to(&self.tx)
    }
}

impl Default for ClientPool {
    fn default() -> (r: ClientPool)
        ensures
            r.spec_backlog() == DEFAULT_BACKLOG,
    {
        ClientPool::new(DEFAULT_BACKLOG)
    }
}

} // verus!
