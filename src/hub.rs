use vstd::prelude::*;
use tokio::sync::broadcast::{Receiver, Sender};

verus! {

#[verifier::external_type_specification]
#[verifier::external_body]
#[verifier::reject_recursive_types(T)]
pub struct ExSender<T>(Sender<T>);

#[verifier::external_type_specification]
#[verifier::external_body]
#[verifier::reject_recursive_types(T)]
pub struct ExReceiver<T>(Receiver<T>);

/// The capacity the hub's channel is asked for. The channel rounds it up to
/// the next power of two, so it keeps the last 128 records not yet consumed;
/// a subscriber further behind than that misses records.
pub const HUB_CAPACITY: usize = 100;

/// Relies on `tokio::sync::broadcast::Sender::new`, which panics only for a
/// capacity of zero or above `usize::MAX / 2`.
#[verifier::external_body]
fn new_sender(capacity: usize) -> (r: Sender<String>)
    requires
        0 < capacity <= usize::MAX / 2,
{
    Sender::new(capacity)
}

/// Relies on `Clone for tokio::sync::broadcast::Sender`: another sending
/// handle onto the same channel.
#[verifier::external_body]
fn clone_sender(tx: &Sender<String>) -> (r: Sender<String>) {
    tx.clone()
}

/// Relies on `tokio::sync::broadcast::Sender::send`, handed `record`: it
/// fails only when no receiver is subscribed, and otherwise returns how many
/// are.
#[verifier::external_body]
fn send_record(h: &mut Hub, record: String) -> (r: Option<usize>)
    ensures
        final(h).handed() == old(h).handed().push(record@),
        r matches Some(n) ==> n > 0,
{
    h.tx.send(record).ok()
}

/// Relies on `tokio::sync::broadcast::Sender::subscribe`: a receiver of the
/// records sent after this call.
#[verifier::external_body]
fn subscribe_receiver(tx: &Sender<String>) -> (r: Receiver<String>) {
    tx.subscribe()
}

/// A handle onto the process-wide fan-out of serialised envelopes: every
/// record published goes to every subscription that exists at that moment,
/// publisher included.
pub struct Hub {
    tx: Sender<String>,
    log: Ghost<Seq<Seq<char>>>,
}

impl Hub {
    /// The records this handle has passed to the channel, in order.
    pub closed spec fn handed(self) -> Seq<Seq<char>> {
        self.log@
    }

    pub fn new() -> (r: Hub)
        ensures
            r.handed() == Seq::<Seq<char>>::empty(),
    {
        Hub { tx: new_sender(HUB_CAPACITY), log: Ghost(Seq::empty()) }
    }

    /// Another handle onto the same channel, for one more publisher.
    pub fn handle(&self) -> (r: Hub)
        ensures
            r.handed() == Seq::<Seq<char>>::empty(),
    {
        Hub { tx: clone_sender(&self.tx), log: Ghost(Seq::empty()) }
    }

    /// Hands `record` to every current subscription without waiting for any
    /// of them; returns how many there were. With none, the record is
    /// dropped and 0 is returned.
    pub fn publish(&mut self, record: String) -> (n: usize)
        ensures
            final(self).handed() == old(self).handed().push(record@),
    {
        match send_record(self, record) {
            Some(n) => n,
            None => 0,
        }
    }

    /// A fresh subscription, which observes the records published after
    /// this call, in publication order.
    pub fn subscribe(&self) -> Receiver<String> {
        subscribe_receiver(&self.tx)
    }
}

} // verus!
