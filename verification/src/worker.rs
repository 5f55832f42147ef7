//! The delivery worker's decisions, and the channel that carries incoming
//! messages to the consumer.
//!
//! One worker is bound to each successful subscribe call.  The layer that
//! talks to the OS driver runs the worker's loop: it opens the input
//! connection, lets the driver callback enqueue every incoming message
//! into a [`DeliveryQueue`], and between sleeps polls the registry,
//! asking [`worker_step`] what to do.  The worker keeps its connection
//! open exactly while its descriptor is still subscribed, and closes it
//! exactly once, only after observing the descriptor gone.

use vstd::prelude::*;

use crate::ports::MidiPort;

verus! {

/// One incoming MIDI message as delivered to the consumer.
#[derive(Debug)]
pub struct MidiMessage {
    pub port: MidiPort,
    pub data: Vec<u8>,
    pub timestamp: u64,
}

/// What a delivery worker does after one poll of the registry.
#[derive(Clone, Copy, Debug, PartialEq, Eq, Structural)]
pub enum WorkerAction {
    /// The descriptor is still subscribed: keep the connection open and
    /// poll again after a yield.
    KeepOpen,
    /// The descriptor is gone: close the connection once and terminate.
    CloseAndStop,
}

/// The per-poll decision: stay alive exactly while the bound descriptor
/// is still in the registry.  Removal is the only termination signal.
pub fn worker_step(still_subscribed: bool) -> (a: WorkerAction)
    ensures
        a == spec_worker_step(still_subscribed),
{
    if still_subscribed {
        WorkerAction::KeepOpen
    } else {
        WorkerAction::CloseAndStop
    }
}

/// What `worker_step` decides for one observation.
pub open spec fn spec_worker_step(still_subscribed: bool) -> WorkerAction {
    if still_subscribed {
        WorkerAction::KeepOpen
    } else {
        WorkerAction::CloseAndStop
    }
}

/// The actions a worker takes over a whole run, given what each poll of
/// the registry observed: one action per poll up to and including the
/// first poll that finds the descriptor gone, where the worker stops.
pub open spec fn worker_actions(obs: Seq<bool>) -> Seq<WorkerAction>
    decreases obs.len(),
{
    if obs.len() == 0 {
        Seq::empty()
    } else if obs[0] {
        seq![WorkerAction::KeepOpen] + worker_actions(obs.drop_first())
    } else {
        seq![WorkerAction::CloseAndStop]
    }
}

/// The index of the first poll that observes the descriptor gone.
pub open spec fn first_absent(obs: Seq<bool>) -> int
    decreases obs.len(),
{
    if obs.len() == 0 {
        0
    } else if !obs[0] {
        0
    } else {
        1 + first_absent(obs.drop_first())
    }
}

/// Law: over any run, the worker closes its connection exactly once and
/// only after observing its descriptor removed from the registry.
///
/// Each action answers its poll: it is `CloseAndStop` exactly when that
/// poll observed the descriptor gone.  While every poll still finds the
/// descriptor, the worker emits only `KeepOpen`; as soon as one poll
/// finds it gone, the worker emits a single `CloseAndStop` and takes no
/// further action.
pub proof fn lemma_worker_closes_exactly_once(obs: Seq<bool>)
    ensures
        worker_actions(obs).len() <= obs.len(),
        forall|i: int|
            0 <= i < worker_actions(obs).len() ==> (#[trigger] worker_actions(obs)[i])
                == spec_worker_step(obs[i]),
        (exists|i: int| 0 <= i < obs.len() && !(#[trigger] obs[i])) ==> worker_actions(obs).len()
            == first_absent(obs) + 1 && worker_actions(obs).last() == WorkerAction::CloseAndStop,
        (forall|i: int| 0 <= i < obs.len() ==> (#[trigger] obs[i])) ==> worker_actions(obs).len()
            == obs.len(),
        forall|i: int|
            0 <= i < worker_actions(obs).len() - 1 ==> (#[trigger] worker_actions(obs)[i])
                == WorkerAction::KeepOpen,
    decreases obs.len(),
{
    if obs.len() == 0 {
    } else if obs[0] {
        let tail = obs.drop_first();
        lemma_worker_closes_exactly_once(tail);
        assert forall|i: int| 0 <= i < worker_actions(obs).len() implies (
        #[trigger] worker_actions(obs)[i]) == spec_worker_step(obs[i]) by {
            if i > 0 {
                assert(worker_actions(obs)[i] == worker_actions(tail)[i - 1]);
                assert(tail[i - 1] == obs[i]);
            }
        }
        if exists|i: int| 0 <= i < obs.len() && !(#[trigger] obs[i]) {
            let w = choose|i: int| 0 <= i < obs.len() && !(#[trigger] obs[i]);
            assert(!tail[w - 1]);
        }
    } else {
    }
}

/// The asynchronous delivery channel between driver callbacks and the
/// consumer.  The callback only enqueues; the consumer side dequeues, so
/// messages from one port reach the consumer in the order the driver
/// produced them.
pub struct DeliveryQueue {
    items: Vec<MidiMessage>,
}

impl View for DeliveryQueue {
    type V = Seq<MidiMessage>;

    closed spec fn view(&self) -> Seq<MidiMessage> {
        self.items@
    }
}

impl DeliveryQueue {
    /// An empty channel.
    pub fn new() -> (r: Self)
        ensures
            r@ == Seq::<MidiMessage>::empty(),
    {
        DeliveryQueue { items: Vec::new() }
    }

    /// How many messages are waiting.
    pub fn len(&self) -> (n: usize)
        ensures
            n == self@.len(),
    {
        self.items.len()
    }

    /// Append one incoming message at the back.  This is all a driver
    /// callback does, so it never blocks the driver's thread.
    pub fn enqueue(&mut self, message: MidiMessage)
        ensures
            final(self)@ == old(self)@.push(message),
    {
        self.items.push(message);
    }

    /// Take the oldest waiting message, if any.
    pub fn dequeue(&mut self) -> (r: Option<MidiMessage>)
        ensures
            old(self)@.len() == 0 ==> r is None && final(self)@ == old(self)@,
            old(self)@.len() > 0 ==> r is Some && r->Some_0 == old(self)@[0] && final(self)@ == old(
                self,
            )@.drop_first(),
    {
        if self.items.len() == 0 {
            None
        } else {
            let m = self.items.remove(0);
            assert(self@ =~= old(self)@.drop_first());
            Some(m)
        }
    }
}

/// Law: the channel is first-in-first-out and byte-exact.  For a channel
/// holding the messages `msgs`, `k` dequeues discard exactly the first
/// `k` messages, and the next dequeue hands the consumer precisely
/// `msgs[k]` — same port, same bytes, same timestamp.
pub proof fn lemma_fifo_delivery(msgs: Seq<MidiMessage>, k: int)
    requires
        0 <= k < msgs.len(),
    ensures
        msgs.skip(k)[0] == msgs[k],
        msgs.skip(k).drop_first() == msgs.skip(k + 1),
{
    assert(msgs.skip(k).drop_first() =~= msgs.skip(k + 1));
}

} // verus!
