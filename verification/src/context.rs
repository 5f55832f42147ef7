//! The process-wide lifecycle state: one explicit object owning the
//! hardware and virtual subscription registries and the counter that
//! numbers virtual input ports.
//!
//! Subscribing registers a port and entitles the caller to spawn one
//! delivery worker bound to it; a second subscribe of an equal descriptor
//! is refused, so no two workers can ever forward the same port.
//! Unsubscribing removes the entry, which is the only signal the bound
//! worker observes to close its connection and stop.

use vstd::prelude::*;

use crate::errors::Error;
use crate::ports::{MidiPort, MidiexMidiPortRef, VirtualMidiPort, Direction};
use crate::registry::{
    Registry, registry_wf, spec_contains, spec_contains_num, spec_subscribe, first_match,
    first_num_match, exactly_one_match, lemma_subscribe_deduplicates,
};

verus! {

/// The registries of currently wanted ports, and the virtual input
/// counter.  An explicit object with defined construction, not a hidden
/// process-wide singleton.
pub struct MidiContext {
    subscriptions: Registry<MidiPort>,
    virtual_subscriptions: Registry<VirtualMidiPort>,
    virtual_input_counter: usize,
}

impl MidiContext {
    /// The hardware input ports currently subscribed.
    pub closed spec fn subscribed(&self) -> Seq<MidiPort> {
        self.subscriptions@
    }

    /// The virtual input ports currently subscribed.
    pub closed spec fn virtual_subscribed(&self) -> Seq<VirtualMidiPort> {
        self.virtual_subscriptions@
    }

    /// How many virtual input ports have been created so far.
    pub closed spec fn counter(&self) -> nat {
        self.virtual_input_counter as nat
    }

    /// Both registries satisfy their invariant.
    pub open spec fn wf(&self) -> bool {
        registry_wf(self.subscribed()) && registry_wf(self.virtual_subscribed())
    }

    /// A context with no subscriptions and no virtual ports yet.
    pub fn new() -> (r: Self)
        ensures
            r.subscribed() == Seq::<MidiPort>::empty(),
            r.virtual_subscribed() == Seq::<VirtualMidiPort>::empty(),
            r.counter() == 0,
            r.wf(),
    {
        MidiContext {
            subscriptions: Registry::new(),
            virtual_subscriptions: Registry::new(),
            virtual_input_counter: 0,
        }
    }

    /// Register the intent to receive from `midi_port`.
    ///
    /// Refuses a descriptor that is already subscribed (so a caller never
    /// spawns a second worker for an equal descriptor) and a descriptor
    /// whose native reference is not an input reference.  On `Ok` the
    /// caller owns the right, and the duty, to start exactly one delivery
    /// worker bound to this descriptor.
    pub fn subscribe(&mut self, midi_port: MidiPort) -> (r: Result<(), Error>)
        requires
            old(self).wf(),
        ensures
            final(self).wf(),
            final(self).virtual_subscribed() == old(self).virtual_subscribed(),
            final(self).counter() == old(self).counter(),
            spec_contains(old(self).subscribed(), midi_port) ==> r is Err && r->Err_0
                == Error::AlreadySubscribed && final(self).subscribed() == old(self).subscribed(),
            !spec_contains(old(self).subscribed(), midi_port) && !(midi_port.port_ref.0
                is Input) ==> r is Err && r->Err_0 == Error::OutputPortSupplied && final(self).subscribed() == old(self).subscribed(),
            !spec_contains(old(self).subscribed(), midi_port) && midi_port.port_ref.0 is Input
                ==> r is Ok && final(self).subscribed() == spec_subscribe(
                old(self).subscribed(),
                midi_port,
            ),
            r is Ok ==> exactly_one_match(final(self).subscribed(), midi_port),
    {
        if self.subscriptions.contains_port(&midi_port) {
            return Err(Error::AlreadySubscribed);
        }
        match midi_port.port_ref.0 {
            MidiexMidiPortRef::Input(_) => {},
            MidiexMidiPortRef::Output(_) => {
                return Err(Error::OutputPortSupplied);
            },
        }
        proof {
            lemma_subscribe_deduplicates(self.subscriptions@, midi_port);
        }
        self.subscriptions.insert(midi_port)
    }

    /// Whether `midi_port` is still wanted.  A delivery worker polls this
    /// to decide when to close its connection and stop.
    pub fn port_subscribed(&self, midi_port: &MidiPort) -> (r: bool)
        ensures
            r == spec_contains(self.subscribed(), *midi_port),
    {
        self.subscriptions.contains_port(midi_port)
    }

    /// Remove `midi_port` from the registry and return a snapshot of what
    /// remains subscribed.  Removal is the only termination signal the
    /// bound worker observes.
    pub fn unsubscribe_port(&mut self, midi_port: &MidiPort) -> (r: Result<Vec<MidiPort>, Error>)
        requires
            old(self).wf(),
        ensures
            final(self).wf(),
            final(self).virtual_subscribed() == old(self).virtual_subscribed(),
            final(self).counter() == old(self).counter(),
            !spec_contains(old(self).subscribed(), *midi_port) ==> r is Err && r->Err_0
                == Error::NotSubscribed && final(self).subscribed() == old(self).subscribed(),
            spec_contains(old(self).subscribed(), *midi_port) ==> final(self).subscribed() == old(self).subscribed().remove(first_match(old(self).subscribed(), *midi_port)) && r is Ok
                && r->Ok_0@ == final(self).subscribed(),
    {
        self.subscriptions.remove_entry(midi_port)
    }

    /// Remove the first entry whose enumeration index is `port_num` and
    /// return a snapshot of what remains subscribed.
    pub fn unsubscribe_port_by_index(&mut self, port_num: usize) -> (r: Result<
        Vec<MidiPort>,
        Error,
    >)
        requires
            old(self).wf(),
        ensures
            final(self).wf(),
            final(self).virtual_subscribed() == old(self).virtual_subscribed(),
            final(self).counter() == old(self).counter(),
            !spec_contains_num(old(self).subscribed(), port_num as nat) ==> r is Err && r->Err_0
                == Error::NotSubscribed && final(self).subscribed() == old(self).subscribed(),
            spec_contains_num(old(self).subscribed(), port_num as nat) ==> final(self).subscribed()
                == old(self).subscribed().remove(
                first_num_match(old(self).subscribed(), port_num as nat),
            ) && r is Ok && r->Ok_0@ == final(self).subscribed(),
    {
        self.subscriptions.remove_by_num(port_num)
    }

    /// Remove every hardware subscription; every bound worker will observe
    /// its descriptor gone and shut down.
    pub fn unsubscribe_all_ports(&mut self) -> (r: Result<Vec<MidiPort>, Error>)
        requires
            old(self).wf(),
        ensures
            final(self).wf(),
            final(self).virtual_subscribed() == old(self).virtual_subscribed(),
            final(self).counter() == old(self).counter(),
            final(self).subscribed() == Seq::<MidiPort>::empty(),
            r is Ok && r->Ok_0@ == Seq::<MidiPort>::empty(),
    {
        self.subscriptions.clear();
        Ok(Vec::new())
    }

    /// A snapshot copy of the hardware subscription registry.
    pub fn get_subscribed_ports(&self) -> (r: Vec<MidiPort>)
        ensures
            r@ == self.subscribed(),
    {
        self.subscriptions.snapshot()
    }

    /// How many virtual input ports have been created so far; a caller
    /// checks this against `usize::MAX` before asking for one more.
    pub fn virtual_input_count(&self) -> (n: usize)
        ensures
            n as nat == self.counter(),
    {
        self.virtual_input_counter
    }

    /// Allocate a descriptor for a new virtual input port.  The index is
    /// drawn from the context's monotonically increasing counter, so two
    /// descriptors created by the same context never share an index, even
    /// under the same name.  The OS learns of the port only when it is
    /// subscribed.
    pub fn create_virtual_input(&mut self, port_name: String) -> (r: VirtualMidiPort)
        requires
            old(self).wf(),
            old(self).counter() < usize::MAX,
        ensures
            final(self).wf(),
            final(self).subscribed() == old(self).subscribed(),
            final(self).virtual_subscribed() == old(self).virtual_subscribed(),
            final(self).counter() == old(self).counter() + 1,
            r.direction == Direction::Input,
            r.name == port_name,
            r.num as nat == old(self).counter() + 1,
    {
        self.virtual_input_counter = self.virtual_input_counter + 1;
        VirtualMidiPort {
            direction: Direction::Input,
            name: port_name,
            num: self.virtual_input_counter,
        }
    }

    /// Register the intent to receive from a virtual input port.  Refuses
    /// a descriptor that is already subscribed.  On `Ok` the caller
    /// creates the OS-side virtual endpoint and starts exactly one
    /// delivery worker bound to this descriptor.
    pub fn subscribe_virtual_input(&mut self, virtual_midi_port: VirtualMidiPort) -> (r: Result<
        (),
        Error,
    >)
        requires
            old(self).wf(),
        ensures
            final(self).wf(),
            final(self).subscribed() == old(self).subscribed(),
            final(self).counter() == old(self).counter(),
            spec_contains(old(self).virtual_subscribed(), virtual_midi_port) ==> r is Err
                && r->Err_0 == Error::AlreadySubscribed && final(self).virtual_subscribed() == old(self).virtual_subscribed(),
            !spec_contains(old(self).virtual_subscribed(), virtual_midi_port) ==> r is Ok && final(self).virtual_subscribed() == spec_subscribe(
                old(self).virtual_subscribed(),
                virtual_midi_port,
            ),
            r is Ok ==> exactly_one_match(final(self).virtual_subscribed(), virtual_midi_port),
    {
        proof {
            lemma_subscribe_deduplicates(self.virtual_subscriptions@, virtual_midi_port);
        }
        self.virtual_subscriptions.insert(virtual_midi_port)
    }

    /// Whether the virtual port is still wanted; polled by its worker.
    pub fn virtual_port_subscribed(&self, virtual_midi_port: &VirtualMidiPort) -> (r: bool)
        ensures
            r == spec_contains(self.virtual_subscribed(), *virtual_midi_port),
    {
        self.virtual_subscriptions.contains_port(virtual_midi_port)
    }

    /// Remove a virtual port from the registry and return a snapshot of
    /// the virtual ports that remain subscribed.
    pub fn unsubscribe_virtual_port(&mut self, virtual_midi_port: &VirtualMidiPort) -> (r: Result<
        Vec<VirtualMidiPort>,
        Error,
    >)
        requires
            old(self).wf(),
        ensures
            final(self).wf(),
            final(self).subscribed() == old(self).subscribed(),
            final(self).counter() == old(self).counter(),
            !spec_contains(old(self).virtual_subscribed(), *virtual_midi_port) ==> r is Err
                && r->Err_0 == Error::NotSubscribed && final(self).virtual_subscribed() == old(self).virtual_subscribed(),
            spec_contains(old(self).virtual_subscribed(), *virtual_midi_port) ==> final(self).virtual_subscribed() == old(self).virtual_subscribed().remove(
                first_match(old(self).virtual_subscribed(), *virtual_midi_port),
            ) && r is Ok && r->Ok_0@ == final(self).virtual_subscribed(),
    {
        self.virtual_subscriptions.remove_entry(virtual_midi_port)
    }

    /// Remove every virtual subscription.
    pub fn unsubscribe_all_virtual_ports(&mut self) -> (r: Result<Vec<VirtualMidiPort>, Error>)
        requires
            old(self).wf(),
        ensures
            final(self).wf(),
            final(self).subscribed() == old(self).subscribed(),
            final(self).counter() == old(self).counter(),
            final(self).virtual_subscribed() == Seq::<VirtualMidiPort>::empty(),
            r is Ok && r->Ok_0@ == Seq::<VirtualMidiPort>::empty(),
    {
        self.virtual_subscriptions.clear();
        Ok(Vec::new())
    }

    /// A snapshot copy of the virtual subscription registry.
    pub fn get_subscribed_virtual_ports(&self) -> (r: Vec<VirtualMidiPort>)
        ensures
            r@ == self.virtual_subscribed(),
    {
        self.virtual_subscriptions.snapshot()
    }
}

} // verus!
