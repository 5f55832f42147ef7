//! MIDI port descriptors.
//!
//! A port descriptor identifies an OS-visible MIDI endpoint by direction,
//! display name and enumeration index.  Descriptor equality compares that
//! triple only: the driver-specific native reference a descriptor carries is
//! deliberately left out, because two enumeration calls may hand back
//! different references to the same endpoint.

use vstd::prelude::*;

verus! {

/// Whether an endpoint receives messages from us (`Output`) or produces
/// messages for us (`Input`).
#[derive(Clone, Copy, Debug, PartialEq, Eq, Structural)]
pub enum Direction {
    Input,
    Output,
}

/// A driver-specific reference to one OS MIDI endpoint, tagged with the
/// endpoint's direction.  The payload is an opaque token: the layer that
/// talks to the OS driver keeps the map from tokens to live driver handles,
/// and this library never looks inside it.
#[derive(Clone, Copy, Debug, PartialEq, Eq, Structural)]
pub enum MidiexMidiPortRef {
    Input(u64),
    Output(u64),
}

/// A native port reference of either direction, as stored in a descriptor.
#[derive(Clone, Copy, Debug, PartialEq, Eq, Structural)]
pub struct FlexiPort(pub MidiexMidiPortRef);

impl FlexiPort {
    pub fn new(data: MidiexMidiPortRef) -> (r: Self)
        ensures
            r.0 == data,
    {
        FlexiPort(data)
    }
}

/// A descriptor for an OS-enumerated MIDI port.
///
/// `num` is the port's position within its own direction at enumeration
/// time; it is not a stable identity across re-enumeration.
#[derive(Debug)]
pub struct MidiPort {
    pub direction: Direction,
    pub name: String,
    pub num: usize,
    pub port_ref: FlexiPort,
}

/// Descriptor equality: name, direction and index match.  The native
/// reference is ignored.
pub open spec fn port_eq_spec(a: MidiPort, b: MidiPort) -> bool {
    a.name@ == b.name@ && a.direction == b.direction && a.num == b.num
}

impl PartialEq for MidiPort {
    fn eq(&self, other: &Self) -> (r: bool)
        ensures
            r == port_eq_spec(*self, *other),
    {
        (self.name == other.name) && (self.direction == other.direction) && (self.num
            == other.num)
    }
}

impl vstd::std_specs::cmp::PartialEqSpecImpl for MidiPort {
    open spec fn obeys_eq_spec() -> bool {
        true
    }

    open spec fn eq_spec(&self, other: &Self) -> bool {
        port_eq_spec(*self, *other)
    }
}

impl MidiPort {
    /// A field-exact copy of the descriptor (including its native
    /// reference, which is cheap to duplicate).
    pub fn duplicate(&self) -> (r: Self)
        ensures
            r == *self,
    {
        MidiPort {
            direction: self.direction,
            name: self.name.clone(),
            num: self.num,
            port_ref: self.port_ref,
        }
    }
}

/// A descriptor for a virtual input port this library created itself.
///
/// It carries no native reference: the OS learns of the port only when the
/// port is subscribed.  `num` is drawn from a process-wide monotonically
/// increasing counter, never from OS enumeration.
#[derive(Debug)]
pub struct VirtualMidiPort {
    pub direction: Direction,
    pub name: String,
    pub num: usize,
}

/// Virtual descriptor equality: name, direction and index match.
pub open spec fn virtual_port_eq_spec(a: VirtualMidiPort, b: VirtualMidiPort) -> bool {
    a.name@ == b.name@ && a.direction == b.direction && a.num == b.num
}

impl PartialEq for VirtualMidiPort {
    fn eq(&self, other: &Self) -> (r: bool)
        ensures
            r == virtual_port_eq_spec(*self, *other),
    {
        (self.name == other.name) && (self.direction == other.direction) && (self.num
            == other.num)
    }
}

impl vstd::std_specs::cmp::PartialEqSpecImpl for VirtualMidiPort {
    open spec fn obeys_eq_spec() -> bool {
        true
    }

    open spec fn eq_spec(&self, other: &Self) -> bool {
        virtual_port_eq_spec(*self, *other)
    }
}

impl VirtualMidiPort {
    /// A field-exact copy of the descriptor.
    pub fn duplicate(&self) -> (r: Self)
        ensures
            r == *self,
    {
        VirtualMidiPort { direction: self.direction, name: self.name.clone(), num: self.num }
    }
}

impl crate::registry::PortEntry for MidiPort {
    open spec fn num_spec(self) -> nat {
        self.num as nat
    }

    open spec fn same_spec(self, other: Self) -> bool {
        port_eq_spec(self, other)
    }

    proof fn lemma_same_spec_equivalence(a: Self, b: Self, c: Self) {
    }

    fn entry_num(&self) -> (n: usize) {
        self.num
    }

    fn same_entry(&self, other: &Self) -> (r: bool) {
        self == other
    }

    fn duplicate(&self) -> (r: Self) {
        MidiPort::duplicate(self)
    }
}

impl crate::registry::PortEntry for VirtualMidiPort {
    open spec fn num_spec(self) -> nat {
        self.num as nat
    }

    open spec fn same_spec(self, other: Self) -> bool {
        virtual_port_eq_spec(self, other)
    }

    proof fn lemma_same_spec_equivalence(a: Self, b: Self, c: Self) {
    }

    fn entry_num(&self) -> (n: usize) {
        self.num
    }

    fn same_entry(&self, other: &Self) -> (r: bool) {
        self == other
    }

    fn duplicate(&self) -> (r: Self) {
        VirtualMidiPort::duplicate(self)
    }
}

/// The counts of currently visible input and output ports.
#[derive(Clone, Copy, Debug, PartialEq, Eq, Structural)]
pub struct NumPorts {
    pub input: usize,
    pub output: usize,
}

/// The given descriptor with its native reference replaced.
pub open spec fn with_port_ref(p: MidiPort, r: FlexiPort) -> MidiPort {
    MidiPort { port_ref: r, ..p }
}

/// Law: two descriptors are equal exactly when their `(name, direction,
/// index)` triples match, and replacing either native reference never
/// changes the outcome.
pub proof fn lemma_port_equality_ignores_native_ref(a: MidiPort, b: MidiPort)
    ensures
        port_eq_spec(a, b) <==> (a.name@ == b.name@ && a.direction == b.direction && a.num
            == b.num),
        forall|r1: FlexiPort, r2: FlexiPort|
            #[trigger] port_eq_spec(with_port_ref(a, r1), with_port_ref(b, r2)) == port_eq_spec(
                a,
                b,
            ),
{
}

} // verus!
