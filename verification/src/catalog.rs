//! The port catalog: descriptors for every endpoint the OS currently
//! shows, inputs first, each numbered from zero within its own direction.

use vstd::prelude::*;

use crate::ports::{Direction, FlexiPort, MidiPort, MidiexMidiPortRef, NumPorts};

verus! {

/// One endpoint as the OS driver enumerates it: the display name the
/// driver reports, if it reports one, and the opaque token of its native
/// reference.
#[derive(Debug)]
pub struct EnumeratedPort {
    pub name: Option<String>,
    pub token: u64,
}

/// The display name a descriptor carries: what the driver reported, or a
/// fixed placeholder when the driver gave none.
pub open spec fn display_name_spec(name: Option<String>) -> Seq<char> {
    match name {
        Some(n) => n@,
        None => "No device name given"@,
    }
}

/// The descriptor built for the input port enumerated at position `i`.
pub open spec fn input_descriptor_spec(port: EnumeratedPort, i: int, d: MidiPort) -> bool {
    &&& d.direction == Direction::Input
    &&& d.name@ == display_name_spec(port.name)
    &&& d.num == i
    &&& d.port_ref == FlexiPort(MidiexMidiPortRef::Input(port.token))
}

/// The descriptor built for the output port enumerated at position `i`.
pub open spec fn output_descriptor_spec(port: EnumeratedPort, i: int, d: MidiPort) -> bool {
    &&& d.direction == Direction::Output
    &&& d.name@ == display_name_spec(port.name)
    &&& d.num == i
    &&& d.port_ref == FlexiPort(MidiexMidiPortRef::Output(port.token))
}

fn display_name(name: &Option<String>) -> (r: String)
    ensures
        r@ == display_name_spec(*name),
{
    match name {
        Some(n) => n.clone(),
        None => "No device name given".to_owned(),
    }
}

/// Build the catalog for one enumeration: a descriptor for every input
/// port, then one for every output port, each numbered from zero within
/// its own direction — input and output indices are independent.
pub fn list_ports(inputs: Vec<EnumeratedPort>, outputs: Vec<EnumeratedPort>) -> (r: Vec<MidiPort>)
    ensures
        r@.len() == inputs@.len() + outputs@.len(),
        forall|i: int|
            0 <= i < inputs@.len() ==> input_descriptor_spec(inputs@[i], i, #[trigger] r@[i]),
        forall|i: int|
            0 <= i < outputs@.len() ==> output_descriptor_spec(
                outputs@[i],
                i,
                #[trigger] r@[inputs@.len() + i],
            ),
{
    let mut vec_of_devices: Vec<MidiPort> = Vec::new();
    let n_in = inputs.len();
    let mut i: usize = 0;
    while i < n_in
        invariant
            n_in == inputs@.len(),
            i <= n_in,
            vec_of_devices@.len() == i,
            forall|k: int|
                0 <= k < i ==> input_descriptor_spec(
                    inputs@[k],
                    k,
                    #[trigger] vec_of_devices@[k],
                ),
        decreases n_in - i,
    {
        let name = display_name(&inputs[i].name);
        vec_of_devices.push(
            MidiPort {
                direction: Direction::Input,
                name,
                num: i,
                port_ref: FlexiPort::new(MidiexMidiPortRef::Input(inputs[i].token)),
            },
        );
        i += 1;
    }
    let n_out = outputs.len();
    let mut j: usize = 0;
    while j < n_out
        invariant
            n_in == inputs@.len(),
            n_out == outputs@.len(),
            j <= n_out,
            vec_of_devices@.len() == n_in + j,
            forall|k: int|
                0 <= k < n_in ==> input_descriptor_spec(
                    inputs@[k],
                    k,
                    #[trigger] vec_of_devices@[k],
                ),
            forall|k: int|
                0 <= k < j ==> output_descriptor_spec(
                    outputs@[k],
                    k,
                    #[trigger] vec_of_devices@[n_in + k],
                ),
        decreases n_out - j,
    {
        let name = display_name(&outputs[j].name);
        vec_of_devices.push(
            MidiPort {
                direction: Direction::Output,
                name,
                num: j,
                port_ref: FlexiPort::new(MidiexMidiPortRef::Output(outputs[j].token)),
            },
        );
        j += 1;
    }
    vec_of_devices
}

/// The port counts, without materializing descriptors.
pub fn count_ports(num_input_ports: usize, num_output_ports: usize) -> (r: NumPorts)
    ensures
        r.input == num_input_ports,
        r.output == num_output_ports,
{
    NumPorts { input: num_input_ports, output: num_output_ports }
}

} // verus!
