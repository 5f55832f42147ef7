use midiex::ports::{Direction, FlexiPort, MidiPort, MidiexMidiPortRef, NumPorts, VirtualMidiPort};

fn port(direction: Direction, name: &str, num: usize, token: u64) -> MidiPort {
    let r = match direction {
        Direction::Input => MidiexMidiPortRef::Input(token),
        Direction::Output => MidiexMidiPortRef::Output(token),
    };
    MidiPort { direction, name: name.to_string(), num, port_ref: FlexiPort::new(r) }
}

#[test]
fn port_equality_ignores_native_ref() {
    let a = port(Direction::Input, "Piano", 0, 11);
    let b = port(Direction::Input, "Piano", 0, 99);
    assert_eq!(a, b);
}

#[test]
fn port_equality_ignores_ref_direction_tag() {
    let a = port(Direction::Input, "Piano", 0, 11);
    let b = MidiPort {
        direction: Direction::Input,
        name: "Piano".to_string(),
        num: 0,
        port_ref: FlexiPort::new(MidiexMidiPortRef::Output(11)),
    };
    assert_eq!(a, b);
}

#[test]
fn port_inequality_on_name() {
    let a = port(Direction::Input, "Piano", 0, 11);
    let b = port(Direction::Input, "Organ", 0, 11);
    assert!(a != b);
}

#[test]
fn port_inequality_on_direction() {
    let a = port(Direction::Input, "Piano", 0, 11);
    let b = port(Direction::Output, "Piano", 0, 11);
    assert!(a != b);
}

#[test]
fn port_inequality_on_index() {
    let a = port(Direction::Input, "Piano", 0, 11);
    let b = port(Direction::Input, "Piano", 1, 11);
    assert!(a != b);
}

#[test]
fn virtual_port_equality_on_triple() {
    let a = VirtualMidiPort { direction: Direction::Input, name: "V".to_string(), num: 3 };
    let b = VirtualMidiPort { direction: Direction::Input, name: "V".to_string(), num: 3 };
    let c = VirtualMidiPort { direction: Direction::Input, name: "V".to_string(), num: 4 };
    assert_eq!(a, b);
    assert!(a != c);
}

#[test]
fn duplicate_is_field_exact() {
    let a = port(Direction::Output, "Synth", 2, 7);
    let d = a.duplicate();
    assert_eq!(a, d);
    assert_eq!(d.name, "Synth");
    assert_eq!(d.num, 2);
    assert!(matches!(d.port_ref.0, MidiexMidiPortRef::Output(7)));
}

#[test]
fn flexi_port_new_keeps_reference() {
    let f = FlexiPort::new(MidiexMidiPortRef::Input(42));
    assert!(matches!(f.0, MidiexMidiPortRef::Input(42)));
}

#[test]
fn num_ports_fields() {
    let n = NumPorts { input: 2, output: 1 };
    assert_eq!(n, NumPorts { input: 2, output: 1 });
    assert_eq!(n.input, 2);
    assert_eq!(n.output, 1);
}
