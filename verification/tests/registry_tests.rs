use midiex::context::MidiContext;
use midiex::errors::Error;
use midiex::ports::{Direction, FlexiPort, MidiPort, MidiexMidiPortRef, VirtualMidiPort};

fn input_port(name: &str, num: usize, token: u64) -> MidiPort {
    MidiPort {
        direction: Direction::Input,
        name: name.to_string(),
        num,
        port_ref: FlexiPort::new(MidiexMidiPortRef::Input(token)),
    }
}

fn output_port(name: &str, num: usize, token: u64) -> MidiPort {
    MidiPort {
        direction: Direction::Output,
        name: name.to_string(),
        num,
        port_ref: FlexiPort::new(MidiexMidiPortRef::Output(token)),
    }
}

#[test]
fn subscribe_inserts_once() {
    let mut ctx = MidiContext::new();
    assert!(ctx.subscribe(input_port("Piano", 0, 1)).is_ok());
    let subscribed = ctx.get_subscribed_ports();
    assert_eq!(subscribed.len(), 1);
    assert_eq!(subscribed[0], input_port("Piano", 0, 1));
}

#[test]
fn subscribe_twice_keeps_exactly_one_entry() {
    let mut ctx = MidiContext::new();
    assert!(ctx.subscribe(input_port("Piano", 0, 1)).is_ok());
    // The second subscribe is refused, so no second worker is spawned,
    // and the registry still holds exactly one equal entry.
    assert_eq!(ctx.subscribe(input_port("Piano", 0, 2)), Err(Error::AlreadySubscribed));
    let subscribed = ctx.get_subscribed_ports();
    assert_eq!(subscribed.len(), 1);
    assert_eq!(subscribed[0], input_port("Piano", 0, 1));
}

#[test]
fn subscribe_refuses_output_reference() {
    let mut ctx = MidiContext::new();
    assert_eq!(ctx.subscribe(output_port("Synth", 0, 1)), Err(Error::OutputPortSupplied));
    assert_eq!(ctx.get_subscribed_ports().len(), 0);
}

#[test]
fn registry_kept_sorted_by_index() {
    let mut ctx = MidiContext::new();
    assert!(ctx.subscribe(input_port("C", 2, 3)).is_ok());
    assert!(ctx.subscribe(input_port("A", 0, 1)).is_ok());
    assert!(ctx.subscribe(input_port("B", 1, 2)).is_ok());
    let subscribed = ctx.get_subscribed_ports();
    assert_eq!(subscribed.len(), 3);
    assert_eq!(subscribed[0].num, 0);
    assert_eq!(subscribed[1].num, 1);
    assert_eq!(subscribed[2].num, 2);
}

#[test]
fn unsubscribe_removes_and_returns_rest() {
    let mut ctx = MidiContext::new();
    assert!(ctx.subscribe(input_port("A", 0, 1)).is_ok());
    assert!(ctx.subscribe(input_port("B", 1, 2)).is_ok());
    let rest = ctx.unsubscribe_port(&input_port("A", 0, 9)).unwrap();
    assert_eq!(rest.len(), 1);
    assert_eq!(rest[0], input_port("B", 1, 2));
    assert!(!ctx.port_subscribed(&input_port("A", 0, 1)));
    assert!(ctx.port_subscribed(&input_port("B", 1, 2)));
}

#[test]
fn ports_with_equal_index_are_distinct_entries() {
    // Two ports can share an enumeration index (the name differs); they
    // are distinct descriptors and both stay registered.
    let mut ctx = MidiContext::new();
    assert!(ctx.subscribe(input_port("A", 0, 1)).is_ok());
    assert!(ctx.subscribe(input_port("B", 0, 2)).is_ok());
    let subscribed = ctx.get_subscribed_ports();
    assert_eq!(subscribed.len(), 2);
    assert_eq!(subscribed[0], input_port("A", 0, 1));
    assert_eq!(subscribed[1], input_port("B", 0, 2));
    // Unsubscribing by index removes the first entry with that index.
    let rest = ctx.unsubscribe_port_by_index(0).unwrap();
    assert_eq!(rest.len(), 1);
    assert_eq!(rest[0], input_port("B", 0, 2));
}

#[test]
fn unsubscribe_absent_port_is_an_error() {
    let mut ctx = MidiContext::new();
    assert_eq!(ctx.unsubscribe_port(&input_port("A", 0, 1)), Err(Error::NotSubscribed));
}

#[test]
fn unsubscribe_by_index_removes_first_match() {
    let mut ctx = MidiContext::new();
    assert!(ctx.subscribe(input_port("A", 0, 1)).is_ok());
    assert!(ctx.subscribe(input_port("B", 1, 2)).is_ok());
    let rest = ctx.unsubscribe_port_by_index(1).unwrap();
    assert_eq!(rest.len(), 1);
    assert_eq!(rest[0], input_port("A", 0, 1));
}

#[test]
fn unsubscribe_by_absent_index_is_an_error() {
    let mut ctx = MidiContext::new();
    assert!(ctx.subscribe(input_port("A", 0, 1)).is_ok());
    assert_eq!(ctx.unsubscribe_port_by_index(7), Err(Error::NotSubscribed));
    assert_eq!(ctx.get_subscribed_ports().len(), 1);
}

#[test]
fn unsubscribe_all_empties_the_registry() {
    let mut ctx = MidiContext::new();
    assert!(ctx.subscribe(input_port("A", 0, 1)).is_ok());
    assert!(ctx.subscribe(input_port("B", 1, 2)).is_ok());
    let rest = ctx.unsubscribe_all_ports().unwrap();
    assert_eq!(rest.len(), 0);
    assert_eq!(ctx.get_subscribed_ports().len(), 0);
}

#[test]
fn create_virtual_input_indices_increase() {
    let mut ctx = MidiContext::new();
    let a = ctx.create_virtual_input("Test In".to_string());
    let b = ctx.create_virtual_input("Test In".to_string());
    assert_eq!(a.name, "Test In");
    assert_eq!(b.name, "Test In");
    assert_eq!(a.direction, Direction::Input);
    assert_eq!(b.direction, Direction::Input);
    assert!(a.num < b.num);
    assert_eq!(a.num, 1);
    assert_eq!(b.num, 2);
}

#[test]
fn subscribe_virtual_input_inserts_once() {
    let mut ctx = MidiContext::new();
    let p = ctx.create_virtual_input("V".to_string());
    assert!(ctx.subscribe_virtual_input(p.duplicate()).is_ok());
    assert_eq!(ctx.subscribe_virtual_input(p.duplicate()), Err(Error::AlreadySubscribed));
    let subscribed = ctx.get_subscribed_virtual_ports();
    assert_eq!(subscribed.len(), 1);
    assert_eq!(subscribed[0], p);
}

#[test]
fn unsubscribe_virtual_port_removes_entry() {
    let mut ctx = MidiContext::new();
    let a = ctx.create_virtual_input("A".to_string());
    let b = ctx.create_virtual_input("B".to_string());
    assert!(ctx.subscribe_virtual_input(a.duplicate()).is_ok());
    assert!(ctx.subscribe_virtual_input(b.duplicate()).is_ok());
    let rest = ctx.unsubscribe_virtual_port(&a).unwrap();
    assert_eq!(rest.len(), 1);
    assert_eq!(rest[0], b);
    assert!(!ctx.virtual_port_subscribed(&a));
    assert!(ctx.virtual_port_subscribed(&b));
}

#[test]
fn unsubscribe_absent_virtual_port_is_an_error() {
    let mut ctx = MidiContext::new();
    let a = VirtualMidiPort { direction: Direction::Input, name: "A".to_string(), num: 1 };
    assert_eq!(ctx.unsubscribe_virtual_port(&a), Err(Error::NotSubscribed));
}

#[test]
fn unsubscribe_all_virtual_ports_empties_the_registry() {
    let mut ctx = MidiContext::new();
    let a = ctx.create_virtual_input("A".to_string());
    assert!(ctx.subscribe_virtual_input(a).is_ok());
    let rest = ctx.unsubscribe_all_virtual_ports().unwrap();
    assert_eq!(rest.len(), 0);
    assert_eq!(ctx.get_subscribed_virtual_ports().len(), 0);
}

#[test]
fn virtual_registry_independent_of_hardware_registry() {
    let mut ctx = MidiContext::new();
    assert!(ctx.subscribe(input_port("HW", 0, 1)).is_ok());
    let v = ctx.create_virtual_input("V".to_string());
    assert!(ctx.subscribe_virtual_input(v).is_ok());
    assert!(ctx.unsubscribe_all_virtual_ports().is_ok());
    assert_eq!(ctx.get_subscribed_ports().len(), 1);
}
