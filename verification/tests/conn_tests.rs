use midiex::errors::Error;
use midiex::outconn::{
    close_out_conn, connect, create_virtual_output_conn, open_out_conn, send_msg, OutConn,
    OutConnRef, OutputHandle,
};
use midiex::ports::{Direction, FlexiPort, MidiPort, MidiexMidiPortRef};

fn output_port(name: &str, num: usize, token: u64) -> MidiPort {
    MidiPort {
        direction: Direction::Output,
        name: name.to_string(),
        num,
        port_ref: FlexiPort::new(MidiexMidiPortRef::Output(token)),
    }
}

fn input_port(name: &str, num: usize, token: u64) -> MidiPort {
    MidiPort {
        direction: Direction::Input,
        name: name.to_string(),
        num,
        port_ref: FlexiPort::new(MidiexMidiPortRef::Input(token)),
    }
}

#[test]
fn connect_accepts_output_port() {
    let p = output_port("Synth", 0, 55);
    assert_eq!(connect(&p), Ok(55));
}

#[test]
fn connect_refuses_input_port() {
    // An input-direction descriptor is refused outright: no token is
    // handed out, so no OS connection is ever opened for it.
    let p = input_port("Keys", 0, 7);
    assert_eq!(connect(&p), Err(Error::InputPortSupplied));
}

#[test]
fn connect_refuses_inconsistent_descriptors() {
    let p = MidiPort {
        direction: Direction::Output,
        name: "Odd".to_string(),
        num: 0,
        port_ref: FlexiPort::new(MidiexMidiPortRef::Input(7)),
    };
    assert_eq!(connect(&p), Err(Error::NoOutputConnection));
    let q = MidiPort {
        direction: Direction::Input,
        name: "Odd".to_string(),
        num: 0,
        port_ref: FlexiPort::new(MidiexMidiPortRef::Output(7)),
    };
    assert_eq!(connect(&q), Err(Error::NoOutputConnection));
}

#[test]
fn open_out_conn_keeps_port_identity() {
    let p = output_port("Synth", 3, 55);
    let c = open_out_conn(&p, OutputHandle(9));
    assert_eq!(c.conn_ref.0, Some(OutputHandle(9)));
    assert_eq!(c.name, "Synth");
    assert_eq!(c.port_num, 3);
}

#[test]
fn send_forwards_bytes_verbatim() {
    let c = open_out_conn(&output_port("Synth", 0, 1), OutputHandle(4));
    let cmd = send_msg(&c, vec![0x90, 0x3C, 0x7F]).unwrap();
    assert_eq!(cmd.handle, OutputHandle(4));
    assert_eq!(cmd.bytes, vec![0x90, 0x3C, 0x7F]);
}

#[test]
fn close_hands_back_the_handle_once() {
    let mut c = open_out_conn(&output_port("Synth", 0, 1), OutputHandle(4));
    assert_eq!(close_out_conn(&mut c), Ok(OutputHandle(4)));
    assert_eq!(c.conn_ref.0, None);
}

#[test]
fn second_close_is_a_usage_error() {
    let mut c = open_out_conn(&output_port("Synth", 0, 1), OutputHandle(4));
    assert!(close_out_conn(&mut c).is_ok());
    assert_eq!(close_out_conn(&mut c), Err(Error::AlreadyClosed));
}

#[test]
fn send_after_close_reports_connection_closed() {
    let mut c = open_out_conn(&output_port("Synth", 0, 1), OutputHandle(4));
    assert!(close_out_conn(&mut c).is_ok());
    match send_msg(&c, vec![0xF8]) {
        Err(e) => assert_eq!(e, Error::ConnectionClosed),
        Ok(_) => panic!("send on a closed connection must fail"),
    }
    // And it keeps failing the same way: the handle is gone for good.
    assert!(send_msg(&c, vec![0xFE]).is_err());
}

#[test]
fn send_on_empty_slot_reports_connection_closed() {
    let c = OutConn { conn_ref: OutConnRef(None), name: "Synth".to_string(), port_num: 0 };
    match send_msg(&c, vec![1, 2, 3]) {
        Err(e) => assert_eq!(e, Error::ConnectionClosed),
        Ok(_) => panic!("send on a closed connection must fail"),
    }
}

#[test]
fn out_conn_ref_new_fills_the_slot() {
    let r = OutConnRef::new(OutputHandle(12));
    assert_eq!(r.0, Some(OutputHandle(12)));
}

#[test]
fn virtual_output_conn_takes_placeholder_index() {
    let c = create_virtual_output_conn("V-Out".to_string(), OutputHandle(2), 3);
    assert_eq!(c.conn_ref.0, Some(OutputHandle(2)));
    assert_eq!(c.name, "V-Out");
    assert_eq!(c.port_num, 2);
}

#[test]
fn error_messages_name_the_failure() {
    assert_eq!(Error::InputPortSupplied.message(), "Input connection rather than output.");
    assert_eq!(Error::NoOutputConnection.message(), "No output connection");
    assert_eq!(
        Error::ConnectionClosed.message(),
        "No output connection available to send message to. Connection may have been closed."
    );
    assert_eq!(Error::AlreadyClosed.message(), "Connection already closed: handle already taken.");
    assert_eq!(Error::AlreadySubscribed.message(), "Midi port already subscribed.");
    assert_eq!(Error::NotSubscribed.message(), "Midi port is not subscribed.");
    assert_eq!(Error::Unsupported.message(), "Not supported on this platform.");
    assert_eq!(Error::OutputPortSupplied.message(), "Output connection rather than input.");
}
