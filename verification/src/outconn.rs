//! Output connections: open, send, close.
//!
//! A connection wraps a live, send-capable driver handle together with the
//! name and index of the port it was opened against.  The handle sits in
//! an optional slot; "closed" is the slot being empty, so a close takes
//! the handle out exactly once, every later send fails with a
//! "connection closed" error, and a second close is reported as a usage
//! error instead of crashing.
//!
//! This library decides and records; the layer that talks to the OS
//! driver performs what a returned value asks for: it opens the handle a
//! token refers to, forwards the bytes of a [`SendCmd`], and closes the
//! handle a successful [`close_out_conn`] hands back.

use vstd::prelude::*;

use crate::errors::Error;
use crate::ports::{Direction, MidiPort};

verus! {

/// An opaque token for a live, send-capable driver connection.  The layer
/// that talks to the OS driver keeps the map from tokens to real handles.
#[derive(Clone, Copy, Debug, PartialEq, Eq, Structural)]
pub struct OutputHandle(pub u64);

/// The handle slot of one output connection.  An empty slot means the
/// connection was closed and its handle taken.
#[derive(Debug)]
pub struct OutConnRef(pub Option<OutputHandle>);

impl OutConnRef {
    /// A freshly filled slot for a just-opened connection.
    pub fn new(data: OutputHandle) -> (r: Self)
        ensures
            r.0 == Some(data),
    {
        OutConnRef(Some(data))
    }
}

/// A send-capable connection to one output port.
#[derive(Debug)]
pub struct OutConn {
    pub conn_ref: OutConnRef,
    pub name: String,
    pub port_num: usize,
}

impl OutConn {
    /// The handle slot still holds the handle.
    pub open spec fn is_open(&self) -> bool {
        self.conn_ref.0 is Some
    }
}

/// What `close_out_conn` does to a connection: take the handle out of the
/// slot, or report a usage error when the slot is already empty.
pub open spec fn spec_close(c: OutConn) -> (OutConn, Result<OutputHandle, Error>) {
    match c.conn_ref.0 {
        Some(h) => (OutConn { conn_ref: OutConnRef(None), ..c }, Ok(h)),
        None => (c, Err(Error::AlreadyClosed)),
    }
}

/// What `send_msg` returns: the handle to forward the bytes to, or the
/// "connection closed" error when the slot is empty.
pub open spec fn spec_send(c: OutConn, message: Seq<u8>) -> Result<(OutputHandle, Seq<u8>), Error> {
    match c.conn_ref.0 {
        Some(h) => Ok((h, message)),
        None => Err(Error::ConnectionClosed),
    }
}

/// Validate a connect request.
///
/// Succeeds exactly on a descriptor with output direction and an output
/// native reference, returning the token of the output reference to open;
/// nothing is opened for a refused descriptor.  An input-direction
/// descriptor with an input reference is refused as "input port supplied
/// where output expected"; the two inconsistent descriptors are refused
/// as "no output connection".
pub fn connect(midi_port: &MidiPort) -> (r: Result<u64, Error>)
    ensures
        midi_port.direction == Direction::Output && midi_port.port_ref.0 is Output ==> r is Ok
            && r->Ok_0 == midi_port.port_ref.0->Output_0,
        midi_port.direction != Direction::Output && midi_port.port_ref.0 is Input ==> r is Err
            && r->Err_0 == Error::InputPortSupplied,
        midi_port.direction == Direction::Output && midi_port.port_ref.0 is Input ==> r is Err
            && r->Err_0 == Error::NoOutputConnection,
        midi_port.direction != Direction::Output && midi_port.port_ref.0 is Output ==> r is Err
            && r->Err_0 == Error::NoOutputConnection,
{
    if midi_port.direction == Direction::Output {
        match midi_port.port_ref.0 {
            crate::ports::MidiexMidiPortRef::Output(token) => Ok(token),
            crate::ports::MidiexMidiPortRef::Input(_) => Err(Error::NoOutputConnection),
        }
    } else {
        match midi_port.port_ref.0 {
            crate::ports::MidiexMidiPortRef::Input(_) => Err(Error::InputPortSupplied),
            crate::ports::MidiexMidiPortRef::Output(_) => Err(Error::NoOutputConnection),
        }
    }
}

/// Wrap the driver handle a validated connect request opened, keeping the
/// port's name and index.
pub fn open_out_conn(midi_port: &MidiPort, handle: OutputHandle) -> (c: OutConn)
    ensures
        c.conn_ref.0 == Some(handle),
        c.name@ == midi_port.name@,
        c.port_num == midi_port.num,
{
    OutConn {
        conn_ref: OutConnRef::new(handle),
        name: midi_port.name.clone(),
        port_num: midi_port.num,
    }
}

/// Wrap a freshly created virtual output connection.
///
/// A virtual output is listed by the OS as one more input port, so its
/// best-effort placeholder index is the input-port count observed right
/// after creation, less one; the count is therefore at least one.  The
/// number has no enumeration meaning and can shift as real ports come and
/// go.
pub fn create_virtual_output_conn(name: String, handle: OutputHandle, input_port_count: usize) -> (c:
    OutConn)
    requires
        input_port_count >= 1,
    ensures
        c.conn_ref.0 == Some(handle),
        c.name == name,
        c.port_num == input_port_count - 1,
{
    OutConn { conn_ref: OutConnRef::new(handle), name, port_num: input_port_count - 1 }
}

/// The byte-exact forward of one message to one driver handle.
#[derive(Debug)]
pub struct SendCmd {
    pub handle: OutputHandle,
    pub bytes: Vec<u8>,
}

/// Serialize one send on the connection.
///
/// If the handle slot is occupied, the message is forwarded verbatim to
/// the slot's handle; if the slot is empty, the send fails immediately
/// with the "connection closed" error, without blocking or retrying.
pub fn send_msg(midi_out_conn: &OutConn, message: Vec<u8>) -> (r: Result<SendCmd, Error>)
    ensures
        midi_out_conn.is_open() ==> r is Ok && r->Ok_0.handle == midi_out_conn.conn_ref.0->Some_0
            && r->Ok_0.bytes == message,
        !midi_out_conn.is_open() ==> r is Err && r->Err_0 == Error::ConnectionClosed,
        r is Ok <==> spec_send(*midi_out_conn, message@) is Ok,
        r is Ok ==> (r->Ok_0.handle, r->Ok_0.bytes@) == spec_send(*midi_out_conn, message@)->Ok_0,
        r is Err ==> r->Err_0 == spec_send(*midi_out_conn, message@)->Err_0,
{
    match midi_out_conn.conn_ref.0 {
        Some(h) => Ok(SendCmd { handle: h, bytes: message }),
        None => Err(Error::ConnectionClosed),
    }
}

/// Close the connection: take the handle out of the slot and hand it back
/// so the caller invokes the driver's close on it exactly once.  A second
/// close finds the slot empty and is reported as a usage error.
pub fn close_out_conn(midi_out_conn: &mut OutConn) -> (r: Result<OutputHandle, Error>)
    ensures
        (*final(midi_out_conn), r) == spec_close(*old(midi_out_conn)),
        old(midi_out_conn).is_open() ==> r is Ok && r->Ok_0 == old(
            midi_out_conn,
        ).conn_ref.0->Some_0 && !final(midi_out_conn).is_open(),
        !old(midi_out_conn).is_open() ==> r is Err && r->Err_0 == Error::AlreadyClosed,
        !final(midi_out_conn).is_open(),
        final(midi_out_conn).name == old(midi_out_conn).name,
        final(midi_out_conn).port_num == old(midi_out_conn).port_num,
{
    match midi_out_conn.conn_ref.0 {
        Some(h) => {
            midi_out_conn.conn_ref.0 = None;
            Ok(h)
        },
        None => Err(Error::AlreadyClosed),
    }
}

/// Law: a send attempted after a close always reports the connection as
/// closed — whether the close took the handle or found the slot already
/// empty, no message can reach the driver through that connection again.
pub proof fn lemma_send_after_close_fails(c: OutConn, message: Seq<u8>)
    ensures
        spec_send(spec_close(c).0, message) == Err::<(OutputHandle, Seq<u8>), Error>(
            Error::ConnectionClosed,
        ),
{
}

} // verus!
