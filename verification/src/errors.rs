//! Errors reported by the port, connection and subscription operations.

use vstd::prelude::*;

verus! {

/// Every failure a caller must branch on explicitly.
///
/// Misuse errors (`InputPortSupplied`, `AlreadyClosed`, `NotSubscribed`,
/// `AlreadySubscribed`) are reported synchronously and never crash the
/// process; `ConnectionClosed` is recoverable by reconnecting; and
/// `Unsupported` reports a capability the host platform does not offer.
#[derive(Clone, Copy, Debug, PartialEq, Eq, Structural)]
pub enum Error {
    /// An input port was supplied where an output port was expected.
    InputPortSupplied,
    /// An output port was supplied where an input port was expected.
    OutputPortSupplied,
    /// No output connection could be associated with the port reference.
    NoOutputConnection,
    /// A send was attempted on a connection whose handle slot is empty.
    ConnectionClosed,
    /// A close was attempted after the handle had already been taken.
    AlreadyClosed,
    /// The port already has a live subscription.
    AlreadySubscribed,
    /// The port has no entry in the subscription registry.
    NotSubscribed,
    /// The capability is not available on this platform.
    Unsupported,
}

impl Error {
    /// A human-readable description of the error.
    pub fn message(&self) -> (r: String)
        ensures
            r@ == self.message_spec(),
    {
        match self {
            Error::InputPortSupplied => "Input connection rather than output.".to_owned(),
            Error::OutputPortSupplied => "Output connection rather than input.".to_owned(),
            Error::NoOutputConnection => "No output connection".to_owned(),
            Error::ConnectionClosed => {
                "No output connection available to send message to. Connection may have been closed.".to_owned()
            },
            Error::AlreadyClosed => "Connection already closed: handle already taken.".to_owned(),
            Error::AlreadySubscribed => "Midi port already subscribed.".to_owned(),
            Error::NotSubscribed => "Midi port is not subscribed.".to_owned(),
            Error::Unsupported => "Not supported on this platform.".to_owned(),
        }
    }

    /// What `message` returns for each variant.
    pub open spec fn message_spec(&self) -> Seq<char> {
        match self {
            Error::InputPortSupplied => "Input connection rather than output."@,
            Error::OutputPortSupplied => "Output connection rather than input."@,
            Error::NoOutputConnection => "No output connection"@,
            Error::ConnectionClosed => {
                "No output connection available to send message to. Connection may have been closed."@
            },
            Error::AlreadyClosed => "Connection already closed: handle already taken."@,
            Error::AlreadySubscribed => "Midi port already subscribed."@,
            Error::NotSubscribed => "Midi port is not subscribed."@,
            Error::Unsupported => "Not supported on this platform."@,
        }
    }
}

} // verus!
