//! MIDI port and connection lifecycle management.
//!
//! The crate tracks which MIDI ports are open, guarantees at most one
//! active subscription per port, models the exactly-once closing of
//! connection handles, and carries incoming messages to a consumer in
//! first-in-first-out order.

use vstd::prelude::*;

pub mod errors;
pub mod ports;
pub mod catalog;
pub mod context;
pub mod notify;
pub mod outconn;
pub mod registry;
pub mod worker;

verus! {

} // verus!
