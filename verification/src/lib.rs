//! Command dispatch and transport layer for a receipt printer with an
//! attached cash drawer.
//!
//! The library covers the logic of that layer: the hex codec that turns a
//! textual payload into a validated byte stream, the routing rules that send
//! each logical operation to exactly one backend, the cash-drawer status
//! monitor state machine, and the error taxonomy every failure is normalized
//! into. The host around it performs the raw socket writes and runs the
//! monitor's background loop, feeding plain values in and out of these
//! functions.

pub mod error;
pub mod hex;
pub mod monitor;
pub mod router;
pub mod transport;
