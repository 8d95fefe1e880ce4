//! The error taxonomy surfaced to callers, and the normalizer that maps
//! transport-stage failures into it.

use vstd::prelude::*;
use vstd::string::*;

verus! {

/// The stable failure kinds of this layer. Callers distinguish recoverable
/// conditions (timeout, unavailable backend) from permanent ones (invalid
/// input) by kind, never by message text.
#[derive(Clone, Copy, PartialEq, Eq, Structural, Debug)]
pub enum ErrorKind {
    /// The textual payload is not a well-formed hex string.
    InvalidHex,
    /// A supplied monitor polling interval is not a positive number.
    InvalidInterval,
    /// The network transport could not reach the printer endpoint.
    ConnectFailed,
    /// The connection was made but the payload could not be fully written.
    WriteFailed,
    /// The payload was written but could not be flushed to the peer.
    FlushFailed,
    /// A native-backed operation was invoked on a platform without the
    /// native printing service.
    BackendUnavailable,
    /// An opaque failure surfaced from the native bridge.
    AdapterError,
    /// The status monitor was started while already running.
    AlreadyRunning,
    /// An operation exceeded its configured or platform time limit.
    Timeout,
}

/// An error as callers see it: a stable kind plus a human-readable message.
#[derive(Clone, Debug)]
pub struct PrinterError {
    pub kind: ErrorKind,
    pub message: String,
}

/// The stage of a one-shot network send at which a failure was observed.
#[derive(Clone, Copy, PartialEq, Eq, Structural, Debug)]
pub enum TransportStage {
    /// Opening the connection to the endpoint.
    Connect,
    /// Writing the payload over the open connection.
    Write,
    /// Flushing the written payload before closing.
    Flush,
}

/// The kind a transport failure is normalized into: a timeout is reported as
/// its own kind whatever the stage; otherwise each stage has its own kind, so
/// callers can tell "socket could not be reached" from "bytes possibly not
/// sent".
pub open spec fn transport_failure_kind(stage: TransportStage, timed_out: bool) -> ErrorKind {
    if timed_out {
        ErrorKind::Timeout
    } else {
        match stage {
            TransportStage::Connect => ErrorKind::ConnectFailed,
            TransportStage::Write => ErrorKind::WriteFailed,
            TransportStage::Flush => ErrorKind::FlushFailed,
        }
    }
}

impl PrinterError {
    /// Builds an error of the given kind carrying the given message.
    pub fn new(kind: ErrorKind, message: String) -> (r: PrinterError)
        ensures
            r.kind == kind,
            r.message@ == message@,
    {
        PrinterError { kind, message }
    }

    /// The well-known failure for a native-backed operation invoked on a
    /// platform that lacks the native printing service.
    pub fn backend_unavailable() -> (r: PrinterError)
        ensures
            r.kind == ErrorKind::BackendUnavailable,
    {
        PrinterError {
            kind: ErrorKind::BackendUnavailable,
            message: String::from_str("printer functionality is not available on this platform"),
        }
    }

    /// Normalizes a failure observed at one stage of a network send into the
    /// taxonomy, keeping the transport's own description as the message.
    pub fn from_transport_failure(stage: TransportStage, timed_out: bool, detail: String) -> (r:
        PrinterError)
        ensures
            r.kind == transport_failure_kind(stage, timed_out),
            r.message@ == detail@,
    {
        if timed_out {
            PrinterError { kind: ErrorKind::Timeout, message: detail }
        } else {
            match stage {
                TransportStage::Connect => PrinterError {
                    kind: ErrorKind::ConnectFailed,
                    message: detail,
                },
                TransportStage::Write => PrinterError {
                    kind: ErrorKind::WriteFailed,
                    message: detail,
                },
                TransportStage::Flush => PrinterError {
                    kind: ErrorKind::FlushFailed,
                    message: detail,
                },
            }
        }
    }

    /// Normalizes an opaque failure surfaced from the native bridge.
    pub fn from_adapter_failure(detail: String) -> (r: PrinterError)
        ensures
            r.kind == ErrorKind::AdapterError,
            r.message@ == detail@,
    {
        PrinterError { kind: ErrorKind::AdapterError, message: detail }
    }

    /// The error's stable kind.
    pub fn kind(&self) -> (k: ErrorKind)
        ensures
            k == self.kind,
    {
        self.kind
    }
}

} // verus!
