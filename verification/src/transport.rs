//! The network transport's logic: planning a one-shot raw print (validate
//! and decode the payload before any socket is touched) and normalizing the
//! outcome the host observed on the wire.
//!
//! The socket work itself — connect, write the whole buffer, flush, close on
//! every exit path — is the host's: it takes a `NetworkPrintJob` out and
//! hands a `SendOutcome` back.

use vstd::prelude::*;
use crate::error::{ErrorKind, PrinterError, TransportStage, transport_failure_kind};
use crate::hex::{decode_hex, hex_bytes, hex_valid, strip_spaces};

verus! {

/// A (host, port) pair identifying a raw-protocol printer, constructed fresh
/// per print call.
#[derive(Clone, Debug)]
pub struct NetworkEndpoint {
    pub host: String,
    pub port: u16,
}

/// A fully validated one-shot print: the endpoint to reach and the decoded
/// command bytes to deliver verbatim.
#[derive(Clone, Debug)]
pub struct NetworkPrintJob {
    pub endpoint: NetworkEndpoint,
    pub bytes: Vec<u8>,
}

/// What the host observed while carrying a job out: the whole payload was
/// delivered and flushed, or one stage failed, with the stage, whether it was
/// a timeout, and the platform's description.
#[derive(Clone, Debug)]
pub enum SendOutcome {
    Delivered,
    Failed { stage: TransportStage, timed_out: bool, detail: String },
}

/// Plans a raw network print: validates and decodes the hex payload into the
/// exact bytes to send, before any socket is opened.
///
/// Succeeds exactly when the payload, with whitespace stripped, is
/// well-formed hex; the job then carries the decoded bytes unmodified, bound
/// for the given host and port. A malformed payload is rejected whole with
/// `InvalidHex`, so no connection is ever attempted for it.
pub fn plan_raw_network_print(printer_ip: String, port: u16, hex: &str) -> (r: Result<
    NetworkPrintJob,
    PrinterError,
>)
    ensures
        r is Ok <==> hex_valid(strip_spaces(hex@)),
        r is Ok ==> r->Ok_0.bytes@ == hex_bytes(strip_spaces(hex@)) && r->Ok_0.endpoint.host@
            == printer_ip@ && r->Ok_0.endpoint.port == port,
        r is Err ==> r->Err_0.kind == ErrorKind::InvalidHex,
{
    match decode_hex(hex) {
        Ok(bytes) => Ok(
            NetworkPrintJob { endpoint: NetworkEndpoint { host: printer_ip, port }, bytes },
        ),
        Err(e) => Err(e),
    }
}

/// Turns what the host observed on the wire into the result the caller sees.
///
/// Full delivery is the only success. A failure keeps the stage it happened
/// at — connect, write or flush — as its kind, a timeout as the `Timeout`
/// kind whatever the stage, and the platform's description as its message.
pub fn finish_raw_network_print(outcome: SendOutcome) -> (r: Result<(), PrinterError>)
    ensures
        r is Ok <==> outcome is Delivered,
        outcome matches SendOutcome::Failed { stage, timed_out, detail } ==> r is Err
            && r->Err_0.kind == transport_failure_kind(stage, timed_out) && r->Err_0.message@
            == detail@,
{
    match outcome {
        SendOutcome::Delivered => Ok(()),
        SendOutcome::Failed { stage, timed_out, detail } => Err(
            PrinterError::from_transport_failure(stage, timed_out, detail),
        ),
    }
}

} // verus!
