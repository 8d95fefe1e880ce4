//! The command router: the rules that resolve every logical operation to
//! exactly one backend, and the bridge-absent variant of the backend itself.
//!
//! Exactly one backend variant is active per deployment. On the
//! native-backed variant every operation except the raw network print is
//! forwarded to the native bridge; the raw network print bypasses the bridge
//! and goes to the network transport, because it needs no device pairing. On
//! the bridge-absent variant — where no native printing service exists —
//! every device-touching operation fails immediately with
//! `BackendUnavailable`, while ping is answered locally as a liveness check
//! and the raw network print still works. Dispatch is a pure lookup: no
//! retry, no queuing, no reordering.

use vstd::prelude::*;
use crate::error::{ErrorKind, PrinterError};
use crate::hex::{hex_bytes, hex_valid, strip_spaces};
use crate::monitor::StatusSnapshot;
use crate::transport::{plan_raw_network_print, NetworkPrintJob};

verus! {

/// The logical operations the router accepts, one per capability of the
/// backend interface.
#[derive(Clone, Copy, PartialEq, Eq, Structural, Debug)]
pub enum Operation {
    Ping,
    InitPrinter,
    ScanDevices,
    ConnectPrinter,
    PrintText,
    PrintLine,
    PrintEscPos,
    PrintEscPosNetwork,
    FeedLine,
    CutPaper,
    OpenCashDrawer,
    GetStatus,
    GetCashDrawerStatus,
    GetPrinterStatus,
    GetPrinterInfo,
    LcdShowText,
    StartCashDrawerMonitor,
    StopCashDrawerMonitor,
    DisconnectPrinter,
}

/// The backend variant a deployment selects, exactly one of which is active
/// per running application.
#[derive(Clone, Copy, PartialEq, Eq, Structural, Debug)]
pub enum BackendKind {
    /// A native printing service is present and reached through the bridge.
    NativeBacked,
    /// No native printing service exists on this platform.
    BridgeAbsent,
}

/// Where one operation is resolved to: answered by the router itself,
/// forwarded to the native bridge, sent over the network transport, or
/// refused as unavailable on this platform.
#[derive(Clone, Copy, PartialEq, Eq, Structural, Debug)]
pub enum Route {
    AnswerLocally,
    ForwardToNativeBridge,
    SendOverNetwork,
    Unavailable,
}

/// Whether an operation touches the device through the native service. Only
/// ping (pure liveness) and the raw network print (its own transport) do
/// not.
pub open spec fn needs_native_service(op: Operation) -> bool {
    !(op is Ping || op is PrintEscPosNetwork)
}

/// The routing rule: the raw network print always goes to the network
/// transport; everything else goes to the bridge when one is present; with
/// no bridge, ping is answered locally and the rest is unavailable.
pub open spec fn spec_route(backend: BackendKind, op: Operation) -> Route {
    if op is PrintEscPosNetwork {
        Route::SendOverNetwork
    } else if backend is NativeBacked {
        Route::ForwardToNativeBridge
    } else if op is Ping {
        Route::AnswerLocally
    } else {
        Route::Unavailable
    }
}

/// Resolves one operation against the active backend variant.
pub fn route(backend: BackendKind, op: Operation) -> (r: Route)
    ensures
        r == spec_route(backend, op),
{
    if matches!(op, Operation::PrintEscPosNetwork) {
        Route::SendOverNetwork
    } else if matches!(backend, BackendKind::NativeBacked) {
        Route::ForwardToNativeBridge
    } else if matches!(op, Operation::Ping) {
        Route::AnswerLocally
    } else {
        Route::Unavailable
    }
}

/// Law: on the bridge-absent variant every operation that needs the native
/// service is unavailable, while ping is answered locally and the raw
/// network print is still routed to the network transport; and no operation
/// is ever left without a backend on the native-backed variant.
pub proof fn lemma_bridge_absent_dispatch(op: Operation)
    ensures
        needs_native_service(op) ==> spec_route(BackendKind::BridgeAbsent, op)
            == Route::Unavailable,
        spec_route(BackendKind::BridgeAbsent, Operation::Ping) == Route::AnswerLocally,
        spec_route(BackendKind::BridgeAbsent, Operation::PrintEscPosNetwork)
            == Route::SendOverNetwork,
        spec_route(BackendKind::NativeBacked, op) != Route::Unavailable,
{
}

/// The echo payload of a ping request: carried back verbatim.
#[derive(Clone, Debug, PartialEq, Eq)]
pub struct PingRequest {
    pub value: Option<String>,
}

/// The answer to a ping: the request's value, unchanged.
#[derive(Clone, Debug, PartialEq, Eq)]
pub struct PingResponse {
    pub value: Option<String>,
}

/// The bridge-absent backend: the printer capabilities on a platform with no
/// native printing service. Ping and the raw network print work; every other
/// operation fails immediately with the one well-known error.
pub struct Printerx {
}

impl Printerx {
    /// A bridge-absent backend. It holds no device session: there is no
    /// device to hold one against.
    pub fn new() -> (r: Printerx) {
        Printerx {  }
    }

    /// Liveness check: echoes the request's value, touching no device.
    pub fn ping(&self, payload: PingRequest) -> (r: Result<PingResponse, PrinterError>)
        ensures
            r is Ok,
            r->Ok_0.value == payload.value,
    {
        Ok(PingResponse { value: payload.value })
    }

    /// Native-backed only: fails with `BackendUnavailable` on this variant.
    pub fn init_printer(&self) -> (r: Result<(), PrinterError>)
        ensures
            r is Err && r->Err_0.kind == ErrorKind::BackendUnavailable,
    {
        Err(PrinterError::backend_unavailable())
    }

    /// Native-backed only: fails with `BackendUnavailable` on this variant.
    pub fn scan_devices(&self) -> (r: Result<Vec<String>, PrinterError>)
        ensures
            r is Err && r->Err_0.kind == ErrorKind::BackendUnavailable,
    {
        Err(PrinterError::backend_unavailable())
    }

    /// Native-backed only: fails with `BackendUnavailable` on this variant.
    pub fn connect_printer(&self, _address: String) -> (r: Result<(), PrinterError>)
        ensures
            r is Err && r->Err_0.kind == ErrorKind::BackendUnavailable,
    {
        Err(PrinterError::backend_unavailable())
    }

    /// Native-backed only: fails with `BackendUnavailable` on this variant.
    pub fn print_text(
        &self,
        _text: String,
        _font_size: Option<i32>,
        _align: Option<String>,
    ) -> (r: Result<(), PrinterError>)
        ensures
            r is Err && r->Err_0.kind == ErrorKind::BackendUnavailable,
    {
        Err(PrinterError::backend_unavailable())
    }

    /// Native-backed only: fails with `BackendUnavailable` on this variant.
    pub fn print_line(&self, _text: String) -> (r: Result<(), PrinterError>)
        ensures
            r is Err && r->Err_0.kind == ErrorKind::BackendUnavailable,
    {
        Err(PrinterError::backend_unavailable())
    }

    /// Native-backed only: fails with `BackendUnavailable` on this variant.
    pub fn print_esc_pos(&self, _hex: String) -> (r: Result<(), PrinterError>)
        ensures
            r is Err && r->Err_0.kind == ErrorKind::BackendUnavailable,
    {
        Err(PrinterError::backend_unavailable())
    }

    /// Raw network print: available on every variant, since it needs no
    /// platform service. Validates and decodes the payload into a print job
    /// for the host to deliver; a malformed payload is rejected before any
    /// socket is opened.
    pub fn print_esc_pos_network(&self, printer_ip: String, port: u16, hex: &str) -> (r: Result<
        NetworkPrintJob,
        PrinterError,
    >)
        ensures
            r is Ok <==> hex_valid(strip_spaces(hex@)),
            r is Ok ==> r->Ok_0.bytes@ == hex_bytes(strip_spaces(hex@)) && r->Ok_0.endpoint.host@
                == printer_ip@ && r->Ok_0.endpoint.port == port,
            r is Err ==> r->Err_0.kind == ErrorKind::InvalidHex,
    {
        plan_raw_network_print(printer_ip, port, hex)
    }

    /// Native-backed only: fails with `BackendUnavailable` on this variant.
    pub fn feed_line(&self, _lines: i32) -> (r: Result<(), PrinterError>)
        ensures
            r is Err && r->Err_0.kind == ErrorKind::BackendUnavailable,
    {
        Err(PrinterError::backend_unavailable())
    }

    /// Native-backed only: fails with `BackendUnavailable` on this variant.
    pub fn cut_paper(&self) -> (r: Result<(), PrinterError>)
        ensures
            r is Err && r->Err_0.kind == ErrorKind::BackendUnavailable,
    {
        Err(PrinterError::backend_unavailable())
    }

    /// Native-backed only: fails with `BackendUnavailable` on this variant.
    pub fn open_cash_drawer(&self) -> (r: Result<(), PrinterError>)
        ensures
            r is Err && r->Err_0.kind == ErrorKind::BackendUnavailable,
    {
        Err(PrinterError::backend_unavailable())
    }

    /// Native-backed only: fails with `BackendUnavailable` on this variant.
    pub fn get_status(&self) -> (r: Result<StatusSnapshot, PrinterError>)
        ensures
            r is Err && r->Err_0.kind == ErrorKind::BackendUnavailable,
    {
        Err(PrinterError::backend_unavailable())
    }

    /// Native-backed only: fails with `BackendUnavailable` on this variant.
    pub fn get_cash_drawer_status(&self) -> (r: Result<StatusSnapshot, PrinterError>)
        ensures
            r is Err && r->Err_0.kind == ErrorKind::BackendUnavailable,
    {
        Err(PrinterError::backend_unavailable())
    }

    /// Native-backed only: fails with `BackendUnavailable` on this variant.
    pub fn get_printer_status(&self) -> (r: Result<StatusSnapshot, PrinterError>)
        ensures
            r is Err && r->Err_0.kind == ErrorKind::BackendUnavailable,
    {
        Err(PrinterError::backend_unavailable())
    }

    /// Native-backed only: fails with `BackendUnavailable` on this variant.
    pub fn get_printer_info(&self, _info: String) -> (r: Result<String, PrinterError>)
        ensures
            r is Err && r->Err_0.kind == ErrorKind::BackendUnavailable,
    {
        Err(PrinterError::backend_unavailable())
    }

    /// Native-backed only: fails with `BackendUnavailable` on this variant.
    pub fn lcd_show_text(&self, _text: String, _size: Option<i32>, _bold: Option<bool>) -> (r:
        Result<(), PrinterError>)
        ensures
            r is Err && r->Err_0.kind == ErrorKind::BackendUnavailable,
    {
        Err(PrinterError::backend_unavailable())
    }

    /// Native-backed only: fails with `BackendUnavailable` on this variant.
    /// The monitor polls the device, so without a native service there is
    /// nothing to poll.
    pub fn start_cash_drawer_monitor(&self, _interval_ms: Option<i64>) -> (r: Result<
        (),
        PrinterError,
    >)
        ensures
            r is Err && r->Err_0.kind == ErrorKind::BackendUnavailable,
    {
        Err(PrinterError::backend_unavailable())
    }

    /// Native-backed only: fails with `BackendUnavailable` on this variant.
    pub fn stop_cash_drawer_monitor(&self) -> (r: Result<(), PrinterError>)
        ensures
            r is Err && r->Err_0.kind == ErrorKind::BackendUnavailable,
    {
        Err(PrinterError::backend_unavailable())
    }

    /// Native-backed only: fails with `BackendUnavailable` on this variant.
    pub fn disconnect_printer(&self) -> (r: Result<(), PrinterError>)
        ensures
            r is Err && r->Err_0.kind == ErrorKind::BackendUnavailable,
    {
        Err(PrinterError::backend_unavailable())
    }
}

} // verus!
