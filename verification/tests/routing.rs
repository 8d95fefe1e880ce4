use printerx::error::ErrorKind;
use printerx::router::{route, BackendKind, Operation, PingRequest, Printerx, Route};

const ALL_OPERATIONS: [Operation; 19] = [
    Operation::Ping,
    Operation::InitPrinter,
    Operation::ScanDevices,
    Operation::ConnectPrinter,
    Operation::PrintText,
    Operation::PrintLine,
    Operation::PrintEscPos,
    Operation::PrintEscPosNetwork,
    Operation::FeedLine,
    Operation::CutPaper,
    Operation::OpenCashDrawer,
    Operation::GetStatus,
    Operation::GetCashDrawerStatus,
    Operation::GetPrinterStatus,
    Operation::GetPrinterInfo,
    Operation::LcdShowText,
    Operation::StartCashDrawerMonitor,
    Operation::StopCashDrawerMonitor,
    Operation::DisconnectPrinter,
];

#[test]
fn network_print_routes_to_network_on_both_variants() {
    assert_eq!(
        route(BackendKind::NativeBacked, Operation::PrintEscPosNetwork),
        Route::SendOverNetwork
    );
    assert_eq!(
        route(BackendKind::BridgeAbsent, Operation::PrintEscPosNetwork),
        Route::SendOverNetwork
    );
}

#[test]
fn native_variant_forwards_everything_but_network_print() {
    for op in ALL_OPERATIONS {
        let r = route(BackendKind::NativeBacked, op);
        if op == Operation::PrintEscPosNetwork {
            assert_eq!(r, Route::SendOverNetwork);
        } else {
            assert_eq!(r, Route::ForwardToNativeBridge);
        }
    }
}

#[test]
fn bridge_absent_answers_ping_locally_and_refuses_the_rest() {
    for op in ALL_OPERATIONS {
        let r = route(BackendKind::BridgeAbsent, op);
        match op {
            Operation::Ping => assert_eq!(r, Route::AnswerLocally),
            Operation::PrintEscPosNetwork => assert_eq!(r, Route::SendOverNetwork),
            _ => assert_eq!(r, Route::Unavailable),
        }
    }
}

#[test]
fn bridge_absent_ping_echoes_the_value() {
    let backend = Printerx::new();
    let response = backend
        .ping(PingRequest { value: Some(String::from("hello")) })
        .unwrap();
    assert_eq!(response.value, Some(String::from("hello")));
    let response = backend.ping(PingRequest { value: None }).unwrap();
    assert_eq!(response.value, None);
}

#[test]
fn bridge_absent_native_operations_fail_with_backend_unavailable() {
    let backend = Printerx::new();
    assert_eq!(backend.init_printer().unwrap_err().kind, ErrorKind::BackendUnavailable);
    assert_eq!(backend.scan_devices().unwrap_err().kind, ErrorKind::BackendUnavailable);
    assert_eq!(
        backend.connect_printer(String::from("aa:bb")).unwrap_err().kind,
        ErrorKind::BackendUnavailable
    );
    assert_eq!(
        backend.print_text(String::from("hi"), Some(24), Some(String::from("center")))
            .unwrap_err()
            .kind,
        ErrorKind::BackendUnavailable
    );
    assert_eq!(
        backend.print_line(String::from("hi")).unwrap_err().kind,
        ErrorKind::BackendUnavailable
    );
    assert_eq!(
        backend.print_esc_pos(String::from("1B40")).unwrap_err().kind,
        ErrorKind::BackendUnavailable
    );
    assert_eq!(backend.feed_line(3).unwrap_err().kind, ErrorKind::BackendUnavailable);
    assert_eq!(backend.cut_paper().unwrap_err().kind, ErrorKind::BackendUnavailable);
    assert_eq!(backend.open_cash_drawer().unwrap_err().kind, ErrorKind::BackendUnavailable);
    assert_eq!(backend.get_status().unwrap_err().kind, ErrorKind::BackendUnavailable);
    assert_eq!(
        backend.get_cash_drawer_status().unwrap_err().kind,
        ErrorKind::BackendUnavailable
    );
    assert_eq!(backend.get_printer_status().unwrap_err().kind, ErrorKind::BackendUnavailable);
    assert_eq!(
        backend.get_printer_info(String::from("model")).unwrap_err().kind,
        ErrorKind::BackendUnavailable
    );
    assert_eq!(
        backend.lcd_show_text(String::from("hi"), Some(2), Some(true)).unwrap_err().kind,
        ErrorKind::BackendUnavailable
    );
    assert_eq!(
        backend.start_cash_drawer_monitor(Some(500)).unwrap_err().kind,
        ErrorKind::BackendUnavailable
    );
    assert_eq!(
        backend.stop_cash_drawer_monitor().unwrap_err().kind,
        ErrorKind::BackendUnavailable
    );
    assert_eq!(backend.disconnect_printer().unwrap_err().kind, ErrorKind::BackendUnavailable);
}

#[test]
fn bridge_absent_network_print_still_works() {
    let backend = Printerx::new();
    let job = backend
        .print_esc_pos_network(String::from("127.0.0.1"), 9100, "1B40")
        .unwrap();
    assert_eq!(job.bytes, vec![0x1Bu8, 0x40]);
    assert_eq!(job.endpoint.host, "127.0.0.1");
    assert_eq!(job.endpoint.port, 9100);
}
