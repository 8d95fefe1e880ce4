use printerx::error::{ErrorKind, PrinterError, TransportStage};
use printerx::transport::{finish_raw_network_print, plan_raw_network_print, SendOutcome};

#[test]
fn plan_decodes_payload_for_the_endpoint() {
    let job = plan_raw_network_print(String::from("127.0.0.1"), 9100, "1B40").unwrap();
    assert_eq!(job.bytes, vec![0x1Bu8, 0x40]);
    assert_eq!(job.endpoint.host, "127.0.0.1");
    assert_eq!(job.endpoint.port, 9100);
}

#[test]
fn plan_rejects_odd_hex_before_any_socket() {
    let err = plan_raw_network_print(String::from("127.0.0.1"), 9100, "1B4").unwrap_err();
    assert_eq!(err.kind, ErrorKind::InvalidHex);
}

#[test]
fn delivered_outcome_is_the_only_success() {
    assert!(finish_raw_network_print(SendOutcome::Delivered).is_ok());
}

#[test]
fn connect_failure_maps_to_connect_failed() {
    let err = finish_raw_network_print(SendOutcome::Failed {
        stage: TransportStage::Connect,
        timed_out: false,
        detail: String::from("connection refused"),
    })
    .unwrap_err();
    assert_eq!(err.kind, ErrorKind::ConnectFailed);
    assert_eq!(err.message, "connection refused");
}

#[test]
fn write_failure_maps_to_write_failed() {
    let err = finish_raw_network_print(SendOutcome::Failed {
        stage: TransportStage::Write,
        timed_out: false,
        detail: String::from("broken pipe"),
    })
    .unwrap_err();
    assert_eq!(err.kind, ErrorKind::WriteFailed);
    assert_eq!(err.message, "broken pipe");
}

#[test]
fn flush_failure_maps_to_flush_failed() {
    let err = finish_raw_network_print(SendOutcome::Failed {
        stage: TransportStage::Flush,
        timed_out: false,
        detail: String::from("flush interrupted"),
    })
    .unwrap_err();
    assert_eq!(err.kind, ErrorKind::FlushFailed);
    assert_eq!(err.message, "flush interrupted");
}

#[test]
fn timeout_is_its_own_kind_at_every_stage() {
    for stage in [TransportStage::Connect, TransportStage::Write, TransportStage::Flush] {
        let err = finish_raw_network_print(SendOutcome::Failed {
            stage,
            timed_out: true,
            detail: String::from("timed out"),
        })
        .unwrap_err();
        assert_eq!(err.kind, ErrorKind::Timeout);
    }
}

#[test]
fn adapter_failure_maps_to_adapter_error() {
    let err = PrinterError::from_adapter_failure(String::from("bridge dropped the call"));
    assert_eq!(err.kind, ErrorKind::AdapterError);
    assert_eq!(err.message, "bridge dropped the call");
}

#[test]
fn backend_unavailable_has_a_stable_kind() {
    let err = PrinterError::backend_unavailable();
    assert_eq!(err.kind, ErrorKind::BackendUnavailable);
    assert!(!err.message.is_empty());
}
