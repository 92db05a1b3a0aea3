//! Tests of the line transport's state and line handling.

use k8s_mcp::mcp::transport::{trim_end, LineOutcome, SyncStdioTransport};

#[test]
fn test_sync_stdio_transport_new() {
    let transport = SyncStdioTransport::new();
    let _ = transport;
}

#[test]
fn test_sync_stdio_transport_default() {
    let transport = SyncStdioTransport::default();
    let _ = transport;
}

#[test]
fn test_sync_stdio_transport_close() {
    let mut transport = SyncStdioTransport::new();
    transport.close().unwrap();
}

#[test]
fn test_sync_stdio_transport_close_idempotent() {
    let mut transport = SyncStdioTransport::new();

    transport.close().unwrap();
    transport.close().unwrap();
    transport.close().unwrap();
}

#[test]
fn test_sync_stdio_transport_send_after_close() {
    let mut transport = SyncStdioTransport::new();
    transport.close().unwrap();

    let result = transport.check_send();
    assert!(result.is_err());
}

#[test]
fn test_sync_stdio_transport_receive_after_close() {
    let mut transport = SyncStdioTransport::new();
    transport.close().unwrap();

    assert!(transport.is_closed());
}

#[test]
fn test_accept_line_trims_and_skips() {
    let mut transport = SyncStdioTransport::new();
    match transport.accept_line(13, "test message\n") {
        LineOutcome::Message(m) => assert_eq!(m, "test message"),
        _ => panic!("expected a message"),
    }
    assert!(matches!(transport.accept_line(1, "\n"), LineOutcome::Skip));
    assert!(matches!(transport.accept_line(3, " \t\n"), LineOutcome::Skip));
    assert!(!transport.is_closed());
    assert!(matches!(transport.accept_line(0, ""), LineOutcome::Eof));
    assert!(transport.is_closed());
}

#[test]
fn test_trim_end_unicode_space() {
    assert_eq!(trim_end("héllo wörld\u{3000} \r\n"), "héllo wörld");
    assert_eq!(trim_end("  lead"), "  lead");
}
