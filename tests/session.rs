use yew_webtransport::{
    SessionState, TransportSignal, WebTransportError, WebTransportService, WebTransportStatus,
};

fn open_session() -> yew_webtransport::WebTransportTask {
    WebTransportService::connect("https://example.org:4433", Ok(())).unwrap()
}

#[test]
fn connect_rejected_handshake_is_creation_error() {
    let r = WebTransportService::connect(
        "https://rejecting.example:4433",
        Err("SyntaxError: handshake rejected".to_string()),
    );
    match r {
        Err(WebTransportError::CreationError(m)) => {
            assert!(m.contains("SyntaxError: handshake rejected"));
            assert_eq!(m, "Failed to create WebTransport: SyntaxError: handshake rejected");
        }
        Ok(_) => panic!("a rejected handshake must not give a session"),
    }
}

#[test]
fn creation_error_message_is_its_text() {
    let e = WebTransportError::CreationError("boom".to_string());
    assert_eq!(e.message(), "boom");
}

#[test]
fn connect_success_starts_connecting() {
    let task = open_session();
    assert_eq!(task.address(), "https://example.org:4433");
    assert_eq!(task.state(), &SessionState::Connecting);
    assert!(!task.close_requested());
}

#[test]
fn opened_once_before_closed() {
    let mut task = open_session();
    assert_eq!(task.on_signal(TransportSignal::Ready), Some(WebTransportStatus::Opened));
    assert_eq!(task.state(), &SessionState::Open);
    assert_eq!(task.on_signal(TransportSignal::Ready), None);
    assert_eq!(
        task.on_signal(TransportSignal::Closed("bye".to_string())),
        Some(WebTransportStatus::Closed("bye".to_string()))
    );
    assert_eq!(task.state(), &SessionState::Closed("bye".to_string()));
    assert_eq!(task.on_signal(TransportSignal::Ready), None);
    assert_eq!(task.on_signal(TransportSignal::Failed("late".to_string())), None);
}

#[test]
fn ready_rejected_reports_error() {
    let mut task = open_session();
    assert_eq!(
        task.on_signal(TransportSignal::ReadyFailed("refused".to_string())),
        Some(WebTransportStatus::Error("refused".to_string()))
    );
    assert_eq!(task.state(), &SessionState::Errored("refused".to_string()));
    assert_eq!(task.on_signal(TransportSignal::Ready), None);
}

#[test]
fn close_before_ready_is_an_error() {
    let mut task = open_session();
    assert_eq!(
        task.on_signal(TransportSignal::Closed("gone".to_string())),
        Some(WebTransportStatus::Error("gone".to_string()))
    );
    assert_eq!(task.on_signal(TransportSignal::Ready), None);
}

#[test]
fn failure_while_open_reports_error() {
    let mut task = open_session();
    task.on_signal(TransportSignal::Ready);
    assert_eq!(
        task.on_signal(TransportSignal::Failed("reset".to_string())),
        Some(WebTransportStatus::Error("reset".to_string()))
    );
    assert_eq!(task.state(), &SessionState::Errored("reset".to_string()));
}

#[test]
fn disconnect_requests_close_once() {
    let mut task = open_session();
    assert!(task.disconnect());
    assert!(task.close_requested());
    assert!(!task.disconnect());
    task.on_signal(TransportSignal::Ready);
    assert!(!task.disconnect());
}

#[test]
fn disconnect_after_close_is_noop() {
    let mut task = open_session();
    task.on_signal(TransportSignal::Ready);
    task.on_signal(TransportSignal::Closed("remote".to_string()));
    assert!(!task.disconnect());
    assert!(!task.close_requested());
}
