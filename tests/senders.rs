use yew_webtransport::{
    ChannelReader, ReadOutcome, ReaderAction, ReaderKind, SendError, SendKind, SendOperation,
    SendStep, WebTransportService, WebTransportTask,
};

fn run_all_ok(op: &mut SendOperation) -> Vec<SendStep> {
    let mut steps = Vec::new();
    while let Some(step) = op.next_step() {
        steps.push(step);
        op.complete_step(Ok(()));
    }
    steps
}

#[test]
fn datagram_send_acquires_writes_releases() {
    let mut op = WebTransportTask::send_datagram(b"hi".to_vec());
    assert_eq!(op.payload(), &b"hi".to_vec());
    assert_eq!(op.outcome(), None);
    assert_eq!(
        run_all_ok(&mut op),
        vec![SendStep::AcquireWriter, SendStep::WritePayload, SendStep::ReleaseWriter]
    );
    assert_eq!(op.outcome(), Some(Ok(())));
}

#[test]
fn datagram_write_failure_still_releases() {
    let mut op = WebTransportTask::send_datagram(b"hi".to_vec());
    op.complete_step(Ok(()));
    assert_eq!(op.next_step(), Some(SendStep::WritePayload));
    op.complete_step(Err("write failed".to_string()));
    assert_eq!(op.next_step(), Some(SendStep::ReleaseWriter));
    assert_eq!(op.outcome(), None);
    op.complete_step(Ok(()));
    assert_eq!(op.next_step(), None);
    assert_eq!(
        op.outcome(),
        Some(Err(SendError { step: SendStep::WritePayload, detail: "write failed".to_string() }))
    );
}

#[test]
fn datagram_acquire_failure_ends_send() {
    let mut op = SendOperation::new(SendKind::Datagram, vec![1, 2]);
    op.complete_step(Err("locked".to_string()));
    assert_eq!(op.next_step(), None);
    assert_eq!(
        op.outcome(),
        Some(Err(SendError { step: SendStep::AcquireWriter, detail: "locked".to_string() }))
    );
}

#[test]
fn unidirectional_send_plan() {
    let mut op = WebTransportTask::send_unidirectional_stream(b"data".to_vec());
    assert_eq!(
        run_all_ok(&mut op),
        vec![
            SendStep::OpenStream,
            SendStep::AcquireWriter,
            SendStep::WritePayload,
            SendStep::ReleaseWriter,
            SendStep::CloseStream,
        ]
    );
    assert_eq!(op.outcome(), Some(Ok(())));
}

#[test]
fn unidirectional_failure_aborts_rest() {
    let mut op = WebTransportTask::send_unidirectional_stream(b"data".to_vec());
    op.complete_step(Ok(()));
    op.complete_step(Ok(()));
    op.complete_step(Err("reset".to_string()));
    assert_eq!(op.next_step(), None);
    assert_eq!(
        op.outcome(),
        Some(Err(SendError { step: SendStep::WritePayload, detail: "reset".to_string() }))
    );
}

#[test]
fn bidirectional_echo_ping() {
    let mut task: WebTransportTask =
        WebTransportService::connect("https://echo.example:4433", Ok(())).unwrap();
    let mut op = WebTransportTask::send_bidirectional_stream(b"ping".to_vec());
    let mut drain: Option<ChannelReader<Vec<u8>>> = None;
    let mut wire: Vec<u8> = Vec::new();
    let mut responses: Vec<Vec<u8>> = Vec::new();
    while let Some(step) = op.next_step() {
        match step {
            SendStep::StartResponseDrain => drain = Some(ChannelReader::new(ReaderKind::StreamData)),
            SendStep::WritePayload => wire.extend_from_slice(op.payload()),
            SendStep::AwaitResponseDrain => {
                assert!(responses.is_empty());
                let reader = drain.as_mut().unwrap();
                let echoed = ReadOutcome::Item { done: false, value: Some(wire.clone()) };
                if let ReaderAction::Deliver(v) = reader.step(&mut task, echoed) {
                    responses.push(v);
                }
                let end = ReadOutcome::Item { done: true, value: None };
                assert_eq!(reader.step(&mut task, end), ReaderAction::Stop);
                assert!(!reader.is_running());
            }
            _ => {}
        }
        assert_eq!(op.outcome(), None);
        op.complete_step(Ok(()));
    }
    assert_eq!(responses, vec![b"ping".to_vec()]);
    assert_eq!(op.outcome(), Some(Ok(())));
}

#[test]
fn bidirectional_send_plan() {
    let mut op = SendOperation::new(SendKind::BidirectionalStream, Vec::new());
    assert_eq!(
        run_all_ok(&mut op),
        vec![
            SendStep::OpenStream,
            SendStep::StartResponseDrain,
            SendStep::AcquireWriter,
            SendStep::WritePayload,
            SendStep::CloseWriter,
            SendStep::AwaitResponseDrain,
        ]
    );
}
