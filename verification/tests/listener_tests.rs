use post_build_hook_queue::listener::{listener_step, ListenerStep, RecvOutcome};
use post_build_hook_queue::logevent::{LogKind, LogLevel};
use post_build_hook_queue::outcome::ProcessOutcome;
use post_build_hook_queue::processor::{TaskAction, TaskDisposition, TaskProcessor};
use post_build_hook_queue::config::DaemonConfig;
use post_build_hook_queue::RECV_BUFFER_SIZE;

fn buffer_with(payload: &[u8]) -> Vec<u8> {
    let mut buf = vec![0u8; RECV_BUFFER_SIZE];
    buf[..payload.len()].copy_from_slice(payload);
    buf
}

#[test]
fn received_payload_is_enqueued_whole_and_in_order() {
    let buf = buffer_with(b"/nix/store/abc");
    match listener_step(&buf, RecvOutcome::Data(14)) {
        ListenerStep::Enqueue(task, logs) => {
            assert_eq!(task.path.bytes().as_slice(), b"/nix/store/abc");
            assert!(!task.path.is_possibly_truncated());
            assert_eq!(logs.len(), 1);
            assert_eq!(logs[0].kind, LogKind::TaskReceived);
        }
        _ => panic!("a datagram always becomes a task"),
    }
}

#[test]
fn buffer_filling_message_warns_but_still_proceeds() {
    // A 4096-byte message fills the buffer: a truncation warning is logged,
    // and the task still runs through signing and upload with that path.
    let payload = vec![b'p'; RECV_BUFFER_SIZE];
    let buf = buffer_with(&payload);
    let (task, logs) = match listener_step(&buf, RecvOutcome::Data(RECV_BUFFER_SIZE)) {
        ListenerStep::Enqueue(task, logs) => (task, logs),
        _ => panic!("a possibly truncated message is never dropped"),
    };
    assert!(task.path.is_possibly_truncated());
    assert_eq!(logs.len(), 2);
    assert_eq!(logs[1].kind, LogKind::PossiblyTruncated);
    assert_eq!(logs[1].level, LogLevel::Warning);

    let config = DaemonConfig::new(
        b"nix".to_vec(),
        Some(b"key".to_vec()),
        Some(b"dst".to_vec()),
    );
    let (mut p, step) = TaskProcessor::start(task, config);
    match step.action {
        TaskAction::InvokeSigning(c) => assert_eq!(c.args[4], payload),
        _ => panic!("the possibly truncated path still goes through signing"),
    }
    let step = p.on_signing_ended(ProcessOutcome::Completed(Some(0)));
    assert!(matches!(step.action, TaskAction::PlaceMarker(_)));
    let step = p.on_marker_placed();
    match step.action {
        TaskAction::InvokeUpload(c) => assert_eq!(c.args[3], payload),
        _ => panic!("the possibly truncated path still goes through upload"),
    }
    let _ = p.on_upload_ended(ProcessOutcome::Completed(Some(0)));
    let step = p.on_marker_cleared(true);
    assert!(matches!(
        step.action,
        TaskAction::Done(TaskDisposition::UploadEnded(ProcessOutcome::Completed(Some(0))))
    ));
}

#[test]
fn end_of_input_shuts_down_cleanly() {
    let buf = vec![0u8; RECV_BUFFER_SIZE];
    match listener_step(&buf, RecvOutcome::NoMoreData) {
        ListenerStep::Shutdown(code, log) => {
            assert_eq!(code, 0);
            assert_eq!(log.kind, LogKind::ShutdownStarted);
        }
        _ => panic!("no pending data means clean shutdown"),
    }
}

#[test]
fn channel_failure_shuts_down_with_error() {
    let buf = vec![0u8; RECV_BUFFER_SIZE];
    match listener_step(&buf, RecvOutcome::Failed) {
        ListenerStep::Shutdown(code, log) => {
            assert_eq!(code, 1);
            assert_eq!(log.kind, LogKind::ReceiveFailed);
            assert_eq!(log.level, LogLevel::Error);
        }
        _ => panic!("a channel failure means shutdown with exit code 1"),
    }
}
