use post_build_hook_queue::config::DaemonConfig;
use post_build_hook_queue::logevent::{LogKind, LogLevel};
use post_build_hook_queue::outcome::ProcessOutcome;
use post_build_hook_queue::processor::{TaskAction, TaskDisposition, TaskProcessor};
use post_build_hook_queue::task::{ArtifactPath, Task};

fn task(bytes: &[u8]) -> Task {
    Task::new(ArtifactPath::new(bytes.to_vec()))
}

#[test]
fn upload_only_config_uploads_exactly_once_without_signing() {
    // No signing key, an upload destination: exactly one upload invocation
    // with the received path, and no signing invocation.
    let config = DaemonConfig::new(b"nix".to_vec(), None, Some(b"s3://cache".to_vec()));
    let (mut p, step) = TaskProcessor::start(task(b"/store/abc-pkg"), config);
    let marker = match step.action {
        TaskAction::PlaceMarker(name) => name,
        _ => panic!("with a destination and a conforming path, the marker is placed first"),
    };
    assert_eq!(marker.as_slice(), b"pkg");

    let step = p.on_marker_placed();
    match step.action {
        TaskAction::InvokeUpload(c) => {
            assert_eq!(c.program.as_slice(), b"nix");
            let want: Vec<Vec<u8>> = vec![
                b"copy".to_vec(),
                b"--to".to_vec(),
                b"s3://cache".to_vec(),
                b"/store/abc-pkg".to_vec(),
            ];
            assert_eq!(c.args, want);
            assert_eq!(c.timeout_secs, 600);
        }
        _ => panic!("the upload must spawn after the marker is placed"),
    }

    let step = p.on_upload_ended(ProcessOutcome::Completed(Some(0)));
    match step.action {
        TaskAction::ClearMarker(name) => assert_eq!(name.as_slice(), b"pkg"),
        _ => panic!("the marker is cleared unconditionally after the upload"),
    }
    let step = p.on_marker_cleared(true);
    assert!(matches!(
        step.action,
        TaskAction::Done(TaskDisposition::UploadEnded(ProcessOutcome::Completed(Some(0))))
    ));
    assert!(step.logs.is_empty());
}

#[test]
fn signing_failure_prevents_upload() {
    // A key and a destination; signing exits non-zero: one signing
    // invocation, zero upload invocations, a warning logged.
    let config = DaemonConfig::new(
        b"nix".to_vec(),
        Some(b"/etc/keys/cache.sk".to_vec()),
        Some(b"s3://cache".to_vec()),
    );
    let (mut p, step) = TaskProcessor::start(task(b"/store/def-pkg"), config);
    match step.action {
        TaskAction::InvokeSigning(c) => {
            assert_eq!(c.program.as_slice(), b"nix");
            let want: Vec<Vec<u8>> = vec![
                b"store".to_vec(),
                b"sign".to_vec(),
                b"--key-file".to_vec(),
                b"/etc/keys/cache.sk".to_vec(),
                b"/store/def-pkg".to_vec(),
            ];
            assert_eq!(c.args, want);
            assert_eq!(c.timeout_secs, 60);
        }
        _ => panic!("with a key configured the first action is the signing invocation"),
    }

    let step = p.on_signing_ended(ProcessOutcome::Completed(Some(1)));
    assert!(matches!(step.action, TaskAction::Done(TaskDisposition::AbandonedUnsigned)));
    assert_eq!(step.logs.len(), 1);
    assert_eq!(step.logs[0].kind, LogKind::NotSignedSkipping);
    assert_eq!(step.logs[0].level, LogLevel::Warning);
}

#[test]
fn signing_timeout_prevents_upload() {
    let config = DaemonConfig::new(
        b"nix".to_vec(),
        Some(b"key".to_vec()),
        Some(b"dst".to_vec()),
    );
    let (mut p, _) = TaskProcessor::start(task(b"/nix/store/zzz"), config);
    let step = p.on_signing_ended(ProcessOutcome::TimedOut);
    assert!(matches!(step.action, TaskAction::Done(TaskDisposition::AbandonedUnsigned)));
}

#[test]
fn signing_success_without_destination_finishes_signed_only() {
    let config = DaemonConfig::new(b"nix".to_vec(), Some(b"key".to_vec()), None);
    let (mut p, _) = TaskProcessor::start(task(b"/nix/store/abc"), config);
    let step = p.on_signing_ended(ProcessOutcome::Completed(Some(0)));
    assert!(matches!(step.action, TaskAction::Done(TaskDisposition::SignedOnly)));
}

#[test]
fn nothing_configured_is_a_receipt_only_noop() {
    let config = DaemonConfig::new(b"nix".to_vec(), None, None);
    let (_, step) = TaskProcessor::start(task(b"/nix/store/abc"), config);
    assert!(matches!(step.action, TaskAction::Done(TaskDisposition::NothingConfigured)));
}

#[test]
fn short_path_skips_the_marker_but_still_uploads() {
    // A path shorter than the store-root prefix yields no marker name; the
    // upload proceeds without marker bookkeeping.
    let config = DaemonConfig::new(b"nix".to_vec(), None, Some(b"dst".to_vec()));
    let (mut p, step) = TaskProcessor::start(task(b"short"), config);
    match step.action {
        TaskAction::InvokeUpload(c) => {
            let want: Vec<Vec<u8>> =
                vec![b"copy".to_vec(), b"--to".to_vec(), b"dst".to_vec(), b"short".to_vec()];
            assert_eq!(c.args, want);
        }
        _ => panic!("a non-conforming path goes straight to the upload"),
    }
    let step = p.on_upload_ended(ProcessOutcome::TimedOut);
    assert!(matches!(
        step.action,
        TaskAction::Done(TaskDisposition::UploadEnded(ProcessOutcome::TimedOut))
    ));
}

#[test]
fn marker_cleared_after_upload_failure_and_timeout_alike() {
    for outcome in [
        ProcessOutcome::Completed(Some(1)),
        ProcessOutcome::TimedOut,
        ProcessOutcome::SpawnFailed(String::from("no such file")),
    ] {
        let config = DaemonConfig::new(b"nix".to_vec(), None, Some(b"dst".to_vec()));
        let (mut p, _) = TaskProcessor::start(task(b"/nix/store/abc"), config);
        let _ = p.on_marker_placed();
        let step = p.on_upload_ended(outcome);
        assert!(
            matches!(step.action, TaskAction::ClearMarker(_)),
            "the marker is cleared whatever the upload outcome was"
        );
    }
}

#[test]
fn failed_marker_removal_is_logged_not_fatal() {
    let config = DaemonConfig::new(b"nix".to_vec(), None, Some(b"dst".to_vec()));
    let (mut p, _) = TaskProcessor::start(task(b"/nix/store/abc"), config);
    let _ = p.on_marker_placed();
    let _ = p.on_upload_ended(ProcessOutcome::Completed(Some(0)));
    let step = p.on_marker_cleared(false);
    assert!(matches!(
        step.action,
        TaskAction::Done(TaskDisposition::UploadEnded(ProcessOutcome::Completed(Some(0))))
    ));
    assert_eq!(step.logs.len(), 1);
    assert_eq!(step.logs[0].kind, LogKind::MarkerRemovalFailed);
    assert_eq!(step.logs[0].level, LogLevel::Warning);
}
