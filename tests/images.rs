use dockhand::error::{ErrorKind, RuntimeFailure};
use dockhand::image::{
    decode_pull_frame, details_from_image_inspect, PullAction, PullEvent, PullPhase, PullSession,
    RawImageInspect, RawPullFrame,
};
use dockhand::types::ProgressDetail;

fn frame(status: &str, id: Option<&str>, current: Option<i64>) -> RawPullFrame {
    RawPullFrame {
        status: Some(status.to_string()),
        id: id.map(|s| s.to_string()),
        error: None,
        progress_detail: current.map(|c| ProgressDetail { current: Some(c), total: Some(100) }),
    }
}

#[test]
fn image_parent_comes_from_runtime() {
    let d = details_from_image_inspect(RawImageInspect {
        id: Some("sha256:child".to_string()),
        parent: Some("sha256:parent".to_string()),
        repo_tags: Some(vec!["alpine:latest".to_string()]),
        created: Some("2024-01-01".to_string()),
        size: Some(7_000_000),
        author: None,
    });
    assert_eq!(d.id.as_deref(), Some("sha256:child"));
    assert_eq!(d.parent_id.as_deref(), Some("sha256:parent"));
    assert_eq!(d.repo_tags.unwrap(), vec!["alpine:latest".to_string()]);
    assert_eq!(d.size, Some(7_000_000));
    assert!(d.author.is_none());
}

#[test]
fn empty_image_inspection_maps_to_unset_fields() {
    let d = details_from_image_inspect(RawImageInspect {
        id: None,
        parent: None,
        repo_tags: None,
        created: None,
        size: None,
        author: None,
    });
    assert!(d.id.is_none() && d.parent_id.is_none() && d.repo_tags.is_none());
    assert!(d.created.is_none() && d.size.is_none() && d.author.is_none());
}

#[test]
fn decodes_progress_frame() {
    let p = decode_pull_frame("alpine:latest", frame("Downloading", Some("layer1"), Some(40))).unwrap();
    assert_eq!(p.status, "Downloading");
    assert_eq!(p.id.as_deref(), Some("layer1"));
    assert_eq!(p.progress_detail, Some(ProgressDetail { current: Some(40), total: Some(100) }));
}

#[test]
fn frame_without_optional_fields_keeps_them_unset() {
    let p = decode_pull_frame("alpine", frame("Pulling fs layer", None, None)).unwrap();
    assert!(p.id.is_none() && p.progress_detail.is_none());
}

#[test]
fn frame_without_status_is_runtime_error() {
    let raw = RawPullFrame { status: None, id: None, error: None, progress_detail: None };
    let e = decode_pull_frame("alpine", raw).unwrap_err();
    assert_eq!(e.kind(), ErrorKind::RuntimeError);
    assert_eq!(e.message(), "pull image 'alpine': progress frame without status");
}

#[test]
fn error_frame_is_runtime_error() {
    let raw = RawPullFrame {
        status: Some("Downloading".to_string()),
        id: None,
        error: Some("repository does not exist".to_string()),
        progress_detail: None,
    };
    let e = decode_pull_frame("nope:1", raw).unwrap_err();
    assert_eq!(e.kind(), ErrorKind::RuntimeError);
    assert_eq!(e.message(), "pull image 'nope:1': repository does not exist");
}

#[test]
fn clean_pull_delivers_events_in_order() {
    let mut s = PullSession::new("alpine:latest");
    let statuses = ["Pulling from library/alpine", "Downloading", "Pull complete"];
    let mut seen = Vec::new();
    for st in statuses {
        match s.step(PullEvent::Frame(frame(st, None, None))) {
            PullAction::Deliver(p) => seen.push(p.status),
            other => panic!("unexpected {:?}", other),
        }
    }
    assert!(!s.is_finished());
    assert!(matches!(s.step(PullEvent::StreamEnded), PullAction::Complete));
    assert_eq!(s.phase, PullPhase::Completed);
    assert_eq!(seen, statuses.iter().map(|s| s.to_string()).collect::<Vec<_>>());
    assert!(matches!(s.step(PullEvent::Frame(frame("late", None, None))), PullAction::Ignore));
}

#[test]
fn cancel_releases_stream_and_silences_later_events() {
    let mut s = PullSession::new("alpine:latest");
    assert!(matches!(s.step(PullEvent::Frame(frame("Downloading", None, None))), PullAction::Deliver(_)));
    assert!(matches!(s.step(PullEvent::CancelRequested), PullAction::Release));
    assert!(s.is_finished());
    assert_eq!(s.phase, PullPhase::Cancelled);
    assert!(matches!(s.step(PullEvent::Frame(frame("Downloading", None, None))), PullAction::Ignore));
    assert!(matches!(s.step(PullEvent::StreamEnded), PullAction::Ignore));
    assert_eq!(s.phase, PullPhase::Cancelled);
}

#[test]
fn stream_failure_aborts_with_classified_error() {
    let mut s = PullSession::new("ghost:1");
    let failure = RuntimeFailure { status_code: Some(404), message: "pull access denied".to_string() };
    match s.step(PullEvent::StreamFailed(failure)) {
        PullAction::Abort(e) => {
            assert_eq!(e.kind(), ErrorKind::NotFound);
            assert_eq!(e.message(), "pull image 'ghost:1': pull access denied");
        }
        other => panic!("unexpected {:?}", other),
    }
    assert_eq!(s.phase, PullPhase::Failed);
}

#[test]
fn undecodable_frame_aborts_pull() {
    let mut s = PullSession::new("alpine");
    let raw = RawPullFrame { status: None, id: None, error: None, progress_detail: None };
    assert!(matches!(s.step(PullEvent::StreamEnded), PullAction::Complete));
    let mut s2 = PullSession::new("alpine");
    match s2.step(PullEvent::Frame(raw)) {
        PullAction::Abort(e) => assert_eq!(e.kind(), ErrorKind::RuntimeError),
        other => panic!("unexpected {:?}", other),
    }
    assert_eq!(s2.phase, PullPhase::Failed);
    assert_eq!(s.phase, PullPhase::Completed);
}
