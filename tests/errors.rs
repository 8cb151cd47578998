use dockhand::error::{classify_failure, describe, runtime_error, settle, ErrorKind, RuntimeFailure};
use dockhand::text::{contains_text, join_with_spaces, render_decimal, trim_leading_separators};

fn failure(code: Option<u16>, message: &str) -> RuntimeFailure {
    RuntimeFailure { status_code: code, message: message.to_string() }
}

#[test]
fn describe_names_operation_and_target() {
    assert_eq!(describe("stop container", "web", "boom"), "stop container 'web': boom");
}

#[test]
fn status_404_is_not_found() {
    let e = classify_failure("inspect container", "ghost", &failure(Some(404), "whatever"));
    assert_eq!(e.kind(), ErrorKind::NotFound);
    assert_eq!(e.message(), "inspect container 'ghost': whatever");
}

#[test]
fn no_such_message_is_not_found() {
    let e = classify_failure("inspect container", "ghost", &failure(None, "No such container: ghost"));
    assert_eq!(e.kind(), ErrorKind::NotFound);
}

#[test]
fn missing_container_on_inspect_is_never_runtime_error() {
    let e = classify_failure(
        "inspect container",
        "ghost",
        &failure(Some(404), "Docker responded with status code 404: No such container: ghost"),
    );
    assert_ne!(e.kind(), ErrorKind::RuntimeError);
    assert_eq!(e.kind(), ErrorKind::NotFound);
}

#[test]
fn status_403_is_permission_denied() {
    let e = classify_failure("kill container", "web", &failure(Some(403), "forbidden"));
    assert_eq!(e.kind(), ErrorKind::PermissionDenied);
}

#[test]
fn permission_denied_message_is_permission_denied() {
    let e = classify_failure(
        "start container",
        "web",
        &failure(None, "dial unix /var/run/docker.sock: connect: permission denied"),
    );
    assert_eq!(e.kind(), ErrorKind::PermissionDenied);
}

#[test]
fn not_found_wins_over_permission_denied() {
    let e = classify_failure("remove container", "web", &failure(Some(403), "No such container: web"));
    assert_eq!(e.kind(), ErrorKind::NotFound);
}

#[test]
fn other_failure_is_runtime_error() {
    let e = classify_failure("stop container", "web", &failure(Some(500), "server exploded"));
    assert_eq!(e.kind(), ErrorKind::RuntimeError);
    assert_eq!(e.message(), "stop container 'web': server exploded");
}

#[test]
fn listing_failure_is_always_runtime_error() {
    let e = runtime_error("list containers", "", &failure(Some(404), "No such thing"));
    assert_eq!(e.kind(), ErrorKind::RuntimeError);
    assert_eq!(e.message(), "list containers '': No such thing");
}

#[test]
fn settle_keeps_success() {
    assert!(settle("remove image", "alpine", Ok(())).is_ok());
}

#[test]
fn remove_failure_is_propagated() {
    let r = settle("remove image", "alpine", Err(failure(Some(409), "image is being used")));
    let e = r.unwrap_err();
    assert_eq!(e.kind(), ErrorKind::RuntimeError);
    assert_eq!(e.message(), "remove image 'alpine': image is being used");
}

#[test]
fn prune_failure_is_propagated() {
    let r = settle("prune images", "", Err(failure(None, "a prune operation is already running")));
    assert!(r.is_err());
}

#[test]
fn contains_text_finds_and_misses() {
    assert!(contains_text("abc No such def", "No such"));
    assert!(contains_text("abc", ""));
    assert!(!contains_text("No suc", "No such"));
    assert!(!contains_text("", "x"));
}

#[test]
fn trims_every_leading_separator() {
    assert_eq!(trim_leading_separators("/web"), "web");
    assert_eq!(trim_leading_separators("//web/x"), "web/x");
    assert_eq!(trim_leading_separators("web"), "web");
    assert_eq!(trim_leading_separators("///"), "");
}

#[test]
fn joins_arguments_with_spaces() {
    let parts = vec!["nginx".to_string(), "-g".to_string(), "daemon off;".to_string()];
    assert_eq!(join_with_spaces(&parts), "nginx -g daemon off;");
    assert_eq!(join_with_spaces(&vec![]), "");
    assert_eq!(join_with_spaces(&vec!["one".to_string()]), "one");
}

#[test]
fn renders_decimal_numbers() {
    assert_eq!(render_decimal(0), "0");
    assert_eq!(render_decimal(7), "7");
    assert_eq!(render_decimal(80), "80");
    assert_eq!(render_decimal(8080), "8080");
    assert_eq!(render_decimal(65535), "65535");
}
