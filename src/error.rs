//! The failure taxonomy and the one place where runtime failures are classified.

use vstd::prelude::*;
use crate::text::{contains_text, occurs_in};

verus! {

/// The category of a failure, without its message.
#[derive(PartialEq, Eq, Structural, Clone, Copy, Debug)]
pub enum ErrorKind {
    NotFound,
    PermissionDenied,
    RuntimeError,
    ValidationError,
}

/// A failure reported to callers. Each message names the operation and,
/// where there is one, its target.
#[derive(Debug)]
pub enum CommandError {
    /// The target resource does not exist.
    NotFound(String),
    /// The runtime refused the operation for lack of authorization.
    PermissionDenied(String),
    /// A transport or decode failure, or any unclassified runtime rejection.
    RuntimeError(String),
    /// Input supplied by the caller is malformed.
    ValidationError(String),
}

impl CommandError {
    pub open spec fn kind_spec(&self) -> ErrorKind {
        match self {
            CommandError::NotFound(_) => ErrorKind::NotFound,
            CommandError::PermissionDenied(_) => ErrorKind::PermissionDenied,
            CommandError::RuntimeError(_) => ErrorKind::RuntimeError,
            CommandError::ValidationError(_) => ErrorKind::ValidationError,
        }
    }

    pub open spec fn message_view(&self) -> Seq<char> {
        match self {
            CommandError::NotFound(m) => m@,
            CommandError::PermissionDenied(m) => m@,
            CommandError::RuntimeError(m) => m@,
            CommandError::ValidationError(m) => m@,
        }
    }

    /// The category of this failure.
    pub fn kind(&self) -> (r: ErrorKind)
        ensures
            r == self.kind_spec(),
    {
        match self {
            CommandError::NotFound(_) => ErrorKind::NotFound,
            CommandError::PermissionDenied(_) => ErrorKind::PermissionDenied,
            CommandError::RuntimeError(_) => ErrorKind::RuntimeError,
            CommandError::ValidationError(_) => ErrorKind::ValidationError,
        }
    }

    /// The human-readable message of this failure.
    pub fn message(&self) -> (r: String)
        ensures
            r@ == self.message_view(),
    {
        match self {
            CommandError::NotFound(m) => m.clone(),
            CommandError::PermissionDenied(m) => m.clone(),
            CommandError::RuntimeError(m) => m.clone(),
            CommandError::ValidationError(m) => m.clone(),
        }
    }
}

/// A failure as the runtime reported it: the HTTP status code where the
/// transport exposes one, and the runtime's message.
#[derive(Debug)]
pub struct RuntimeFailure {
    pub status_code: Option<u16>,
    pub message: String,
}

/// The runtime says that the named resource does not exist.
pub open spec fn reports_not_found(f: RuntimeFailure) -> bool {
    f.status_code == Some(404u16) || occurs_in(f.message@, "No such"@)
}

/// The runtime says that the caller is not authorized.
pub open spec fn reports_denied(f: RuntimeFailure) -> bool {
    f.status_code == Some(401u16) || f.status_code == Some(403u16) || occurs_in(
        f.message@,
        "permission denied"@,
    )
}

/// The category that a runtime failure falls into: not-found is checked
/// first, then authorization, and anything else is a runtime error.
pub open spec fn classified_kind(f: RuntimeFailure) -> ErrorKind {
    if reports_not_found(f) {
        ErrorKind::NotFound
    } else if reports_denied(f) {
        ErrorKind::PermissionDenied
    } else {
        ErrorKind::RuntimeError
    }
}

/// The message of a failure: `<operation> '<target>': <detail>`.
pub open spec fn described(op: Seq<char>, target: Seq<char>, detail: Seq<char>) -> Seq<char> {
    op + " '"@ + target + "': "@ + detail
}

/// Renders `<operation> '<target>': <detail>`.
pub fn describe(op: &str, target: &str, detail: &str) -> (r: String)
    ensures
        r@ == described(op@, target@, detail@),
{
    let mut r = String::from_str(op);
    r.append(" '");
    r.append(target);
    r.append("': ");
    r.append(detail);
    r
}

/// Classifies a failure of `operation` on `target` as the runtime reported it.
pub fn classify_failure(operation: &str, target: &str, failure: &RuntimeFailure) -> (r:
    CommandError)
    ensures
        r.kind_spec() == classified_kind(*failure),
        r.message_view() == described(operation@, target@, failure.message@),
{
    let msg = describe(operation, target, failure.message.as_str());
    let not_found = failure.status_code == Some(404u16) || contains_text(
        failure.message.as_str(),
        "No such",
    );
    if not_found {
        return CommandError::NotFound(msg);
    }
    let denied = failure.status_code == Some(401u16) || failure.status_code == Some(403u16)
        || contains_text(failure.message.as_str(), "permission denied");
    if denied {
        CommandError::PermissionDenied(msg)
    } else {
        CommandError::RuntimeError(msg)
    }
}

/// A failure of `operation` on `target` reported as a runtime error,
/// whatever the runtime said (used where no finer category applies, such
/// as a listing).
pub fn runtime_error(operation: &str, target: &str, failure: &RuntimeFailure) -> (r:
    CommandError)
    ensures
        r.kind_spec() == ErrorKind::RuntimeError,
        r.message_view() == described(operation@, target@, failure.message@),
{
    CommandError::RuntimeError(describe(operation, target, failure.message.as_str()))
}

/// The result of a runtime call that returns nothing on success: success
/// stays success, and every failure is classified and handed on.
pub fn settle(operation: &str, target: &str, outcome: Result<(), RuntimeFailure>) -> (r: Result<
    (),
    CommandError,
>)
    ensures
        r is Ok <==> outcome is Ok,
        outcome is Err ==> r->Err_0.kind_spec() == classified_kind(outcome->Err_0),
        outcome is Err ==> r->Err_0.message_view() == described(
            operation@,
            target@,
            outcome->Err_0.message@,
        ),
{
    match outcome {
        Ok(()) => Ok(()),
        Err(f) => Err(classify_failure(operation, target, &f)),
    }
}

/// A failure that the runtime reports as a missing resource is classified
/// as not-found, never as a runtime error.
pub proof fn lemma_missing_resource_is_not_found(f: RuntimeFailure)
    requires
        reports_not_found(f),
    ensures
        classified_kind(f) == ErrorKind::NotFound,
        classified_kind(f) != ErrorKind::RuntimeError,
{
}

} // verus!
