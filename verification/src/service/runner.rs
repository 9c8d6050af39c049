//! The process runner: how the library reads the replies to its requests.
//!
//! A command is read in one of two ways. Checked, it must have exited with
//! status zero, or the step fails with what the command wrote to its standard
//! error. Captured, only its text counts: its standard output, or its standard
//! error where the output is blank.
//!
//! A reply of a kind that cannot answer the request counts as a failure of the
//! step.
use vstd::prelude::*;
use crate::service::dialogue::{
    caused_error, plain_error, result_view, ErrorView, Reply, ReplyView, ServiceError,
};
use crate::text::{is_blank, trim, trimmed};

verus! {

/// The error for a reply that cannot answer the request it is given for.
pub open spec fn unexpected_reply() -> ErrorView {
    plain_error("Unexpected reply"@)
}

/// The error for a command that could not be started.
pub open spec fn spawn_failure(cause: Seq<char>) -> ErrorView {
    caused_error("Failed to spawn command"@, cause)
}

/// The error for a command that exited with a status other than zero.
pub open spec fn command_failure(stderr: Seq<char>) -> ErrorView {
    plain_error("Command failed: "@ + trimmed(stderr))
}

/// A command read in checked mode.
pub open spec fn checked(reply: ReplyView) -> Result<(), ErrorView> {
    match reply {
        ReplyView::Exited(output) => if output.success {
            Ok(())
        } else {
            Err(command_failure(output.stderr))
        },
        ReplyView::NotStarted(cause) => Err(spawn_failure(cause)),
        _ => Err(unexpected_reply()),
    }
}

/// A command read in captured mode.
pub open spec fn captured(reply: ReplyView) -> Result<Seq<char>, ErrorView> {
    match reply {
        ReplyView::Exited(output) => if trimmed(output.stdout).len() == 0 {
            Ok(output.stderr)
        } else {
            Ok(output.stdout)
        },
        ReplyView::NotStarted(cause) => Err(spawn_failure(cause)),
        _ => Err(unexpected_reply()),
    }
}

/// Whether the command ran and exited with status zero.
pub open spec fn exited_ok(reply: ReplyView) -> bool {
    reply matches ReplyView::Exited(output) && output.success
}

/// How a file-system request went.
pub open spec fn io_outcome(reply: ReplyView) -> Result<(), ErrorView> {
    match reply {
        ReplyView::Done => Ok(()),
        ReplyView::Failed(message) => Err(plain_error(message)),
        _ => Err(unexpected_reply()),
    }
}

/// Whether the path was found.
pub open spec fn found(reply: ReplyView) -> bool {
    reply == ReplyView::Exists(true)
}

/// The view of a captured text or the error in its place.
pub open spec fn text_result_view(result: Result<String, ServiceError>) -> Result<
    Seq<char>,
    ErrorView,
> {
    match result {
        Ok(text) => Ok(text@),
        Err(e) => Err(e@),
    }
}

/// Reads a command in checked mode: it succeeds if the command exited with
/// status zero, and fails with the command's trimmed standard error otherwise.
pub fn run_checked(reply: &Reply) -> (result: Result<(), ServiceError>)
    ensures
        result_view(result) == checked(reply@),
{
    match reply {
        Reply::Exited(output) => {
            if output.success {
                Ok(())
            } else {
                let stderr = trim(output.stderr.as_str());
                let mut message = String::from_str("Command failed: ");
                message.append(stderr.as_str());
                Err(ServiceError { message, cause: None })
            }
        },
        Reply::NotStarted(cause) => Err(
            ServiceError::caused_by("Failed to spawn command", cause.as_str()),
        ),
        _ => Err(ServiceError::new("Unexpected reply")),
    }
}

/// Reads a command in captured mode: its standard output, or its standard error
/// where the output is blank. Only a command that did not start is an error.
pub fn run_capture(reply: &Reply) -> (result: Result<String, ServiceError>)
    ensures
        text_result_view(result) == captured(reply@),
{
    match reply {
        Reply::Exited(output) => {
            if is_blank(output.stdout.as_str()) {
                Ok(output.stderr.clone())
            } else {
                Ok(output.stdout.clone())
            }
        },
        Reply::NotStarted(cause) => Err(
            ServiceError::caused_by("Failed to spawn command", cause.as_str()),
        ),
        _ => Err(ServiceError::new("Unexpected reply")),
    }
}

/// Whether the command ran and exited with status zero.
pub fn command_succeeded(reply: &Reply) -> (ok: bool)
    ensures
        ok == exited_ok(reply@),
{
    match reply {
        Reply::Exited(output) => output.success,
        _ => false,
    }
}

/// Reads the reply to a file-system request.
pub fn io_result(reply: &Reply) -> (result: Result<(), ServiceError>)
    ensures
        result_view(result) == io_outcome(reply@),
{
    match reply {
        Reply::Done => Ok(()),
        Reply::Failed(message) => Err(ServiceError::new(message.as_str())),
        _ => Err(ServiceError::new("Unexpected reply")),
    }
}

/// Reads the reply to a `PathExists` request.
pub fn path_found(reply: &Reply) -> (yes: bool)
    ensures
        yes == found(reply@),
{
    match reply {
        Reply::Exists(yes) => *yes,
        _ => false,
    }
}

} // verus!
