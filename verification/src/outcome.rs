//! How an invocation ends: what it prints last and how the process exits.
//!
//! Every way a download can end is decided here, in one place. A completed
//! download and a failed one both return normally; a destination that was
//! already there and an interrupt end the process with a failure status; a
//! destination that cannot be created is a fatal fault.

use vstd::prelude::*;
use vstd::string::StringExecFns;
use crate::error::{error_text, DownloadError};
use crate::progress::{downloaded_label, downloaded_text};
use crate::request::{DownloadRequest, RequestView};

verus! {

/// How the process ends.
#[derive(Clone, Copy, Debug, PartialEq, Eq)]
pub enum Exit {
    /// By returning: the status is 0.
    Return,
    /// At once, with this status.
    Status(i32),
    /// By a fatal fault that carries the closing line as its message.
    Fault,
}

/// How the process ends after a transfer that ended with `outcome`.
pub open spec fn exit_for(outcome: Result<(), DownloadError>) -> Exit {
    match outcome {
        Ok(_) => Exit::Return,
        Err(DownloadError::DestinationExists) => Exit::Status(1),
        Err(DownloadError::CreateFailed) => Exit::Fault,
        Err(_) => Exit::Return,
    }
}

/// The last line shown after a transfer for `request` that ended with
/// `outcome`: the completion line, or the error's message, which for a
/// connection, stream or write error follows `Error: `.
pub open spec fn closing_text(outcome: Result<(), DownloadError>, request: RequestView) -> Seq<
    char,
> {
    match outcome {
        Ok(_) => downloaded_text(request),
        Err(DownloadError::DestinationExists) => error_text(
            DownloadError::DestinationExists,
            request,
        ),
        Err(DownloadError::CreateFailed) => error_text(DownloadError::CreateFailed, request),
        Err(error) => "Error: "@ + error_text(error, request),
    }
}

/// How the process ends after a transfer that ended with `outcome`.
pub fn exit(outcome: Result<(), DownloadError>) -> (exit: Exit)
    ensures
        exit == exit_for(outcome),
{
    match outcome {
        Ok(_) => Exit::Return,
        Err(DownloadError::DestinationExists) => Exit::Status(1),
        Err(DownloadError::CreateFailed) => Exit::Fault,
        Err(_) => Exit::Return,
    }
}

/// Whether the closing line is printed before the process ends with `exit`.
/// A fault carries the line as its own message, so it is not printed as
/// well.
pub fn prints_closing_line(exit: Exit) -> (printed: bool)
    ensures
        printed == !(exit is Fault),
{
    match exit {
        Exit::Fault => false,
        _ => true,
    }
}

/// The last line shown after a transfer for `request` that ended with
/// `outcome`.
pub fn closing_line(outcome: Result<(), DownloadError>, request: &DownloadRequest) -> (line: String)
    ensures
        line@ == closing_text(outcome, request@),
{
    match outcome {
        Ok(_) => downloaded_label(request),
        Err(DownloadError::DestinationExists) => DownloadError::DestinationExists.message(request),
        Err(DownloadError::CreateFailed) => DownloadError::CreateFailed.message(request),
        Err(error) => {
            let mut line = String::from_str("Error: ");
            line.append(error.message(request).as_str());
            line
        },
    }
}

/// How the process ends after an interrupt, once deleting the partial file
/// has been tried: with a failure status, whether or not the file was
/// `removed`. It may never have been created, or be gone already.
pub fn after_cleanup(removed: bool) -> (exit: Exit)
    ensures
        exit == Exit::Status(1),
{
    Exit::Status(1)
}

} // verus!
