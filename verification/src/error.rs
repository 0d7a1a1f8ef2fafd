//! The ways a download ends without success.

use vstd::prelude::*;
use vstd::string::StringExecFns;
use crate::request::{DownloadRequest, RequestView};

verus! {

/// Why a download did not complete. Each one ends the transfer: nothing is
/// retried and nothing is resumed.
#[derive(Clone, Copy, Debug, PartialEq, Eq, Structural)]
pub enum DownloadError {
    /// The destination path is taken: nothing is overwritten.
    DestinationExists,
    /// The destination file could not be created.
    CreateFailed,
    /// No connection to the source could be made.
    ConnectFailed,
    /// Reading the response body failed. What was written stays on disk.
    StreamFailed,
    /// Writing to the destination failed. What was written stays on disk.
    WriteFailed,
}

/// The message shown for `error` on the download described by `request`.
pub open spec fn error_text(error: DownloadError, request: RequestView) -> Seq<char> {
    match error {
        DownloadError::DestinationExists =>
            "\nFile already exists. Nothing left to do here, see you!"@,
        DownloadError::CreateFailed => "Failed to create file '"@ + request.path + "'!"@,
        DownloadError::ConnectFailed => "Failed to connect to "@ + request.url,
        DownloadError::StreamFailed => "Error while downloading file"@,
        DownloadError::WriteFailed => "Error while writing to file"@,
    }
}

impl DownloadError {
    /// The one-line message for this error.
    pub fn message(self, request: &DownloadRequest) -> (text: String)
        ensures
            text@ == error_text(self, request@),
    {
        match self {
            DownloadError::DestinationExists => String::from_str(
                "\nFile already exists. Nothing left to do here, see you!",
            ),
            DownloadError::CreateFailed => {
                let mut text = String::from_str("Failed to create file '");
                text.append(request.path());
                text.append("'!");
                text
            },
            DownloadError::ConnectFailed => {
                let mut text = String::from_str("Failed to connect to ");
                text.append(request.url());
                text
            },
            DownloadError::StreamFailed => String::from_str("Error while downloading file"),
            DownloadError::WriteFailed => String::from_str("Error while writing to file"),
        }
    }
}

} // verus!
