//! Progress of a transfer: how much has been downloaded, of how much.

use vstd::prelude::*;
use vstd::string::StringExecFns;
use crate::request::{DownloadRequest, RequestView};

verus! {

/// The most that can be reported as downloaded: the declared total where the
/// server gave one, the largest count otherwise.
pub open spec fn ceiling(total: Option<u64>) -> u64 {
    match total {
        Some(t) => t,
        None => u64::MAX,
    }
}

/// The count after `len` more bytes: the sum, held at the ceiling.
pub open spec fn advanced(downloaded: u64, len: usize, total: Option<u64>) -> u64 {
    if downloaded + len <= ceiling(total) {
        (downloaded + len) as u64
    } else {
        ceiling(total)
    }
}

/// Advances the count of downloaded bytes by the length of one chunk. The
/// result never passes the declared total, nor the largest count where no
/// total was declared.
pub fn advance(downloaded: u64, len: usize, total: Option<u64>) -> (count: u64)
    ensures
        count == advanced(downloaded, len, total),
{
    let limit = match total {
        Some(t) => t,
        None => u64::MAX,
    };
    if downloaded >= limit {
        limit
    } else if len as u64 >= limit - downloaded {
        limit
    } else {
        downloaded + len as u64
    }
}

/// The text shown above the bar while the transfer runs.
pub open spec fn downloading_text(request: RequestView) -> Seq<char> {
    "Downloading "@ + request.url
}

/// The text shown once the transfer has completed.
pub open spec fn downloaded_text(request: RequestView) -> Seq<char> {
    "  Downloaded "@ + request.url + " to "@ + request.path
}

/// The label of a running transfer: `Downloading <url>`.
pub fn downloading_label(request: &DownloadRequest) -> (label: String)
    ensures
        label@ == downloading_text(request@),
{
    let mut label = String::from_str("Downloading ");
    label.append(request.url());
    label
}

/// The label of a completed transfer: `  Downloaded <url> to <path>`.
pub fn downloaded_label(request: &DownloadRequest) -> (label: String)
    ensures
        label@ == downloaded_text(request@),
{
    let mut label = String::from_str("  Downloaded ");
    label.append(request.url());
    label.append(" to ");
    label.append(request.path());
    label
}

/// The display template of the progress bar: the label on a line of its own,
/// then spinner, elapsed time, bar, byte counts, rate and time left.
pub fn bar_template() -> (template: &'static str)
    ensures
        template@
            == "\n{msg}\n\n{spinner:.cyan/blue} [{elapsed_precise}] [{wide_bar:.cyan/blue}] {bytes}/{total_bytes} ({bytes_per_sec}, {eta})"@,
{
    "\n{msg}\n\n{spinner:.cyan/blue} [{elapsed_precise}] [{wide_bar:.cyan/blue}] {bytes}/{total_bytes} ({bytes_per_sec}, {eta})"
}

} // verus!
