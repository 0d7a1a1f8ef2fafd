//! What one invocation downloads, and where to.

use vstd::prelude::*;
use crate::target::{optional_text, resolve_target, resolved_target};

verus! {

/// The mathematical content of a `DownloadRequest`.
pub ghost struct RequestView {
    pub url: Seq<char>,
    pub path: Seq<char>,
}

/// A source URL and the local path its body is written to. Neither can be
/// changed once the request is made. Neither is validated: an unusable URL
/// shows when connecting, an unusable path when the file is created.
#[derive(Clone, Debug, PartialEq, Eq)]
pub struct DownloadRequest {
    url: String,
    path: String,
}

impl View for DownloadRequest {
    type V = RequestView;

    closed spec fn view(&self) -> RequestView {
        RequestView { url: self.url@, path: self.path@ }
    }
}

impl DownloadRequest {
    /// A request for `url`, stored at `path`.
    pub fn new(url: &str, path: &str) -> (request: DownloadRequest)
        ensures
            request@ == (RequestView { url: url@, path: path@ }),
    {
        DownloadRequest { url: url.to_owned(), path: path.to_owned() }
    }

    /// A request for `url`, stored at the explicit path where one is given and
    /// under the name derived from the URL otherwise.
    pub fn resolve(url: &str, explicit: Option<&str>) -> (request: DownloadRequest)
        ensures
            request@ == (RequestView {
                url: url@,
                path: resolved_target(url@, optional_text(explicit)),
            }),
    {
        DownloadRequest { url: url.to_owned(), path: resolve_target(url, explicit) }
    }

    /// The source URL.
    pub fn url(&self) -> (url: &str)
        ensures
            url@ == self@.url,
    {
        self.url.as_str()
    }

    /// The destination path.
    pub fn path(&self) -> (path: &str)
        ensures
            path@ == self@.path,
    {
        self.path.as_str()
    }
}

} // verus!
