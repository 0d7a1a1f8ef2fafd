//! What happens when the user interrupts a download.
//!
//! The handler is armed before the transfer starts and keeps its own copy of
//! the destination path. On the first interrupt the partial file is to be
//! deleted, whether or not that succeeds, a confirmation printed, and the
//! process ended with a failure status. A transfer that fails on its own
//! leaves its partial file in place; only an interrupt removes it.

use vstd::prelude::*;
use vstd::string::StringExecFns;
use crate::request::DownloadRequest;

verus! {

/// The mathematical content of an `InterruptContext`.
pub ghost struct InterruptView {
    pub path: Seq<char>,
    pub armed: bool,
}

/// The path to clean up on an interrupt, and whether that is still to be
/// done.
#[derive(Debug)]
pub struct InterruptContext {
    path: String,
    armed: bool,
}

impl View for InterruptContext {
    type V = InterruptView;

    closed spec fn view(&self) -> InterruptView {
        InterruptView { path: self.path@, armed: self.armed }
    }
}

impl InterruptContext {
    /// Arms the handler for `request`: it holds the request's destination
    /// path, by value.
    pub fn new(request: &DownloadRequest) -> (context: InterruptContext)
        ensures
            context@ == (InterruptView { path: request@.path, armed: true }),
    {
        InterruptContext { path: request.path().to_owned(), armed: true }
    }

    /// The path that an interrupt removes.
    pub fn path(&self) -> (path: &str)
        ensures
            path@ == self@.path,
    {
        self.path.as_str()
    }

    /// Whether an interrupt is still to be acted on.
    pub fn is_armed(&self) -> (armed: bool)
        ensures
            armed == self@.armed,
    {
        self.armed
    }

    /// Takes an interrupt. The first one yields the path of the file to
    /// delete; any later one yields nothing. The path held never changes.
    pub fn on_interrupt(&mut self) -> (target: Option<String>)
        ensures
            final(self)@ == (InterruptView { path: old(self)@.path, armed: false }),
            match target {
                Some(path) => old(self)@.armed && path@ == old(self)@.path,
                None => !old(self)@.armed,
            },
    {
        if self.armed {
            self.armed = false;
            Some(self.path.clone())
        } else {
            None
        }
    }
}

/// The confirmation printed once the partial file has been dealt with.
pub fn cleanup_text() -> (text: String)
    ensures
        text@ == "\n\nFinished cleanup. See you next time!"@,
{
    String::from_str("\n\nFinished cleanup. See you next time!")
}

} // verus!
