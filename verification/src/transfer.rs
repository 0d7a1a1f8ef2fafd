//! The transfer engine: the decisions of one streaming download.
//!
//! The engine performs no I/O. It tells its driver what to do next (an
//! `Action`), the driver does it and reports what happened (an `Event`), and
//! the engine moves on. One transfer goes through these steps:
//!
//! 1. ask whether the destination exists; if it does, stop before any request
//!    is made;
//! 2. connect and learn the declared length of the body, if any;
//! 3. create the destination file, only now, so that a failed connection
//!    leaves no empty file behind, and refusing a file that has appeared in
//!    the meantime;
//! 4. until the body ends: pull a chunk, append it to the file, advance the
//!    count of downloaded bytes, report progress. Progress is reported once
//!    for each chunk written, and at no other time.
//!
//! Any failure ends the transfer with one `DownloadError`. An event that does
//! not answer the pending action is ignored.

use vstd::prelude::*;
use crate::error::DownloadError;
use crate::progress::{advance, advanced, ceiling};
use crate::request::{DownloadRequest, RequestView};
use crate::trace::run;

verus! {

/// Where a transfer stands. Each phase but the last two waits for the answer
/// to one action.
#[derive(Clone, Copy, Debug, PartialEq, Eq)]
pub enum Phase {
    /// Waiting to learn whether the destination exists.
    Probing,
    /// Waiting for the connection.
    Connecting,
    /// Waiting for the destination file to be created.
    Acquiring,
    /// Waiting for the progress display to show the count after a chunk.
    Reporting,
    /// Waiting for the next chunk of the body.
    Pulling,
    /// Waiting for a chunk of `len` bytes to be appended to the file.
    Writing { len: usize },
    /// The body has ended and all of it is in the file.
    Done,
    /// The transfer has ended with an error.
    Failed(DownloadError),
}

/// What the driver reports back.
#[derive(Clone, Copy, Debug, PartialEq, Eq)]
pub enum Event {
    /// The destination path was looked up.
    Probed { exists: bool },
    /// The server answered; `content_length` is the length it declared.
    Connected { content_length: Option<u64> },
    /// No connection could be made.
    ConnectFailed,
    /// The destination file was created, empty.
    Created,
    /// The destination file was not created because the path is taken.
    AlreadyExists,
    /// The destination file could not be created for another reason.
    CreateFailed,
    /// The progress display shows the reported count.
    Reported,
    /// The body delivered a chunk of `len` bytes.
    Chunk { len: usize },
    /// Reading the body failed.
    StreamFailed,
    /// The body has ended.
    StreamEnded,
    /// The chunk was appended to the file, all of it.
    Written,
    /// Appending the chunk failed.
    WriteFailed,
}

/// What the driver is to do next.
#[derive(Clone, Copy, Debug, PartialEq, Eq)]
pub enum Action {
    /// Look up whether the destination path exists.
    Probe,
    /// Send the GET request.
    Connect,
    /// Create the destination file, refusing one that exists.
    Acquire,
    /// Show `downloaded` of `total` bytes.
    Report { downloaded: u64, total: Option<u64> },
    /// Await the next chunk of the body.
    Pull,
    /// Append the chunk just received, `len` bytes, to the file.
    Write { len: usize },
    /// Announce the completed download; the transfer is over.
    Finish,
    /// Give up with this error; the transfer is over.
    Abort(DownloadError),
}

/// The state of a transfer.
#[derive(Clone, Copy, Debug, PartialEq, Eq)]
pub struct TransferState {
    /// What the transfer waits for.
    pub phase: Phase,
    /// The declared length of the body; unknown before the connection is
    /// made and where the server declared none.
    pub total: Option<u64>,
    /// The bytes downloaded so far, as shown to the user.
    pub downloaded: u64,
}

impl TransferState {
    /// The state in which every transfer starts.
    pub open spec fn initial() -> TransferState {
        TransferState { phase: Phase::Probing, total: None, downloaded: 0 }
    }

    /// This state, ended by `error`.
    pub open spec fn failed(self, error: DownloadError) -> TransferState {
        TransferState { phase: Phase::Failed(error), ..self }
    }

    /// This state, waiting for something else.
    pub open spec fn moved_to(self, phase: Phase) -> TransferState {
        TransferState { phase, ..self }
    }

    /// The state that follows this one when `event` arrives.
    pub open spec fn after(self, event: Event) -> TransferState {
        match (self.phase, event) {
            (Phase::Probing, Event::Probed { exists }) => if exists {
                self.failed(DownloadError::DestinationExists)
            } else {
                self.moved_to(Phase::Connecting)
            },
            (Phase::Connecting, Event::Connected { content_length }) => TransferState {
                phase: Phase::Acquiring,
                total: content_length,
                downloaded: self.downloaded,
            },
            (Phase::Connecting, Event::ConnectFailed) => self.failed(DownloadError::ConnectFailed),
            (Phase::Acquiring, Event::Created) => self.moved_to(Phase::Pulling),
            (Phase::Acquiring, Event::AlreadyExists) => self.failed(
                DownloadError::DestinationExists,
            ),
            (Phase::Acquiring, Event::CreateFailed) => self.failed(DownloadError::CreateFailed),
            (Phase::Reporting, Event::Reported) => self.moved_to(Phase::Pulling),
            (Phase::Pulling, Event::Chunk { len }) => self.moved_to(Phase::Writing { len }),
            (Phase::Pulling, Event::StreamFailed) => self.failed(DownloadError::StreamFailed),
            (Phase::Pulling, Event::StreamEnded) => self.moved_to(Phase::Done),
            (Phase::Writing { len }, Event::Written) => TransferState {
                phase: Phase::Reporting,
                total: self.total,
                downloaded: advanced(self.downloaded, len, self.total),
            },
            (Phase::Writing { .. }, Event::WriteFailed) => self.failed(DownloadError::WriteFailed),
            _ => self,
        }
    }

    /// The action this state waits on.
    pub open spec fn pending(self) -> Action {
        match self.phase {
            Phase::Probing => Action::Probe,
            Phase::Connecting => Action::Connect,
            Phase::Acquiring => Action::Acquire,
            Phase::Reporting => Action::Report { downloaded: self.downloaded, total: self.total },
            Phase::Pulling => Action::Pull,
            Phase::Writing { len } => Action::Write { len },
            Phase::Done => Action::Finish,
            Phase::Failed(error) => Action::Abort(error),
        }
    }

    /// What holds of every state a transfer can reach: nothing is downloaded
    /// and no total is known before the connection is made, nothing is
    /// downloaded before the file exists, and the count never passes a
    /// declared total.
    pub open spec fn well_formed(self) -> bool {
        &&& self.downloaded <= ceiling(self.total)
        &&& self.phase is Probing || self.phase is Connecting ==> self.total is None
        &&& self.phase is Probing || self.phase is Connecting || self.phase is Acquiring
            ==> self.downloaded == 0
    }

    /// Whether the transfer is over.
    pub open spec fn is_over(self) -> bool {
        self.phase is Done || self.phase is Failed
    }

    /// The state in which every transfer starts.
    pub fn start() -> (state: TransferState)
        ensures
            state == TransferState::initial(),
            state.well_formed(),
    {
        TransferState { phase: Phase::Probing, total: None, downloaded: 0 }
    }

    /// The state that follows this one when `event` arrives. A well-formed
    /// state is followed by a well-formed one whose count of downloaded bytes
    /// is no smaller, and a transfer that is over stays as it is.
    pub fn next(self, event: Event) -> (state: TransferState)
        ensures
            state == self.after(event),
            self.well_formed() ==> state.well_formed() && state.downloaded >= self.downloaded,
            self.is_over() ==> state == self,
    {
        match (self.phase, event) {
            (Phase::Probing, Event::Probed { exists }) => {
                if exists {
                    self.fail(DownloadError::DestinationExists)
                } else {
                    self.move_to(Phase::Connecting)
                }
            },
            (Phase::Connecting, Event::Connected { content_length }) => TransferState {
                phase: Phase::Acquiring,
                total: content_length,
                downloaded: self.downloaded,
            },
            (Phase::Connecting, Event::ConnectFailed) => self.fail(DownloadError::ConnectFailed),
            (Phase::Acquiring, Event::Created) => self.move_to(Phase::Pulling),
            (Phase::Acquiring, Event::AlreadyExists) => self.fail(
                DownloadError::DestinationExists,
            ),
            (Phase::Acquiring, Event::CreateFailed) => self.fail(DownloadError::CreateFailed),
            (Phase::Reporting, Event::Reported) => self.move_to(Phase::Pulling),
            (Phase::Pulling, Event::Chunk { len }) => self.move_to(Phase::Writing { len }),
            (Phase::Pulling, Event::StreamFailed) => self.fail(DownloadError::StreamFailed),
            (Phase::Pulling, Event::StreamEnded) => self.move_to(Phase::Done),
            (Phase::Writing { len }, Event::Written) => TransferState {
                phase: Phase::Reporting,
                total: self.total,
                downloaded: advance(self.downloaded, len, self.total),
            },
            (Phase::Writing { .. }, Event::WriteFailed) => self.fail(DownloadError::WriteFailed),
            _ => self,
        }
    }

    /// The action this state waits on.
    pub fn action(self) -> (action: Action)
        ensures
            action == self.pending(),
    {
        match self.phase {
            Phase::Probing => Action::Probe,
            Phase::Connecting => Action::Connect,
            Phase::Acquiring => Action::Acquire,
            Phase::Reporting => Action::Report { downloaded: self.downloaded, total: self.total },
            Phase::Pulling => Action::Pull,
            Phase::Writing { len } => Action::Write { len },
            Phase::Done => Action::Finish,
            Phase::Failed(error) => Action::Abort(error),
        }
    }

    fn fail(self, error: DownloadError) -> (state: TransferState)
        ensures
            state == self.failed(error),
    {
        TransferState { phase: Phase::Failed(error), total: self.total, downloaded: self.downloaded }
    }

    fn move_to(self, phase: Phase) -> (state: TransferState)
        ensures
            state == self.moved_to(phase),
    {
        TransferState { phase, total: self.total, downloaded: self.downloaded }
    }
}

/// The mathematical content of a `Transfer`.
pub ghost struct TransferView {
    pub request: RequestView,
    pub state: TransferState,
}

/// One download under way: the request it serves, which never changes, and
/// the state it has reached, which is always well-formed.
#[derive(Debug)]
pub struct Transfer {
    request: DownloadRequest,
    state: TransferState,
}

impl View for Transfer {
    type V = TransferView;

    closed spec fn view(&self) -> TransferView {
        TransferView { request: self.request@, state: self.state }
    }
}

impl Transfer {
    #[verifier::type_invariant]
    spec fn holds_well_formed_state(self) -> bool {
        self.state.well_formed()
    }

    /// A transfer for `request`, about to ask whether the destination exists.
    pub fn new(request: DownloadRequest) -> (transfer: Transfer)
        ensures
            transfer@ == (TransferView { request: request@, state: TransferState::initial() }),
    {
        Transfer { request, state: TransferState::start() }
    }

    /// The request this transfer serves.
    pub fn request(&self) -> (request: &DownloadRequest)
        ensures
            request@ == self@.request,
    {
        &self.request
    }

    /// The state the transfer has reached.
    pub fn state(&self) -> (state: TransferState)
        ensures
            state == self@.state,
            state.well_formed(),
    {
        proof {
            use_type_invariant(self);
        }
        self.state
    }

    /// What the driver is to do now.
    pub fn action(&self) -> (action: Action)
        ensures
            action == self@.state.pending(),
    {
        self.state.action()
    }

    /// How the transfer ended, if it has: with success once the body has
    /// ended, with its error once it has failed.
    pub fn outcome(&self) -> (outcome: Option<Result<(), DownloadError>>)
        ensures
            outcome == match self@.state.phase {
                Phase::Done => Some(Ok::<(), DownloadError>(())),
                Phase::Failed(error) => Some(Err::<(), DownloadError>(error)),
                _ => None,
            },
    {
        match self.state.phase {
            Phase::Done => Some(Ok(())),
            Phase::Failed(error) => Some(Err(error)),
            _ => None,
        }
    }

    /// Takes in what the driver reports and answers with what it is to do
    /// next. The request stays as it is, and the count of downloaded bytes
    /// never goes down.
    pub fn step(&mut self, event: Event) -> (action: Action)
        ensures
            final(self)@.request == old(self)@.request,
            final(self)@.state == old(self)@.state.after(event),
            final(self)@.state.well_formed(),
            final(self)@.state.downloaded >= old(self)@.state.downloaded,
            action == final(self)@.state.pending(),
    {
        proof {
            use_type_invariant(&*self);
        }
        self.state = self.state.next(event);
        self.state.action()
    }

    /// Takes in a whole series of reports, in order, and answers with what
    /// the driver is to do after the last of them.
    pub fn replay(&mut self, events: &Vec<Event>) -> (action: Action)
        ensures
            final(self)@.request == old(self)@.request,
            final(self)@.state == run(old(self)@.state, events@),
            final(self)@.state.well_formed(),
            final(self)@.state.downloaded >= old(self)@.state.downloaded,
            action == final(self)@.state.pending(),
    {
        proof {
            use_type_invariant(&*self);
        }
        let mut i: usize = 0;
        assert(events@.take(0).len() == 0);
        while i < events.len()
            invariant
                0 <= i <= events.len(),
                self@.request == old(self)@.request,
                self@.state == run(old(self)@.state, events@.take(i as int)),
                self@.state.well_formed(),
                self@.state.downloaded >= old(self)@.state.downloaded,
            decreases events.len() - i,
        {
            assert(events@.take(i + 1).drop_last() == events@.take(i as int));
            assert(events@.take(i + 1).last() == events@[i as int]);
            self.step(events[i]);
            i += 1;
        }
        assert(events@.take(i as int) == events@);
        self.state.action()
    }
}

} // verus!
