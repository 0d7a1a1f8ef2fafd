//! Runs of the transfer engine, and what holds of every run.
//!
//! A run is the sequence of events a driver reports, from the initial state
//! on. The laws below speak of what the engine asks for along a run (its
//! answers) and of two sums that stand for the outside world: the bytes the
//! body delivered and the bytes that reached the file.

use vstd::prelude::*;
use crate::error::DownloadError;
use crate::progress::ceiling;
use crate::transfer::{Action, Event, Phase, TransferState};

verus! {

/// The state reached from `start` by the events `events`, in order.
pub open spec fn run(start: TransferState, events: Seq<Event>) -> TransferState
    decreases events.len(),
{
    if events.len() == 0 {
        start
    } else {
        run(start, events.drop_last()).after(events.last())
    }
}

/// The action with which the engine answers event number `i` of a run.
pub open spec fn answer(start: TransferState, events: Seq<Event>, i: int) -> Action {
    run(start, events.take(i + 1)).pending()
}

/// The bytes that `event` hands to a transfer in state `state`: the length
/// of a chunk the transfer was waiting for.
pub open spec fn taken(state: TransferState, event: Event) -> nat {
    match (state.phase, event) {
        (Phase::Pulling, Event::Chunk { len }) => len as nat,
        _ => 0,
    }
}

/// The bytes that `event` confirms as appended to the file: the length of
/// the chunk a transfer in state `state` was waiting to see written.
pub open spec fn stored(state: TransferState, event: Event) -> nat {
    match (state.phase, event) {
        (Phase::Writing { len }, Event::Written) => len as nat,
        _ => 0,
    }
}

/// The sum of the lengths of all chunks received during a run.
pub open spec fn received(start: TransferState, events: Seq<Event>) -> nat
    decreases events.len(),
{
    if events.len() == 0 {
        0
    } else {
        received(start, events.drop_last()) + taken(
            run(start, events.drop_last()),
            events.last(),
        )
    }
}

/// The length of the destination file after a run: the sum of the lengths of
/// all chunks appended to it.
pub open spec fn written(start: TransferState, events: Seq<Event>) -> nat
    decreases events.len(),
{
    if events.len() == 0 {
        0
    } else {
        written(start, events.drop_last()) + stored(run(start, events.drop_last()), events.last())
    }
}

/// The bytes received and not yet confirmed as written.
pub open spec fn in_flight(state: TransferState) -> nat {
    match state.phase {
        Phase::Writing { len } => len as nat,
        _ => 0,
    }
}

/// A count of bytes, held at the ceiling that `total` sets.
pub open spec fn capped(count: nat, total: Option<u64>) -> nat {
    if count <= ceiling(total) {
        count
    } else {
        ceiling(total) as nat
    }
}

/// A run in two parts reaches the state that the second part reaches from
/// where the first part ended.
pub proof fn lemma_run_split(start: TransferState, events: Seq<Event>, k: int)
    requires
        0 <= k <= events.len(),
    ensures
        run(start, events) == run(run(start, events.take(k)), events.skip(k)),
    decreases events.len() - k,
{
    if k == events.len() {
        assert(events.take(k) == events);
        assert(events.skip(k).len() == 0);
    } else {
        let head = events.drop_last();
        lemma_run_split(start, head, k);
        assert(head.take(k) == events.take(k));
        assert(head.skip(k) == events.skip(k).drop_last());
        assert(events.skip(k).last() == events.last());
    }
}

/// Every state of a run from a well-formed state is well-formed, and the
/// count of downloaded bytes is no smaller at the end of a run than at its
/// start.
pub proof fn lemma_run_well_formed(start: TransferState, events: Seq<Event>)
    requires
        start.well_formed(),
    ensures
        run(start, events).well_formed(),
        run(start, events).downloaded >= start.downloaded,
    decreases events.len(),
{
    if events.len() > 0 {
        lemma_run_well_formed(start, events.drop_last());
    }
}

/// A transfer that is over stays as it is, whatever is reported to it.
pub proof fn lemma_over_is_final(start: TransferState, events: Seq<Event>)
    requires
        start.is_over(),
    ensures
        run(start, events) == start,
    decreases events.len(),
{
    if events.len() > 0 {
        lemma_over_is_final(start, events.drop_last());
    }
}

/// The books of a transfer balance along every run: what was received is in
/// the file or in flight, but for a chunk whose write failed; the count shown
/// to the user is the length of the file, held at the ceiling; and before the
/// file is created nothing is received.
pub proof fn lemma_ledger(events: Seq<Event>)
    ensures
        ({
            let start = TransferState::initial();
            let end = run(start, events);
            &&& end.well_formed()
            &&& end.phase != Phase::Failed(DownloadError::WriteFailed) ==> received(start, events)
                == written(start, events) + in_flight(end)
            &&& written(start, events) <= received(start, events)
            &&& end.downloaded == capped(written(start, events), end.total)
            &&& end.phase is Probing || end.phase is Connecting || end.phase is Acquiring
                ==> received(start, events) == 0
        }),
    decreases events.len(),
{
    if events.len() > 0 {
        lemma_ledger(events.drop_last());
    }
}

/// Where the destination already exists when the transfer starts, the engine
/// answers every event by giving up with `DestinationExists`: it never asks
/// for a connection, for the file to be created, or for a write.
pub proof fn law_existing_destination_is_left_alone(events: Seq<Event>, i: int)
    requires
        0 <= i < events.len(),
        events[0] == (Event::Probed { exists: true }),
    ensures
        answer(TransferState::initial(), events, i) == Action::Abort(
            DownloadError::DestinationExists,
        ),
{
    let start = TransferState::initial();
    let upto = events.take(i + 1);
    lemma_run_split(start, upto, 1);
    assert(upto.take(1).last() == events[0]);
    assert(run(start, upto.take(1).drop_last()) == start);
    assert(run(start, upto.take(1)) == start.failed(DownloadError::DestinationExists));
    lemma_over_is_final(start.failed(DownloadError::DestinationExists), upto.skip(1));
}

/// No connection is asked for, no file created and nothing written before
/// the driver has reported that the destination does not exist.
pub proof fn law_nothing_happens_before_the_probe(events: Seq<Event>, i: int)
    requires
        0 <= i < events.len(),
        forall|k: int| 0 <= k <= i ==> events[k] != (Event::Probed { exists: false }),
    ensures
        ({
            let a = answer(TransferState::initial(), events, i);
            a == Action::Probe || a == Action::Abort(DownloadError::DestinationExists)
        }),
    decreases i,
{
    let start = TransferState::initial();
    let upto = events.take(i + 1);
    assert(upto.last() == events[i]);
    assert(upto.drop_last() == events.take(i));
    if i > 0 {
        law_nothing_happens_before_the_probe(events, i - 1);
    } else {
        assert(run(start, events.take(0)) == start);
    }
}

/// The destination file is created only once the connection is made: before
/// the driver has reported a connection, the engine asks for the probe or the
/// connection, or has given up because the destination exists or the
/// connection failed. A failed connection leaves no file behind.
pub proof fn law_no_file_before_the_connection(events: Seq<Event>, i: int)
    requires
        0 <= i < events.len(),
        forall|k: int| 0 <= k <= i ==> !(events[k] is Connected),
    ensures
        ({
            let a = answer(TransferState::initial(), events, i);
            ||| a == Action::Probe
            ||| a == Action::Connect
            ||| a == Action::Abort(DownloadError::DestinationExists)
            ||| a == Action::Abort(DownloadError::ConnectFailed)
        }),
    decreases i,
{
    let start = TransferState::initial();
    let upto = events.take(i + 1);
    assert(upto.last() == events[i]);
    assert(upto.drop_last() == events.take(i));
    if i > 0 {
        law_no_file_before_the_connection(events, i - 1);
    } else {
        assert(run(start, events.take(0)) == start);
    }
}

/// A report is asked for only in answer to a confirmed write: one for each
/// chunk that reached the file, and none before the first.
pub proof fn law_report_follows_a_write(events: Seq<Event>, i: int)
    requires
        0 <= i < events.len(),
        answer(TransferState::initial(), events, i) is Report,
        i == 0 || !(answer(TransferState::initial(), events, i - 1) is Report),
    ensures
        run(TransferState::initial(), events.take(i)).phase is Writing,
        events[i] == Event::Written,
{
    let start = TransferState::initial();
    let upto = events.take(i + 1);
    assert(upto.last() == events[i]);
    assert(upto.drop_last() == events.take(i));
    if i == 0 {
        assert(run(start, events.take(0)) == start);
    } else {
        assert(events.take(i - 1 + 1) == events.take(i));
    }
}

/// The number of reports the engine asks for during a run.
pub open spec fn reports_asked(start: TransferState, events: Seq<Event>) -> nat
    decreases events.len(),
{
    if events.len() == 0 {
        0
    } else {
        let before = run(start, events.drop_last());
        let asked: nat = if !(before.phase is Reporting) && before.after(
            events.last(),
        ).phase is Reporting {
            1
        } else {
            0
        };
        reports_asked(start, events.drop_last()) + asked
    }
}

/// The number of chunks appended to the file during a run.
pub open spec fn chunks_written(start: TransferState, events: Seq<Event>) -> nat
    decreases events.len(),
{
    if events.len() == 0 {
        0
    } else {
        let before = run(start, events.drop_last());
        let one: nat = if before.phase is Writing && events.last() == Event::Written {
            1
        } else {
            0
        };
        chunks_written(start, events.drop_last()) + one
    }
}

/// The engine asks for exactly one report for each chunk that reached the
/// file: none for a chunk whose write failed, none before the first chunk and
/// none when the body ends.
pub proof fn law_one_report_for_each_chunk(events: Seq<Event>)
    ensures
        reports_asked(TransferState::initial(), events) == chunks_written(
            TransferState::initial(),
            events,
        ),
    decreases events.len(),
{
    if events.len() > 0 {
        law_one_report_for_each_chunk(events.drop_last());
    }
}

/// The count a report carries is the length of the file at that moment, held
/// at the declared total.
pub proof fn law_report_carries_the_file_length(events: Seq<Event>, i: int)
    requires
        0 <= i < events.len(),
    ensures
        answer(TransferState::initial(), events, i) matches Action::Report { downloaded, total }
            ==> downloaded == capped(written(TransferState::initial(), events.take(i + 1)), total),
{
    lemma_ledger(events.take(i + 1));
}

/// The counts reported to the progress display never go down along a run,
/// and none exceeds the declared total.
pub proof fn law_reports_never_go_down(events: Seq<Event>, i: int, j: int)
    requires
        0 <= i <= j < events.len(),
    ensures
        match (
            answer(TransferState::initial(), events, i),
            answer(TransferState::initial(), events, j),
        ) {
            (
                Action::Report { downloaded: earlier, .. },
                Action::Report { downloaded: later, total },
            ) => earlier <= later <= ceiling(total),
            _ => true,
        },
{
    let start = TransferState::initial();
    let upto_i = events.take(i + 1);
    let upto_j = events.take(j + 1);
    lemma_run_well_formed(start, upto_i);
    lemma_run_well_formed(start, upto_j);
    lemma_run_split(start, upto_j, i + 1);
    assert(upto_j.take(i + 1) == upto_i);
    lemma_run_well_formed(run(start, upto_i), upto_j.skip(i + 1));
}

/// After a successful transfer the file holds exactly the bytes that were
/// received, and the count shown to the user is that length, held at the
/// declared total.
pub proof fn law_file_holds_what_was_received(events: Seq<Event>)
    requires
        run(TransferState::initial(), events).phase is Done,
    ensures
        written(TransferState::initial(), events) == received(TransferState::initial(), events),
        run(TransferState::initial(), events).downloaded == capped(
            received(TransferState::initial(), events),
            run(TransferState::initial(), events).total,
        ),
{
    lemma_ledger(events);
}

/// After a successful transfer whose body was as long as the server declared,
/// the file is as long as declared, and so is the count shown to the user.
pub proof fn law_file_length_is_declared_length(events: Seq<Event>, declared: u64)
    requires
        run(TransferState::initial(), events).phase is Done,
        run(TransferState::initial(), events).total == Some(declared),
        received(TransferState::initial(), events) == declared,
    ensures
        written(TransferState::initial(), events) == declared,
        run(TransferState::initial(), events).downloaded == declared,
{
    lemma_ledger(events);
}

} // verus!
