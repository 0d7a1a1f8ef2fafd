use get::error::DownloadError;
use get::outcome::{closing_line, exit, Exit};
use get::request::DownloadRequest;
use get::transfer::{Action, Event, Phase, Transfer, TransferState};

fn transfer_of(url: &str, path: &str) -> Transfer {
    Transfer::new(DownloadRequest::new(url, path))
}

fn streaming(total: Option<u64>) -> Transfer {
    let mut transfer = transfer_of("https://example.com/a.bin", "a.bin");
    transfer.step(Event::Probed { exists: false });
    transfer.step(Event::Connected { content_length: total });
    assert_eq!(transfer.step(Event::Created), Action::Pull);
    transfer
}

fn deliver(transfer: &mut Transfer, len: usize) -> Action {
    assert_eq!(transfer.step(Event::Chunk { len }), Action::Write { len });
    let report = transfer.step(Event::Written);
    assert_eq!(transfer.step(Event::Reported), Action::Pull);
    report
}

#[test]
fn new_transfer_asks_whether_the_destination_exists() {
    let transfer = transfer_of("https://example.com/a.bin", "a.bin");
    assert_eq!(transfer.action(), Action::Probe);
    assert_eq!(transfer.outcome(), None);
    assert_eq!(
        transfer.state(),
        TransferState { phase: Phase::Probing, total: None, downloaded: 0 }
    );
    assert_eq!(transfer.state(), TransferState::start());
    assert_eq!(transfer.request().url(), "https://example.com/a.bin");
    assert_eq!(transfer.request().path(), "a.bin");
}

#[test]
fn transfer_with_declared_length_runs_to_completion() {
    let mut transfer = transfer_of("https://example.com/a.bin", "a.bin");
    assert_eq!(transfer.step(Event::Probed { exists: false }), Action::Connect);
    assert_eq!(transfer.step(Event::Connected { content_length: Some(10) }), Action::Acquire);
    assert_eq!(transfer.step(Event::Created), Action::Pull);
    assert_eq!(transfer.step(Event::Chunk { len: 4 }), Action::Write { len: 4 });
    assert_eq!(
        transfer.step(Event::Written),
        Action::Report { downloaded: 4, total: Some(10) }
    );
    assert_eq!(transfer.step(Event::Reported), Action::Pull);
    assert_eq!(transfer.step(Event::Chunk { len: 6 }), Action::Write { len: 6 });
    assert_eq!(
        transfer.step(Event::Written),
        Action::Report { downloaded: 10, total: Some(10) }
    );
    assert_eq!(transfer.step(Event::Reported), Action::Pull);
    assert_eq!(transfer.outcome(), None);
    assert_eq!(transfer.step(Event::StreamEnded), Action::Finish);
    assert_eq!(transfer.outcome(), Some(Ok(())));
    assert_eq!(
        transfer.state(),
        TransferState { phase: Phase::Done, total: Some(10), downloaded: 10 }
    );
    assert_eq!(exit(Ok(())), Exit::Return);
    assert_eq!(
        closing_line(Ok(()), transfer.request()),
        "  Downloaded https://example.com/a.bin to a.bin"
    );
}

#[test]
fn transfer_without_declared_length_counts_what_arrives() {
    let mut transfer = streaming(None);
    assert_eq!(deliver(&mut transfer, 1000), Action::Report { downloaded: 1000, total: None });
    assert_eq!(deliver(&mut transfer, 24), Action::Report { downloaded: 1024, total: None });
    assert_eq!(transfer.step(Event::StreamEnded), Action::Finish);
    assert_eq!(
        transfer.state(),
        TransferState { phase: Phase::Done, total: None, downloaded: 1024 }
    );
}

#[test]
fn empty_body_completes_at_once() {
    let mut transfer = streaming(Some(0));
    assert_eq!(transfer.step(Event::StreamEnded), Action::Finish);
    assert_eq!(transfer.state().downloaded, 0);
    assert_eq!(transfer.outcome(), Some(Ok(())));
}

#[test]
fn empty_chunk_changes_nothing() {
    let mut transfer = streaming(Some(8));
    assert_eq!(deliver(&mut transfer, 3), Action::Report { downloaded: 3, total: Some(8) });
    assert_eq!(deliver(&mut transfer, 0), Action::Report { downloaded: 3, total: Some(8) });
}

#[test]
fn count_is_held_at_the_declared_total() {
    let mut transfer = streaming(Some(10));
    assert_eq!(deliver(&mut transfer, 8), Action::Report { downloaded: 8, total: Some(10) });
    assert_eq!(deliver(&mut transfer, 8), Action::Report { downloaded: 10, total: Some(10) });
    assert_eq!(deliver(&mut transfer, 8), Action::Report { downloaded: 10, total: Some(10) });
    assert_eq!(transfer.step(Event::StreamEnded), Action::Finish);
    assert_eq!(transfer.state().downloaded, 10);
}

#[test]
fn short_body_still_succeeds() {
    let mut transfer = streaming(Some(10));
    assert_eq!(deliver(&mut transfer, 4), Action::Report { downloaded: 4, total: Some(10) });
    assert_eq!(transfer.step(Event::StreamEnded), Action::Finish);
    assert_eq!(transfer.outcome(), Some(Ok(())));
    assert_eq!(transfer.state().downloaded, 4);
}

#[test]
fn reported_counts_never_go_down() {
    let mut transfer = streaming(Some(50));
    let mut last = 0;
    for len in [0usize, 7, 1, 20, 0, 30, 5] {
        match deliver(&mut transfer, len) {
            Action::Report { downloaded, total } => {
                assert!(downloaded >= last);
                assert!(downloaded <= 50);
                assert_eq!(total, Some(50));
                last = downloaded;
            }
            other => panic!("unexpected action {:?}", other),
        }
    }
    assert_eq!(last, 50);
}

#[test]
fn existing_destination_ends_the_transfer_before_any_request() {
    let mut transfer = transfer_of("https://example.com/a.bin", "a.bin");
    assert_eq!(
        transfer.step(Event::Probed { exists: true }),
        Action::Abort(DownloadError::DestinationExists)
    );
    assert_eq!(transfer.outcome(), Some(Err(DownloadError::DestinationExists)));
    assert_eq!(exit(Err(DownloadError::DestinationExists)), Exit::Status(1));
}

#[test]
fn second_run_against_the_same_destination_stops_at_the_probe() {
    let mut first = transfer_of("https://example.com/a.bin", "a.bin");
    let mut seen = vec![first.action()];
    for event in [
        Event::Probed { exists: false },
        Event::Connected { content_length: Some(3) },
        Event::Created,
        Event::Chunk { len: 3 },
        Event::Written,
        Event::Reported,
        Event::StreamEnded,
    ] {
        seen.push(first.step(event));
    }
    assert_eq!(first.outcome(), Some(Ok(())));
    assert!(seen.contains(&Action::Connect));
    assert!(seen.contains(&Action::Acquire));

    let mut second = transfer_of("https://example.com/a.bin", "a.bin");
    let mut seen = vec![second.action()];
    seen.push(second.step(Event::Probed { exists: true }));
    seen.push(second.step(Event::Connected { content_length: Some(3) }));
    seen.push(second.step(Event::Created));
    seen.push(second.step(Event::Chunk { len: 3 }));
    seen.push(second.step(Event::Written));
    assert_eq!(seen[0], Action::Probe);
    for action in &seen[1..] {
        assert_eq!(*action, Action::Abort(DownloadError::DestinationExists));
    }
    assert_eq!(
        closing_line(Err(DownloadError::DestinationExists), second.request()),
        "\nFile already exists. Nothing left to do here, see you!"
    );
    assert_eq!(exit(second.outcome().unwrap()), Exit::Status(1));
    assert_eq!(second.state().downloaded, 0);
}

#[test]
fn failed_connection_creates_no_file() {
    let mut transfer = transfer_of("https://nowhere.invalid/a.bin", "a.bin");
    assert_eq!(transfer.step(Event::Probed { exists: false }), Action::Connect);
    assert_eq!(
        transfer.step(Event::ConnectFailed),
        Action::Abort(DownloadError::ConnectFailed)
    );
    assert_eq!(transfer.outcome(), Some(Err(DownloadError::ConnectFailed)));
    assert_eq!(
        transfer.step(Event::Created),
        Action::Abort(DownloadError::ConnectFailed)
    );
    assert_eq!(
        closing_line(Err(DownloadError::ConnectFailed), transfer.request()),
        "Error: Failed to connect to https://nowhere.invalid/a.bin"
    );
}

#[test]
fn destination_that_appears_after_the_probe_is_refused() {
    let mut transfer = transfer_of("https://example.com/a.bin", "a.bin");
    transfer.step(Event::Probed { exists: false });
    transfer.step(Event::Connected { content_length: None });
    assert_eq!(
        transfer.step(Event::AlreadyExists),
        Action::Abort(DownloadError::DestinationExists)
    );
}

#[test]
fn destination_that_cannot_be_created_is_fatal() {
    let mut transfer = transfer_of("https://example.com/a.bin", "missing/dir/a.bin");
    transfer.step(Event::Probed { exists: false });
    transfer.step(Event::Connected { content_length: Some(5) });
    assert_eq!(transfer.step(Event::CreateFailed), Action::Abort(DownloadError::CreateFailed));
    assert_eq!(exit(transfer.outcome().unwrap()), Exit::Fault);
    assert_eq!(
        closing_line(transfer.outcome().unwrap(), transfer.request()),
        "Failed to create file 'missing/dir/a.bin'!"
    );
}

#[test]
fn stream_error_ends_the_transfer() {
    let mut transfer = streaming(Some(100));
    deliver(&mut transfer, 40);
    assert_eq!(transfer.step(Event::StreamFailed), Action::Abort(DownloadError::StreamFailed));
    assert_eq!(
        transfer.state(),
        TransferState {
            phase: Phase::Failed(DownloadError::StreamFailed),
            total: Some(100),
            downloaded: 40
        }
    );
    assert_eq!(transfer.step(Event::Chunk { len: 60 }), Action::Abort(DownloadError::StreamFailed));
    assert_eq!(transfer.state().downloaded, 40);
}

#[test]
fn write_error_ends_the_transfer() {
    let mut transfer = streaming(Some(100));
    deliver(&mut transfer, 40);
    assert_eq!(transfer.step(Event::Chunk { len: 10 }), Action::Write { len: 10 });
    assert_eq!(transfer.step(Event::WriteFailed), Action::Abort(DownloadError::WriteFailed));
    assert_eq!(transfer.outcome(), Some(Err(DownloadError::WriteFailed)));
    assert_eq!(transfer.state().downloaded, 40);
    assert_eq!(transfer.step(Event::Written), Action::Abort(DownloadError::WriteFailed));
    assert_eq!(transfer.state().downloaded, 40);
}

#[test]
fn events_that_answer_nothing_are_ignored() {
    let mut transfer = transfer_of("https://example.com/a.bin", "a.bin");
    for event in [
        Event::Connected { content_length: Some(9) },
        Event::ConnectFailed,
        Event::Created,
        Event::AlreadyExists,
        Event::CreateFailed,
        Event::Reported,
        Event::Chunk { len: 9 },
        Event::StreamFailed,
        Event::StreamEnded,
        Event::Written,
        Event::WriteFailed,
    ] {
        assert_eq!(transfer.step(event), Action::Probe);
        assert_eq!(transfer.state(), TransferState::start());
    }
    transfer.step(Event::Probed { exists: false });
    assert_eq!(transfer.step(Event::Probed { exists: true }), Action::Connect);
    assert_eq!(transfer.step(Event::Chunk { len: 9 }), Action::Connect);
    transfer.step(Event::Connected { content_length: Some(9) });
    assert_eq!(transfer.step(Event::Written), Action::Acquire);
    assert_eq!(transfer.step(Event::Connected { content_length: Some(1) }), Action::Acquire);
    assert_eq!(transfer.state().total, Some(9));
    assert_eq!(transfer.step(Event::Created), Action::Pull);
    assert_eq!(transfer.step(Event::Written), Action::Pull);
    assert_eq!(transfer.step(Event::Reported), Action::Pull);
    transfer.step(Event::Chunk { len: 2 });
    assert_eq!(transfer.step(Event::Chunk { len: 5 }), Action::Write { len: 2 });
    assert_eq!(transfer.step(Event::StreamEnded), Action::Write { len: 2 });
    assert_eq!(
        transfer.step(Event::Written),
        Action::Report { downloaded: 2, total: Some(9) }
    );
    assert_eq!(
        transfer.step(Event::Written),
        Action::Report { downloaded: 2, total: Some(9) }
    );
}

#[test]
fn finished_transfer_stays_finished() {
    let mut transfer = streaming(Some(1));
    deliver(&mut transfer, 1);
    transfer.step(Event::StreamEnded);
    for event in [
        Event::Probed { exists: true },
        Event::Chunk { len: 1 },
        Event::Written,
        Event::StreamFailed,
        Event::WriteFailed,
    ] {
        assert_eq!(transfer.step(event), Action::Finish);
    }
    assert_eq!(
        transfer.state(),
        TransferState { phase: Phase::Done, total: Some(1), downloaded: 1 }
    );
}

#[test]
fn request_never_changes_during_a_transfer() {
    let mut transfer = streaming(Some(4));
    deliver(&mut transfer, 4);
    transfer.step(Event::StreamEnded);
    assert_eq!(*transfer.request(), DownloadRequest::new("https://example.com/a.bin", "a.bin"));
}

#[test]
fn replay_reaches_the_state_of_the_single_steps() {
    let events = vec![
        Event::Probed { exists: false },
        Event::Connected { content_length: Some(12) },
        Event::Created,
        Event::Chunk { len: 5 },
        Event::Written,
        Event::Reported,
        Event::Chunk { len: 7 },
        Event::Written,
    ];
    let mut stepped = transfer_of("u", "p");
    let mut last = stepped.action();
    for event in &events {
        last = stepped.step(*event);
    }
    let mut replayed = transfer_of("u", "p");
    assert_eq!(replayed.replay(&events), last);
    assert_eq!(replayed.state(), stepped.state());
    assert_eq!(last, Action::Report { downloaded: 12, total: Some(12) });
    assert_eq!(replayed.replay(&Vec::new()), last);
}

#[test]
fn state_steps_without_a_transfer() {
    let state = TransferState::start();
    assert_eq!(state.action(), Action::Probe);
    let state = state.next(Event::Probed { exists: false });
    assert_eq!(state, TransferState { phase: Phase::Connecting, total: None, downloaded: 0 });
    let state = state.next(Event::Connected { content_length: None });
    assert_eq!(state.action(), Action::Acquire);
    let state = state.next(Event::Created);
    assert_eq!(state, TransferState { phase: Phase::Pulling, total: None, downloaded: 0 });
    let state = state.next(Event::Chunk { len: 3 });
    assert_eq!(state.phase, Phase::Writing { len: 3 });
    let state = state.next(Event::Written);
    assert_eq!(state.action(), Action::Report { downloaded: 3, total: None });
}

#[test]
fn count_saturates_without_a_total() {
    let state = TransferState { phase: Phase::Writing { len: 10 }, total: None, downloaded: u64::MAX - 4 };
    assert_eq!(state.next(Event::Written).downloaded, u64::MAX);
}

#[test]
fn every_chunk_received_is_written_once() {
    let lengths = [4096usize, 4096, 1808];
    let declared: u64 = 10_000;
    let mut transfer = streaming(Some(declared));
    let mut asked_to_write: u64 = 0;
    for len in lengths {
        match transfer.step(Event::Chunk { len }) {
            Action::Write { len: asked } => asked_to_write += asked as u64,
            other => panic!("unexpected action {:?}", other),
        }
        transfer.step(Event::Written);
        transfer.step(Event::Reported);
    }
    assert_eq!(transfer.step(Event::StreamEnded), Action::Finish);
    assert_eq!(asked_to_write, 4096 + 4096 + 1808);
    assert_eq!(asked_to_write, declared);
    assert_eq!(transfer.state().downloaded, declared);
}

#[test]
fn nothing_touches_the_file_before_the_connection() {
    let mut transfer = transfer_of("https://example.com/a.bin", "a.bin");
    for event in [
        Event::Created,
        Event::Chunk { len: 1 },
        Event::Probed { exists: false },
        Event::Created,
        Event::Written,
        Event::Reported,
        Event::StreamEnded,
    ] {
        let action = transfer.step(event);
        assert!(action == Action::Probe || action == Action::Connect);
    }
    assert_eq!(transfer.step(Event::Connected { content_length: None }), Action::Acquire);
}

fn positions(total: Option<u64>, events: &[Event]) -> (Vec<u64>, Transfer) {
    let mut transfer = streaming(total);
    let mut shown = Vec::new();
    for event in events {
        if let Action::Report { downloaded, total: declared } = transfer.step(*event) {
            assert_eq!(declared, total);
            shown.push(downloaded);
            assert_eq!(transfer.step(Event::Reported), Action::Pull);
        }
    }
    (shown, transfer)
}

#[test]
fn no_report_is_asked_for_before_the_first_chunk() {
    let mut transfer = transfer_of("https://example.com/a.bin", "a.bin");
    for event in [
        Event::Probed { exists: false },
        Event::Connected { content_length: Some(7) },
        Event::Created,
        Event::Chunk { len: 7 },
    ] {
        assert!(!matches!(transfer.step(event), Action::Report { .. }));
    }
    assert_eq!(transfer.step(Event::Written), Action::Report { downloaded: 7, total: Some(7) });
}

#[test]
fn one_position_is_reported_for_each_chunk_without_a_total() {
    let (shown, transfer) = positions(
        None,
        &[
            Event::Chunk { len: 3 },
            Event::Written,
            Event::Chunk { len: 2 },
            Event::Written,
            Event::StreamEnded,
        ],
    );
    assert_eq!(shown, vec![3, 5]);
    assert_eq!(transfer.outcome(), Some(Ok(())));
}

#[test]
fn each_position_is_the_sum_so_far_held_at_the_total() {
    let (shown, transfer) = positions(
        Some(10),
        &[
            Event::Chunk { len: 4 },
            Event::Written,
            Event::Chunk { len: 5 },
            Event::Written,
            Event::Chunk { len: 6 },
            Event::Written,
            Event::StreamEnded,
        ],
    );
    assert_eq!(shown, vec![4, 9, 10]);
    assert_eq!(transfer.outcome(), Some(Ok(())));
}

#[test]
fn stream_failure_after_two_chunks_leaves_two_positions() {
    let (shown, mut transfer) = positions(
        Some(100),
        &[
            Event::Chunk { len: 10 },
            Event::Written,
            Event::Chunk { len: 20 },
            Event::Written,
            Event::StreamFailed,
        ],
    );
    assert_eq!(shown, vec![10, 30]);
    assert_eq!(transfer.outcome(), Some(Err(DownloadError::StreamFailed)));
    assert_eq!(transfer.action(), Action::Abort(DownloadError::StreamFailed));
    assert_eq!(transfer.step(Event::Reported), Action::Abort(DownloadError::StreamFailed));
    assert_eq!(transfer.state().downloaded, 30);
}

#[test]
fn write_failure_on_the_third_chunk_leaves_two_positions() {
    let (shown, transfer) = positions(
        None,
        &[
            Event::Chunk { len: 10 },
            Event::Written,
            Event::Chunk { len: 20 },
            Event::Written,
            Event::Chunk { len: 40 },
            Event::WriteFailed,
        ],
    );
    assert_eq!(shown, vec![10, 30]);
    assert_eq!(transfer.outcome(), Some(Err(DownloadError::WriteFailed)));
    assert_eq!(transfer.state().downloaded, 30);
}

#[test]
fn empty_body_reports_no_position() {
    let (shown, transfer) = positions(Some(0), &[Event::StreamEnded]);
    assert_eq!(shown, Vec::<u64>::new());
    assert_eq!(transfer.outcome(), Some(Ok(())));
}
