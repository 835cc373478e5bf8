use downloader::error::TransferError;
use downloader::run::{
    AfterFlush, RunPhase, TaskOutcome, TransferAction, TransferEvent, TransferRun, TransferStep,
};
use downloader::state::DownloadState;

const MIB: u64 = 1024 * 1024;

fn ok_response(length: u64) -> TransferEvent {
    TransferEvent::Response { status: 200, range_start: None, length: Some(length) }
}

fn partial_response(start: u64, length: u64) -> TransferEvent {
    TransferEvent::Response { status: 206, range_start: Some(start), length: Some(length) }
}

/// Drives a run as a caller would: every chunk is appended to `file`, and a
/// cancellation is delivered once `cancel_after` chunks have been read.
fn drive(
    run: &mut TransferRun,
    file: &mut Vec<u8>,
    resource: &[u8],
    chunk: usize,
    ranges: bool,
    cancel_after: Option<usize>,
) -> Vec<DownloadState> {
    let mut updates: Vec<DownloadState> = Vec::new();
    let mut body: Vec<u8> = Vec::new();
    let mut chunks_read: usize = 0;
    let mut step: TransferStep = run.step(TransferEvent::Begin);
    loop {
        if let Some(state) = step.emit.clone() {
            updates.push(state);
        }
        let event = match step.action {
            TransferAction::SendRequest { range_from, keep } => {
                file.truncate(keep as usize);
                match range_from {
                    Some(from) if ranges => {
                        body = resource[from as usize..].to_vec();
                        partial_response(from, body.len() as u64)
                    }
                    _ => {
                        body = resource.to_vec();
                        ok_response(body.len() as u64)
                    }
                }
            }
            TransferAction::ReadChunk => {
                if cancel_after == Some(chunks_read) {
                    TransferEvent::Cancel
                } else if body.is_empty() {
                    TransferEvent::EndOfBody
                } else {
                    let n: usize = chunk.min(body.len());
                    let rest: Vec<u8> = body.split_off(n);
                    file.extend_from_slice(&body);
                    body = rest;
                    chunks_read += 1;
                    TransferEvent::Chunk { len: n as u64 }
                }
            }
            TransferAction::Flush => TransferEvent::Flushed,
            TransferAction::Done { .. } | TransferAction::Abort { .. } => return updates,
            TransferAction::Nothing => panic!("the driver sent an event out of turn"),
        };
        step = run.step(event);
    }
}

fn resource(len: usize) -> Vec<u8> {
    let mut bytes: Vec<u8> = Vec::with_capacity(len);
    let mut i: usize = 0;
    while i < len {
        bytes.push((i * 31 % 251) as u8);
        i += 1;
    }
    bytes
}

#[test]
fn fresh_run_sends_plain_request() {
    let mut run = TransferRun::new(0, 10);
    let step = run.step(TransferEvent::Begin);
    assert_eq!(step.action, TransferAction::SendRequest { range_from: None, keep: 0 });
    assert_eq!(step.emit, None);
    assert_eq!(run.phase(), RunPhase::Requested);
}

#[test]
fn resumed_run_sends_range_request() {
    let mut run = TransferRun::new(4096, 10);
    assert_eq!(run.downloaded(), 4096);
    let step = run.step(TransferEvent::Begin);
    assert_eq!(step.action, TransferAction::SendRequest { range_from: Some(4096), keep: 4096 });
}

#[test]
fn accepted_response_announces_total() {
    let mut run = TransferRun::new(0, 10);
    run.step(TransferEvent::Begin);
    let step = run.step(ok_response(100));
    assert_eq!(step.action, TransferAction::ReadChunk);
    assert_eq!(step.emit, Some(DownloadState::Downloading(0, Some(100))));
    assert_eq!(run.total(), Some(100));
}

#[test]
fn partial_response_total_counts_kept_bytes() {
    let mut run = TransferRun::new(40, 10);
    run.step(TransferEvent::Begin);
    let step = run.step(partial_response(40, 60));
    assert_eq!(step.emit, Some(DownloadState::Downloading(40, Some(100))));
    assert_eq!(run.total(), Some(100));
}

#[test]
fn total_that_overflows_is_unknown() {
    let mut run = TransferRun::new(40, 10);
    run.step(TransferEvent::Begin);
    let step = run.step(partial_response(40, u64::MAX));
    assert_eq!(step.emit, Some(DownloadState::Downloading(40, None)));
}

#[test]
fn full_content_to_range_request_is_resume_mismatch() {
    let mut run = TransferRun::new(40, 10);
    run.step(TransferEvent::Begin);
    let step = run.step(ok_response(100));
    let error = TransferError::ResumeMismatch { offset: 40 };
    assert_eq!(step.action, TransferAction::Abort { error });
    assert_eq!(step.emit, Some(DownloadState::Failed(error.message())));
    assert_eq!(run.downloaded(), 0);
    assert_eq!(run.outcome(), Some(TaskOutcome::Failed { error, bytes: 0 }));
}

#[test]
fn partial_content_at_wrong_offset_is_resume_mismatch() {
    let mut run = TransferRun::new(40, 10);
    run.step(TransferEvent::Begin);
    let step = run.step(partial_response(41, 59));
    assert_eq!(
        step.action,
        TransferAction::Abort { error: TransferError::ResumeMismatch { offset: 40 } }
    );
}

#[test]
fn partial_content_without_range_is_resume_mismatch() {
    let mut run = TransferRun::new(40, 10);
    run.step(TransferEvent::Begin);
    let step =
        run.step(TransferEvent::Response { status: 206, range_start: None, length: Some(60) });
    assert_eq!(
        step.action,
        TransferAction::Abort { error: TransferError::ResumeMismatch { offset: 40 } }
    );
}

#[test]
fn stray_range_to_plain_request_is_refused() {
    let mut run = TransferRun::new(0, 10);
    run.step(TransferEvent::Begin);
    let step = run.step(partial_response(7, 93));
    assert_eq!(
        step.action,
        TransferAction::Abort { error: TransferError::ResumeMismatch { offset: 0 } }
    );
}

#[test]
fn non_success_status_fails_the_run() {
    let mut run = TransferRun::new(0, 10);
    run.step(TransferEvent::Begin);
    let step = run.step(TransferEvent::Response { status: 404, range_start: None, length: None });
    let error = TransferError::Status(404);
    assert_eq!(step.action, TransferAction::Abort { error });
    assert_eq!(step.emit, Some(DownloadState::Failed(error.message())));
    assert_eq!(run.outcome(), Some(TaskOutcome::Failed { error, bytes: 0 }));
}

#[test]
fn success_range_bounds() {
    for (status, accepted) in [(199u16, false), (200, true), (299, true), (300, false)] {
        let mut run = TransferRun::new(0, 10);
        run.step(TransferEvent::Begin);
        let step = run.step(TransferEvent::Response { status, range_start: None, length: None });
        assert_eq!(step.action == TransferAction::ReadChunk, accepted, "status {}", status);
    }
}

#[test]
fn progress_is_reported_at_the_interval() {
    let mut run = TransferRun::new(0, 10);
    run.step(TransferEvent::Begin);
    run.step(ok_response(100));
    let step = run.step(TransferEvent::Chunk { len: 4 });
    assert_eq!(step, TransferStep { action: TransferAction::ReadChunk, emit: None });
    let step = run.step(TransferEvent::Chunk { len: 5 });
    assert_eq!(step, TransferStep { action: TransferAction::ReadChunk, emit: None });
    assert_eq!(run.downloaded(), 0);
    let step = run.step(TransferEvent::Chunk { len: 1 });
    assert_eq!(step, TransferStep { action: TransferAction::Flush, emit: None });
    assert_eq!(run.phase(), RunPhase::Flushing(AfterFlush::Continue));
    let step = run.step(TransferEvent::Flushed);
    assert_eq!(step.action, TransferAction::ReadChunk);
    assert_eq!(step.emit, Some(DownloadState::Downloading(10, Some(100))));
    assert_eq!(run.downloaded(), 10);
}

#[test]
fn interval_zero_reports_every_chunk() {
    let mut run = TransferRun::new(0, 0);
    run.step(TransferEvent::Begin);
    run.step(ok_response(100));
    assert_eq!(run.step(TransferEvent::Chunk { len: 1 }).action, TransferAction::Flush);
    run.step(TransferEvent::Flushed);
    assert_eq!(run.step(TransferEvent::Chunk { len: 0 }).action, TransferAction::ReadChunk);
}

#[test]
fn cancel_flushes_pending_bytes_before_pause() {
    let mut run = TransferRun::new(0, 10);
    run.step(TransferEvent::Begin);
    run.step(ok_response(100));
    run.step(TransferEvent::Chunk { len: 7 });
    let step = run.step(TransferEvent::Cancel);
    assert_eq!(step, TransferStep { action: TransferAction::Flush, emit: None });
    assert!(!run.is_finished());
    let step = run.step(TransferEvent::Flushed);
    assert_eq!(step.action, TransferAction::Done { bytes: 7 });
    assert_eq!(step.emit, Some(DownloadState::Paused(7)));
    assert_eq!(run.outcome(), Some(TaskOutcome::Paused { bytes: 7 }));
    assert!(run.is_finished());
}

#[test]
fn cancel_without_pending_bytes_pauses_at_once() {
    let mut run = TransferRun::new(0, 10);
    run.step(TransferEvent::Begin);
    run.step(ok_response(100));
    let step = run.step(TransferEvent::Cancel);
    assert_eq!(step.action, TransferAction::Done { bytes: 0 });
    assert_eq!(step.emit, Some(DownloadState::Paused(0)));
}

#[test]
fn cancel_while_response_is_awaited_pauses() {
    let mut run = TransferRun::new(12, 10);
    run.step(TransferEvent::Begin);
    let step = run.step(TransferEvent::Cancel);
    assert_eq!(step.action, TransferAction::Done { bytes: 12 });
    assert_eq!(step.emit, Some(DownloadState::Paused(12)));
}

#[test]
fn cancel_before_begin_is_ignored() {
    let mut run = TransferRun::new(12, 10);
    let step = run.step(TransferEvent::Cancel);
    assert_eq!(step, TransferStep { action: TransferAction::Nothing, emit: None });
    assert_eq!(run.phase(), RunPhase::Created);
}

#[test]
fn cancel_during_flush_turns_it_into_a_pause() {
    let mut run = TransferRun::new(0, 10);
    run.step(TransferEvent::Begin);
    run.step(ok_response(100));
    run.step(TransferEvent::Chunk { len: 10 });
    let step = run.step(TransferEvent::Cancel);
    assert_eq!(step, TransferStep { action: TransferAction::Nothing, emit: None });
    assert_eq!(run.phase(), RunPhase::Flushing(AfterFlush::Pause));
    let step = run.step(TransferEvent::Flushed);
    assert_eq!(step.emit, Some(DownloadState::Paused(10)));
}

#[test]
fn cancel_during_last_flush_does_not_undo_completion() {
    let mut run = TransferRun::new(0, 10);
    run.step(TransferEvent::Begin);
    run.step(ok_response(5));
    run.step(TransferEvent::Chunk { len: 5 });
    assert_eq!(run.step(TransferEvent::EndOfBody).action, TransferAction::Flush);
    run.step(TransferEvent::Cancel);
    let step = run.step(TransferEvent::Flushed);
    assert_eq!(step.emit, Some(DownloadState::Completed(5)));
    assert_eq!(run.outcome(), Some(TaskOutcome::Completed { bytes: 5 }));
}

#[test]
fn end_of_body_completes() {
    let mut run = TransferRun::new(0, 4);
    run.step(TransferEvent::Begin);
    run.step(ok_response(4));
    run.step(TransferEvent::Chunk { len: 4 });
    run.step(TransferEvent::Flushed);
    let step = run.step(TransferEvent::EndOfBody);
    assert_eq!(step.action, TransferAction::Done { bytes: 4 });
    assert_eq!(step.emit, Some(DownloadState::Completed(4)));
}

#[test]
fn connection_loss_gives_up_unflushed_bytes() {
    let mut run = TransferRun::new(0, 10);
    run.step(TransferEvent::Begin);
    run.step(ok_response(100));
    run.step(TransferEvent::Chunk { len: 10 });
    run.step(TransferEvent::Flushed);
    run.step(TransferEvent::Chunk { len: 3 });
    let step = run.step(TransferEvent::ConnectionLost);
    let error = TransferError::Connection;
    assert_eq!(step.action, TransferAction::Abort { error });
    assert_eq!(step.emit, Some(DownloadState::Failed(error.message())));
    assert_eq!(run.outcome(), Some(TaskOutcome::Failed { error, bytes: 10 }));
}

#[test]
fn write_failure_fails_the_run() {
    let mut run = TransferRun::new(0, 10);
    run.step(TransferEvent::Begin);
    run.step(ok_response(100));
    let step = run.step(TransferEvent::WriteFailed);
    assert_eq!(step.action, TransferAction::Abort { error: TransferError::Write });
    let mut run = TransferRun::new(0, 1);
    run.step(TransferEvent::Begin);
    run.step(ok_response(100));
    run.step(TransferEvent::Chunk { len: 1 });
    let step = run.step(TransferEvent::WriteFailed);
    assert_eq!(step.action, TransferAction::Abort { error: TransferError::Write });
    assert_eq!(run.downloaded(), 0);
}

#[test]
fn byte_count_overflow_fails_the_run() {
    let mut run = TransferRun::new(u64::MAX - 5, 100);
    run.step(TransferEvent::Begin);
    run.step(partial_response(u64::MAX - 5, 5));
    assert_eq!(run.step(TransferEvent::Chunk { len: 5 }).action, TransferAction::ReadChunk);
    let step = run.step(TransferEvent::Chunk { len: 1 });
    assert_eq!(step.action, TransferAction::Abort { error: TransferError::Overflow });
    assert_eq!(run.downloaded(), u64::MAX - 5);
}

#[test]
fn ended_run_ignores_every_event() {
    let mut run = TransferRun::new(0, 10);
    run.step(TransferEvent::Begin);
    run.step(ok_response(0));
    run.step(TransferEvent::EndOfBody);
    let outcome = run.outcome();
    assert_eq!(outcome, Some(TaskOutcome::Completed { bytes: 0 }));
    for event in [
        TransferEvent::Begin,
        ok_response(5),
        TransferEvent::Chunk { len: 5 },
        TransferEvent::EndOfBody,
        TransferEvent::Flushed,
        TransferEvent::Cancel,
        TransferEvent::ConnectionLost,
        TransferEvent::WriteFailed,
    ] {
        let step = run.step(event);
        assert_eq!(step, TransferStep { action: TransferAction::Nothing, emit: None });
        assert_eq!(run.outcome(), outcome);
    }
}

#[test]
fn events_out_of_turn_change_nothing() {
    let mut run = TransferRun::new(3, 10);
    for event in [TransferEvent::Chunk { len: 5 }, TransferEvent::Flushed, ok_response(1)] {
        assert_eq!(run.step(event).action, TransferAction::Nothing);
        assert_eq!(run, TransferRun::new(3, 10));
    }
    run.step(TransferEvent::Begin);
    assert_eq!(run.step(TransferEvent::Chunk { len: 5 }).action, TransferAction::Nothing);
    assert_eq!(run.step(TransferEvent::Begin).action, TransferAction::Nothing);
    assert_eq!(run.downloaded(), 3);
    assert_eq!(run.outcome(), None);
}

#[test]
fn scenario_whole_download_of_ten_mebibytes() {
    let source = resource(10 * MIB as usize);
    let mut file: Vec<u8> = Vec::new();
    let mut run = TransferRun::new(0, 65536);
    let updates = drive(&mut run, &mut file, &source, 16 * 1024, true, None);
    assert_eq!(updates.last(), Some(&DownloadState::Completed(10 * MIB)));
    assert_eq!(file.len() as u64, 10 * MIB);
    assert_eq!(file, source);
    assert_eq!(run.outcome(), Some(TaskOutcome::Completed { bytes: 10 * MIB }));
}

#[test]
fn scenario_pause_and_resume_rebuilds_the_resource() {
    let source = resource(1_000_003);
    let mut file: Vec<u8> = Vec::new();
    let mut first = TransferRun::new(0, 4096);
    let updates = drive(&mut first, &mut file, &source, 1000, true, Some(137));
    assert_eq!(updates.last(), Some(&DownloadState::Paused(137_000)));
    assert_eq!(file.len(), 137_000);
    let mut second = TransferRun::new(first.downloaded(), 4096);
    let updates = drive(&mut second, &mut file, &source, 1000, true, None);
    assert_eq!(updates.first(), Some(&DownloadState::Downloading(137_000, Some(1_000_003))));
    assert_eq!(updates.last(), Some(&DownloadState::Completed(1_000_003)));
    assert_eq!(file, source);
}

#[test]
fn resume_against_server_without_ranges_restarts_from_zero() {
    let source = resource(50_000);
    let mut file: Vec<u8> = Vec::new();
    let mut first = TransferRun::new(0, 4096);
    drive(&mut first, &mut file, &source, 1000, false, Some(20));
    assert_eq!(first.downloaded(), 20_000);
    let mut second = TransferRun::new(first.downloaded(), 4096);
    let updates = drive(&mut second, &mut file, &source, 1000, false, None);
    assert_eq!(
        updates,
        vec![DownloadState::Failed(TransferError::ResumeMismatch { offset: 20_000 }.message())]
    );
    assert_eq!(second.downloaded(), 0);
    let mut third = TransferRun::new(second.downloaded(), 4096);
    let updates = drive(&mut third, &mut file, &source, 1000, false, None);
    assert_eq!(updates.last(), Some(&DownloadState::Completed(50_000)));
    assert_eq!(file, source);
}

#[test]
fn reported_byte_counts_never_decrease() {
    let source = resource(300_000);
    let mut file: Vec<u8> = Vec::new();
    let mut run = TransferRun::new(0, 2500);
    let mut updates = drive(&mut run, &mut file, &source, 700, true, Some(200));
    let mut again = TransferRun::new(run.downloaded(), 2500);
    updates.extend(drive(&mut again, &mut file, &source, 700, true, None));
    let counts: Vec<u64> = updates.iter().filter_map(|state| state.bytes()).collect();
    assert!(counts.len() > 100);
    assert!(counts.windows(2).all(|pair| pair[0] <= pair[1]));
    assert_eq!(counts.last(), Some(&300_000));
}

#[test]
fn paused_count_is_the_length_of_the_file() {
    let source = resource(90_000);
    for cancel_after in [0usize, 1, 2, 17, 89] {
        let mut file: Vec<u8> = Vec::new();
        let mut run = TransferRun::new(0, 4096);
        let updates = drive(&mut run, &mut file, &source, 1000, true, Some(cancel_after));
        assert_eq!(updates.last(), Some(&DownloadState::Paused(file.len() as u64)));
        assert_eq!(run.downloaded(), file.len() as u64);
        assert_eq!(file.len(), cancel_after * 1000);
    }
}
