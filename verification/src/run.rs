//! One run of a transfer: the decisions of the transfer loop as a state
//! machine.
//!
//! The caller performs the network and file operations. It feeds every
//! outcome to [`TransferRun::step`] as a [`TransferEvent`] and carries out
//! the [`TransferAction`] that comes back, publishing the update that the
//! step emits, if any.

use vstd::prelude::*;
use crate::error::{JoinFailure, TransferError};
use crate::state::{DownloadState, DownloadStateView};

verus! {

/// What a pending flush is followed by.
#[derive(Clone, Copy, Debug, PartialEq, Eq, Structural)]
pub enum AfterFlush {
    /// The body is read further.
    Continue,
    /// The run ends paused.
    Pause,
    /// The run ends completed.
    Complete,
}

/// How a run ended.
#[derive(Clone, Copy, Debug, PartialEq, Eq, Structural)]
pub enum RunEnd {
    /// The cancellation signal was honoured.
    Paused,
    /// The whole body was received.
    Completed,
    /// The run failed.
    Failed(TransferError),
}

/// What the task of a run reports when it is awaited.
#[derive(Clone, Copy, Debug, PartialEq, Eq, Structural)]
pub enum TaskOutcome {
    /// The run was paused with `bytes` held in the file.
    Paused { bytes: u64 },
    /// The run completed with `bytes` held in the file.
    Completed { bytes: u64 },
    /// The run failed with `error`; `bytes` of the file remain usable.
    Failed { error: TransferError, bytes: u64 },
    /// The task could not be awaited cleanly.
    JoinFailed(JoinFailure),
}

/// Where a run stands.
#[derive(Clone, Copy, Debug, PartialEq, Eq, Structural)]
pub enum RunPhase {
    /// Nothing has been sent yet.
    Created,
    /// The request is out and the response is awaited.
    Requested,
    /// The response was accepted and the body is being read.
    Streaming,
    /// A flush of the destination file is awaited.
    Flushing(AfterFlush),
    /// The run has ended.
    Finished(RunEnd),
}

/// An outcome that the caller reports to the run.
#[derive(Clone, Copy, Debug, PartialEq, Eq, Structural)]
pub enum TransferEvent {
    /// The task has been started.
    Begin,
    /// The response head arrived: its status, the first byte position of
    /// the range it announces, and the length of its body.
    Response { status: u16, range_start: Option<u64>, length: Option<u64> },
    /// A chunk of `len` bytes was read and appended to the destination file.
    Chunk { len: u64 },
    /// The body has ended.
    EndOfBody,
    /// The destination file was flushed.
    Flushed,
    /// The cancellation signal was observed.
    Cancel,
    /// The connection failed.
    ConnectionLost,
    /// Writing or flushing the destination file failed.
    WriteFailed,
}

/// What the caller has to do next.
#[derive(Clone, Copy, Debug, PartialEq, Eq, Structural)]
pub enum TransferAction {
    /// Cut the destination file to `keep` bytes and send the request, as a
    /// range request from `range_from` where that is given.
    SendRequest { range_from: Option<u64>, keep: u64 },
    /// Read the next chunk of the body and append it to the file.
    ReadChunk,
    /// Flush the destination file.
    Flush,
    /// End the task without error; `bytes` are held in the file.
    Done { bytes: u64 },
    /// End the task with `error`.
    Abort { error: TransferError },
    /// The event changes nothing; go on with what was being done.
    Nothing,
}

/// The answer of one step: the next action and the update to publish.
#[derive(Clone, Debug, PartialEq, Eq)]
pub struct TransferStep {
    pub action: TransferAction,
    pub emit: Option<DownloadState>,
}

/// The mathematical value of a `TransferStep`.
pub struct StepView {
    pub action: TransferAction,
    pub emit: Option<DownloadStateView>,
}

impl View for TransferStep {
    type V = StepView;

    open spec fn view(&self) -> StepView {
        StepView {
            action: self.action,
            emit: match self.emit {
                Some(s) => Some(s@),
                None => None,
            },
        }
    }
}

/// The mathematical value of a run.
pub struct RunView {
    /// The offset that the run was asked to continue from; 0 for a fresh run.
    pub offset: u64,
    /// The bytes that are durably in the destination file.
    pub flushed: u64,
    /// The bytes appended to the file since the last flush.
    pub pending: u64,
    /// The total size, once the server has announced it.
    pub total: Option<u64>,
    /// The number of unflushed bytes from which a flush and an update are due.
    pub interval: u64,
    /// Where the run stands.
    pub phase: RunPhase,
}

/// The partial-content status of HTTP.
pub const PARTIAL_CONTENT: u16 = 206;

/// Whether `status` is in the success range of HTTP.
pub open spec fn is_success(status: u16) -> bool {
    200 <= status < 300
}

/// The total size that a response announces: the length of its body after
/// the bytes that precede it, if both are known and the sum fits.
pub open spec fn announced_total(offset: u64, length: Option<u64>) -> Option<u64> {
    match length {
        Some(l) => if offset + l <= u64::MAX {
            Some((offset + l) as u64)
        } else {
            None
        },
        None => None,
    }
}

impl RunView {
    /// The run at its creation.
    pub open spec fn initial(offset: u64, interval: u64) -> RunView {
        RunView {
            offset,
            flushed: offset,
            pending: 0,
            total: None,
            interval,
            phase: RunPhase::Created,
        }
    }

    /// The byte counts of a run never exceed 64 bits together.
    pub open spec fn wf(self) -> bool {
        self.flushed + self.pending <= u64::MAX
    }

    /// The range that the request asks for: from the offset, if there is one.
    pub open spec fn range_from(self) -> Option<u64> {
        if self.offset > 0 {
            Some(self.offset)
        } else {
            None
        }
    }

    /// Whether a body that is announced to start at `range_start` begins
    /// where the run continues: a response that announces no range begins
    /// at the first byte.
    pub open spec fn begins_at_offset(self, range_start: Option<u64>) -> bool {
        match range_start {
            Some(start) => start == self.offset,
            None => self.offset == 0,
        }
    }

    /// Whether a response is accepted. A ranged request must be confirmed
    /// with partial content that starts at the offset; any other request
    /// needs a success status and a body that begins at the first byte.
    pub open spec fn accepts(self, status: u16, range_start: Option<u64>) -> bool {
        &&& self.begins_at_offset(range_start)
        &&& if self.offset > 0 {
            status == PARTIAL_CONTENT
        } else {
            is_success(status)
        }
    }

    /// The failure with which a response that is not accepted ends the run:
    /// a status outside the success range in answer to a request without a
    /// range, and a resume mismatch in every other case.
    pub open spec fn rejection(self, status: u16) -> TransferError {
        if self.offset == 0 && !is_success(status) {
            TransferError::Status(status)
        } else {
            TransferError::ResumeMismatch { offset: self.offset }
        }
    }

    /// The run ends with `error`: the unflushed bytes are given up, and
    /// after a resume mismatch nothing of the file counts any more.
    pub open spec fn failed(self, error: TransferError) -> (RunView, StepView) {
        (
            RunView {
                flushed: if error is ResumeMismatch {
                    0
                } else {
                    self.flushed
                },
                pending: 0,
                phase: RunPhase::Finished(RunEnd::Failed(error)),
                ..self
            },
            StepView {
                action: TransferAction::Abort { error },
                emit: Some(DownloadStateView::Failed(error.message_spec())),
            },
        )
    }

    /// The last update of a run that ends without error.
    pub open spec fn closing_state(self, end: RunEnd) -> DownloadStateView {
        if end is Completed {
            DownloadStateView::Completed(self.flushed)
        } else {
            DownloadStateView::Paused(self.flushed)
        }
    }

    /// The run ends without error, paused or completed.
    pub open spec fn ended(self, end: RunEnd) -> (RunView, StepView) {
        (
            RunView { phase: RunPhase::Finished(end), ..self },
            StepView {
                action: TransferAction::Done { bytes: self.flushed },
                emit: Some(self.closing_state(end)),
            },
        )
    }

    /// What the task of the run reports, once the run has ended.
    pub open spec fn outcome(self) -> Option<TaskOutcome> {
        match self.phase {
            RunPhase::Finished(RunEnd::Paused) => Some(TaskOutcome::Paused { bytes: self.flushed }),
            RunPhase::Finished(RunEnd::Completed) => Some(
                TaskOutcome::Completed { bytes: self.flushed },
            ),
            RunPhase::Finished(RunEnd::Failed(error)) => Some(
                TaskOutcome::Failed { error, bytes: self.flushed },
            ),
            _ => None,
        }
    }

    /// The event changes nothing.
    pub open spec fn unchanged(self) -> (RunView, StepView) {
        (self, StepView { action: TransferAction::Nothing, emit: None })
    }

    /// A flush is awaited, to be followed by `then`.
    pub open spec fn flushing(self, then: AfterFlush) -> (RunView, StepView) {
        (
            RunView { phase: RunPhase::Flushing(then), ..self },
            StepView { action: TransferAction::Flush, emit: None },
        )
    }

    /// The run after the pending bytes have become durable.
    pub open spec fn settled(self) -> RunView {
        RunView { flushed: (self.flushed + self.pending) as u64, pending: 0, ..self }
    }

    /// The run and the answer after one event.
    pub open spec fn step(self, event: TransferEvent) -> (RunView, StepView) {
        match self.phase {
            RunPhase::Created => match event {
                TransferEvent::Begin => (
                    RunView { phase: RunPhase::Requested, ..self },
                    StepView {
                        action: TransferAction::SendRequest {
                            range_from: self.range_from(),
                            keep: self.offset,
                        },
                        emit: None,
                    },
                ),
                _ => self.unchanged(),
            },
            RunPhase::Requested => match event {
                TransferEvent::Response { status, range_start, length } => {
                    if self.accepts(status, range_start) {
                        let total = announced_total(self.offset, length);
                        (
                            RunView { total, phase: RunPhase::Streaming, ..self },
                            StepView {
                                action: TransferAction::ReadChunk,
                                emit: Some(DownloadStateView::Downloading(self.flushed, total)),
                            },
                        )
                    } else {
                        self.failed(self.rejection(status))
                    }
                },
                TransferEvent::Cancel => self.ended(RunEnd::Paused),
                TransferEvent::ConnectionLost => self.failed(TransferError::Connection),
                TransferEvent::WriteFailed => self.failed(TransferError::Write),
                _ => self.unchanged(),
            },
            RunPhase::Streaming => match event {
                TransferEvent::Chunk { len } => {
                    if self.flushed + self.pending + len > u64::MAX {
                        self.failed(TransferError::Overflow)
                    } else {
                        let grown = RunView { pending: (self.pending + len) as u64, ..self };
                        if grown.pending > 0 && grown.pending >= self.interval {
                            grown.flushing(AfterFlush::Continue)
                        } else {
                            (grown, StepView { action: TransferAction::ReadChunk, emit: None })
                        }
                    }
                },
                TransferEvent::EndOfBody => if self.pending > 0 {
                    self.flushing(AfterFlush::Complete)
                } else {
                    self.ended(RunEnd::Completed)
                },
                TransferEvent::Cancel => if self.pending > 0 {
                    self.flushing(AfterFlush::Pause)
                } else {
                    self.ended(RunEnd::Paused)
                },
                TransferEvent::ConnectionLost => self.failed(TransferError::Connection),
                TransferEvent::WriteFailed => self.failed(TransferError::Write),
                _ => self.unchanged(),
            },
            RunPhase::Flushing(then) => match event {
                TransferEvent::Flushed => {
                    let settled = self.settled();
                    match then {
                        AfterFlush::Continue => (
                            RunView { phase: RunPhase::Streaming, ..settled },
                            StepView {
                                action: TransferAction::ReadChunk,
                                emit: Some(
                                    DownloadStateView::Downloading(settled.flushed, settled.total),
                                ),
                            },
                        ),
                        AfterFlush::Pause => settled.ended(RunEnd::Paused),
                        AfterFlush::Complete => settled.ended(RunEnd::Completed),
                    }
                },
                TransferEvent::Cancel => if then is Continue {
                    (
                        RunView { phase: RunPhase::Flushing(AfterFlush::Pause), ..self },
                        StepView { action: TransferAction::Nothing, emit: None },
                    )
                } else {
                    self.unchanged()
                },
                TransferEvent::ConnectionLost => self.failed(TransferError::Connection),
                TransferEvent::WriteFailed => self.failed(TransferError::Write),
                _ => self.unchanged(),
            },
            RunPhase::Finished(_) => self.unchanged(),
        }
    }
}

/// One run of a transfer.
#[derive(Debug, PartialEq, Eq)]
pub struct TransferRun {
    offset: u64,
    flushed: u64,
    pending: u64,
    total: Option<u64>,
    interval: u64,
    phase: RunPhase,
}

impl View for TransferRun {
    type V = RunView;

    closed spec fn view(&self) -> RunView {
        RunView {
            offset: self.offset,
            flushed: self.flushed,
            pending: self.pending,
            total: self.total,
            interval: self.interval,
            phase: self.phase,
        }
    }
}

impl TransferRun {
    #[verifier::type_invariant]
    spec fn inv(self) -> bool {
        self@.wf()
    }

    /// Creates a run that continues a file of `offset` bytes and reports
    /// progress whenever `interval` bytes have been written since the last
    /// report (after every chunk where `interval` is 0).
    pub fn new(offset: u64, interval: u64) -> (run: TransferRun)
        ensures
            run@ == RunView::initial(offset, interval),
    {
        TransferRun {
            offset,
            flushed: offset,
            pending: 0,
            total: None,
            interval,
            phase: RunPhase::Created,
        }
    }

    /// Returns the number of bytes that are durably in the destination file.
    pub fn downloaded(&self) -> (b: u64)
        ensures
            b == self@.flushed,
    {
        self.flushed
    }

    /// Returns the total size, once the server has announced it.
    pub fn total(&self) -> (t: Option<u64>)
        ensures
            t == self@.total,
    {
        self.total
    }

    /// Returns where the run stands.
    pub fn phase(&self) -> (p: RunPhase)
        ensures
            p == self@.phase,
    {
        self.phase
    }

    /// Returns what the task of the run reports, once the run has ended.
    pub fn outcome(&self) -> (o: Option<TaskOutcome>)
        ensures
            o == self@.outcome(),
    {
        match self.phase {
            RunPhase::Finished(RunEnd::Paused) => Some(TaskOutcome::Paused { bytes: self.flushed }),
            RunPhase::Finished(RunEnd::Completed) => Some(
                TaskOutcome::Completed { bytes: self.flushed },
            ),
            RunPhase::Finished(RunEnd::Failed(error)) => Some(
                TaskOutcome::Failed { error, bytes: self.flushed },
            ),
            _ => None,
        }
    }

    /// Returns whether the run has ended.
    pub fn is_finished(&self) -> (b: bool)
        ensures
            b == (self@.phase is Finished),
    {
        match self.phase {
            RunPhase::Finished(_) => true,
            _ => false,
        }
    }

    fn fail(&mut self, error: TransferError) -> (step: TransferStep)
        ensures
            (final(self)@, step@) == old(self)@.failed(error),
    {
        let flushed: u64 = match error {
            TransferError::ResumeMismatch { .. } => 0,
            _ => self.flushed,
        };
        *self = TransferRun {
            offset: self.offset,
            flushed,
            pending: 0,
            total: self.total,
            interval: self.interval,
            phase: RunPhase::Finished(RunEnd::Failed(error)),
        };
        TransferStep {
            action: TransferAction::Abort { error },
            emit: Some(DownloadState::Failed(error.message())),
        }
    }

    fn end(&mut self, completed: bool) -> (step: TransferStep)
        ensures
            (final(self)@, step@) == old(self)@.ended(
                if completed {
                    RunEnd::Completed
                } else {
                    RunEnd::Paused
                },
            ),
    {
        proof {
            use_type_invariant(&*self);
        }
        let emit = if completed {
            self.phase = RunPhase::Finished(RunEnd::Completed);
            DownloadState::Completed(self.flushed)
        } else {
            self.phase = RunPhase::Finished(RunEnd::Paused);
            DownloadState::Paused(self.flushed)
        };
        TransferStep { action: TransferAction::Done { bytes: self.flushed }, emit: Some(emit) }
    }

    fn flush(&mut self, then: AfterFlush) -> (step: TransferStep)
        ensures
            (final(self)@, step@) == old(self)@.flushing(then),
    {
        proof {
            use_type_invariant(&*self);
        }
        self.phase = RunPhase::Flushing(then);
        TransferStep { action: TransferAction::Flush, emit: None }
    }

    fn on_response(&mut self, status: u16, range_start: Option<u64>, length: Option<u64>) -> (step:
        TransferStep)
        requires
            old(self)@.phase is Requested,
        ensures
            (final(self)@, step@) == old(self)@.step(
                TransferEvent::Response { status, range_start, length },
            ),
    {
        proof {
            use_type_invariant(&*self);
        }
        let success = 200 <= status && status < 300;
        let begins = match range_start {
            Some(start) => start == self.offset,
            None => self.offset == 0,
        };
        let accepted = begins && if self.offset > 0 {
            status == PARTIAL_CONTENT
        } else {
            success
        };
        if accepted {
            let total = match length {
                Some(l) => self.offset.checked_add(l),
                None => None,
            };
            self.total = total;
            self.phase = RunPhase::Streaming;
            TransferStep {
                action: TransferAction::ReadChunk,
                emit: Some(DownloadState::Downloading(self.flushed, total)),
            }
        } else if self.offset == 0 && !success {
            self.fail(TransferError::Status(status))
        } else {
            let offset = self.offset;
            self.fail(TransferError::ResumeMismatch { offset })
        }
    }

    fn on_chunk(&mut self, len: u64) -> (step: TransferStep)
        requires
            old(self)@.phase is Streaming,
        ensures
            (final(self)@, step@) == old(self)@.step(TransferEvent::Chunk { len }),
    {
        proof {
            use_type_invariant(&*self);
        }
        let room: u64 = u64::MAX - self.flushed - self.pending;
        if len > room {
            self.fail(TransferError::Overflow)
        } else {
            self.pending = self.pending + len;
            if self.pending > 0 && self.pending >= self.interval {
                self.flush(AfterFlush::Continue)
            } else {
                TransferStep { action: TransferAction::ReadChunk, emit: None }
            }
        }
    }

    fn on_flushed(&mut self, then: AfterFlush) -> (step: TransferStep)
        requires
            old(self)@.phase == RunPhase::Flushing(then),
        ensures
            (final(self)@, step@) == old(self)@.step(TransferEvent::Flushed),
    {
        proof {
            use_type_invariant(&*self);
        }
        let flushed: u64 = self.flushed + self.pending;
        *self = TransferRun {
            offset: self.offset,
            flushed,
            pending: 0,
            total: self.total,
            interval: self.interval,
            phase: self.phase,
        };
        match then {
            AfterFlush::Continue => {
                self.phase = RunPhase::Streaming;
                TransferStep {
                    action: TransferAction::ReadChunk,
                    emit: Some(DownloadState::Downloading(flushed, self.total)),
                }
            },
            AfterFlush::Pause => self.end(false),
            AfterFlush::Complete => self.end(true),
        }
    }

    /// Takes one event and answers with the next action and the update to
    /// publish. An event that does not fit the phase changes nothing.
    pub fn step(&mut self, event: TransferEvent) -> (step: TransferStep)
        ensures
            (final(self)@, step@) == old(self)@.step(event),
            final(self)@.wf(),
    {
        proof {
            use_type_invariant(&*self);
        }
        let idle = TransferStep { action: TransferAction::Nothing, emit: None };
        let step = match self.phase {
            RunPhase::Created => match event {
                TransferEvent::Begin => {
                    self.phase = RunPhase::Requested;
                    let range_from = if self.offset > 0 {
                        Some(self.offset)
                    } else {
                        None
                    };
                    TransferStep {
                        action: TransferAction::SendRequest { range_from, keep: self.offset },
                        emit: None,
                    }
                },
                _ => idle,
            },
            RunPhase::Requested => match event {
                TransferEvent::Response { status, range_start, length } => self.on_response(
                    status,
                    range_start,
                    length,
                ),
                TransferEvent::Cancel => self.end(false),
                TransferEvent::ConnectionLost => self.fail(TransferError::Connection),
                TransferEvent::WriteFailed => self.fail(TransferError::Write),
                _ => idle,
            },
            RunPhase::Streaming => match event {
                TransferEvent::Chunk { len } => self.on_chunk(len),
                TransferEvent::EndOfBody => if self.pending > 0 {
                    self.flush(AfterFlush::Complete)
                } else {
                    self.end(true)
                },
                TransferEvent::Cancel => if self.pending > 0 {
                    self.flush(AfterFlush::Pause)
                } else {
                    self.end(false)
                },
                TransferEvent::ConnectionLost => self.fail(TransferError::Connection),
                TransferEvent::WriteFailed => self.fail(TransferError::Write),
                _ => idle,
            },
            RunPhase::Flushing(then) => match event {
                TransferEvent::Flushed => self.on_flushed(then),
                TransferEvent::Cancel => {
                    match then {
                        AfterFlush::Continue => {
                            self.phase = RunPhase::Flushing(AfterFlush::Pause);
                        },
                        _ => {},
                    }
                    idle
                },
                TransferEvent::ConnectionLost => self.fail(TransferError::Connection),
                TransferEvent::WriteFailed => self.fail(TransferError::Write),
                _ => idle,
            },
            RunPhase::Finished(_) => idle,
        };
        proof {
            use_type_invariant(&*self);
        }
        step
    }
}

} // verus!
