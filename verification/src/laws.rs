//! What holds of the engine as a whole, stated over the models of its parts
//! and proved from them.

use vstd::prelude::*;
use crate::error::Error;
use crate::manager::{
    after_delete, after_finish, after_resume, after_start, all_started, delete_answer,
    finish_answer, resume_answer, resume_refusal, running, start_answer, start_refusal, Launch,
    Lifecycle, Registry,
};
use crate::run::{
    RunEnd, RunPhase, RunView, TaskOutcome, TransferAction, TransferEvent, PARTIAL_CONTENT,
};
use crate::state::{DownloadState, DownloadStateView, DownloadUpdate};
use crate::subscribers::SubscribersView;

verus! {

/// A launch is handed out only for a download that has no task, and from
/// then on the download has one: a second `start` without a `finish` in
/// between is refused as already running and changes nothing, so no
/// download ever has two tasks.
pub proof fn lemma_at_most_one_task(
    registry: Registry,
    interval: u64,
    id: u128,
    first: Result<Launch, Error>,
    second: Result<Launch, Error>,
)
    requires
        registry.contains_key(id),
        start_answer(registry, interval, id, first),
        start_answer(after_start(registry, id), interval, id, second),
    ensures
        first is Ok ==> !running(registry, id),
        running(after_start(registry, id), id),
        second == Err::<Launch, Error>(Error::AlreadyRunning),
        after_start(after_start(registry, id), id) == after_start(registry, id),
{
}

/// `resume` hands out a launch only for a download that has no task, and a
/// download that is running is refused by `start`, `resume` and `delete`
/// alike, with the registry unchanged.
pub proof fn lemma_running_download_is_guarded(
    registry: Registry,
    interval: u64,
    id: u128,
    resumed: Result<Launch, Error>,
    remove_file: bool,
)
    requires
        running(registry, id),
        resume_answer(registry, interval, id, resumed),
    ensures
        start_refusal(registry, id) == Some(Error::AlreadyRunning),
        resumed == Err::<Launch, Error>(Error::AlreadyRunning),
        delete_answer(registry, id, remove_file) == Err::<Option<String>, Error>(
            Error::AlreadyRunning,
        ),
        after_start(registry, id) == registry,
        after_resume(registry, id) == registry,
        after_delete(registry, id) == registry,
{
}

/// However a task ends, its entry is left without a task, so that `start`
/// is available again; after a pause `resume` is available too.
pub proof fn lemma_ended_task_frees_entry(registry: Registry, id: u128, outcome: TaskOutcome)
    requires
        running(registry, id),
    ensures
        !running(after_finish(registry, id, outcome), id),
        start_refusal(after_finish(registry, id, outcome), id) is None,
        outcome is Paused ==> resume_refusal(after_finish(registry, id, outcome), id) is None,
        finish_answer(registry, id, outcome) is Err <==> outcome is Failed || outcome is JoinFailed,
        outcome is Failed ==> finish_answer(registry, id, outcome)->Err_0 is TransferError,
        outcome is JoinFailed ==> finish_answer(registry, id, outcome)->Err_0 is TaskJoinError,
{
}

/// An operation on one download leaves every other download as it was.
pub proof fn lemma_operations_are_local(
    registry: Registry,
    id: u128,
    other: u128,
    outcome: TaskOutcome,
)
    requires
        other != id,
    ensures
        after_start(registry, id).contains_key(other) == registry.contains_key(other),
        after_resume(registry, id).contains_key(other) == registry.contains_key(other),
        after_finish(registry, id, outcome).contains_key(other) == registry.contains_key(other),
        after_delete(registry, id).contains_key(other) == registry.contains_key(other),
        registry.contains_key(other) ==> {
            &&& after_start(registry, id)[other] == registry[other]
            &&& after_resume(registry, id)[other] == registry[other]
            &&& after_finish(registry, id, outcome)[other] == registry[other]
            &&& after_delete(registry, id)[other] == registry[other]
        },
{
}

/// In a batch start every download fares as if it had been started alone:
/// its entry ends as `start` leaves it, whatever becomes of the others, and
/// the later failure of one task changes no other entry.
pub proof fn lemma_batch_start_is_independent(
    registry: Registry,
    id: u128,
    failing: u128,
    outcome: TaskOutcome,
)
    requires
        registry.contains_key(id),
        failing != id,
    ensures
        all_started(registry).dom() == registry.dom(),
        all_started(registry)[id] == after_start(registry, id)[id],
        running(all_started(registry), id),
        after_finish(all_started(registry), failing, outcome)[id] == all_started(registry)[id],
        running(after_finish(all_started(registry), failing, outcome), id),
{
    let started = all_started(registry);
    assert(started.dom() =~= registry.dom());
}

/// The updates that a run emits while it takes `events` in turn.
pub open spec fn updates(run: RunView, events: Seq<TransferEvent>) -> Seq<DownloadStateView>
    decreases events.len(),
{
    if events.len() == 0 {
        Seq::empty()
    } else {
        let (next, step) = run.step(events[0]);
        let rest = updates(next, events.skip(1));
        match step.emit {
            Some(state) => seq![state] + rest,
            None => rest,
        }
    }
}

/// A run that has ended stays as it is and emits nothing more.
pub proof fn lemma_ended_run_is_silent(run: RunView, events: Seq<TransferEvent>)
    requires
        run.phase is Finished,
    ensures
        updates(run, events).len() == 0,
    decreases events.len(),
{
    if events.len() > 0 {
        lemma_ended_run_is_silent(run, events.skip(1));
    }
}

/// One step keeps a run well formed. An update with a byte count reports
/// the bytes that are durable after the step, and these are never fewer
/// than before; they only drop, to zero, where the run ends on a resume
/// mismatch.
pub proof fn lemma_step_keeps_progress(run: RunView, event: TransferEvent)
    requires
        run.wf(),
    ensures
        run.step(event).0.wf(),
        run.step(event).0.offset == run.offset,
        run.step(event).0.interval == run.interval,
        run.step(event).1.emit matches Some(state) ==> (state.bytes() matches Some(b) ==> b
            == run.step(event).0.flushed),
        run.step(event).0.flushed >= run.flushed || run.step(event).0.phase == RunPhase::Finished(
            RunEnd::Failed(crate::error::TransferError::ResumeMismatch { offset: run.offset }),
        ),
        run.phase is Finished ==> run.step(event).0 == run,
{
}

proof fn lemma_updates_bounded_below(run: RunView, events: Seq<TransferEvent>, k: int)
    requires
        run.wf(),
        0 <= k < updates(run, events).len(),
        updates(run, events)[k].bytes() is Some,
    ensures
        run.flushed <= updates(run, events)[k].bytes()->0,
    decreases events.len(),
{
    let (next, step) = run.step(events[0]);
    let rest = updates(next, events.skip(1));
    lemma_step_keeps_progress(run, events[0]);
    if next.phase is Finished {
        lemma_ended_run_is_silent(next, events.skip(1));
    }
    match step.emit {
        Some(state) => {
            if k > 0 {
                assert(updates(run, events)[k] == rest[k - 1]);
                lemma_updates_bounded_below(next, events.skip(1), k - 1);
            }
        },
        None => {
            lemma_updates_bounded_below(next, events.skip(1), k);
        },
    }
}

/// The byte counts in the updates of one run never decrease: of any two
/// updates that report a count, the later reports at least as much as the
/// earlier.
pub proof fn lemma_progress_is_monotonic(
    run: RunView,
    events: Seq<TransferEvent>,
    i: int,
    j: int,
)
    requires
        run.wf(),
        0 <= i <= j < updates(run, events).len(),
        updates(run, events)[i].bytes() is Some,
        updates(run, events)[j].bytes() is Some,
    ensures
        updates(run, events)[i].bytes()->0 <= updates(run, events)[j].bytes()->0,
    decreases events.len(),
{
    let (next, step) = run.step(events[0]);
    let rest = updates(next, events.skip(1));
    lemma_step_keeps_progress(run, events[0]);
    match step.emit {
        Some(state) => {
            if i == 0 {
                if j > 0 {
                    assert(updates(run, events)[j] == rest[j - 1]);
                    if next.phase is Finished {
                        lemma_ended_run_is_silent(next, events.skip(1));
                    }
                    lemma_updates_bounded_below(next, events.skip(1), j - 1);
                }
            } else {
                assert(updates(run, events)[i] == rest[i - 1]);
                assert(updates(run, events)[j] == rest[j - 1]);
                lemma_progress_is_monotonic(next, events.skip(1), i - 1, j - 1);
            }
        },
        None => {
            lemma_progress_is_monotonic(next, events.skip(1), i, j);
        },
    }
}

/// Whether a destination file of `length` bytes agrees with the books of
/// `run`. Before the request the file holds at least the bytes to continue
/// from; while the body is read it holds what is flushed and what is
/// pending; after a pause or a completion it holds exactly the bytes that
/// the run reports; after a failure it may hold more than is usable.
pub open spec fn on_disk(run: RunView, length: nat) -> bool {
    match run.phase {
        RunPhase::Created => length >= run.offset && run.flushed == run.offset && run.pending == 0,
        RunPhase::Requested => length == run.flushed && run.flushed == run.offset && run.pending
            == 0,
        RunPhase::Streaming => length == run.flushed + run.pending,
        RunPhase::Flushing(_) => length == run.flushed + run.pending,
        RunPhase::Finished(RunEnd::Failed(_)) => length >= run.flushed,
        RunPhase::Finished(_) => length == run.flushed,
    }
}

/// Whether a caller that follows the actions of `run` can have taken the
/// file from `before` to `after` bytes by the time it reports `event`: it
/// cuts the file to the bytes to keep when it sends the request, appends
/// every chunk that it reports, and may leave part of a chunk behind where
/// writing fails.
pub open spec fn performed(run: RunView, event: TransferEvent, before: nat, after: nat) -> bool {
    match run.phase {
        RunPhase::Created => if event is Begin {
            after == run.offset && before >= run.offset
        } else {
            after == before
        },
        RunPhase::Streaming => match event {
            TransferEvent::Chunk { len } => after == before + len,
            TransferEvent::WriteFailed => after >= before,
            _ => after == before,
        },
        _ => after == before,
    }
}

/// The books of a run agree with the destination file in every state: if
/// they agree before an event and the caller has done to the file what the
/// actions of the run prescribe, they agree after it.
pub proof fn lemma_books_follow_file(run: RunView, event: TransferEvent, before: nat, after: nat)
    requires
        run.wf(),
        on_disk(run, before),
        performed(run, event, before, after),
    ensures
        on_disk(run.step(event).0, after),
{
}

/// After a stop that found the run paused, everyone agrees on the bytes in
/// the destination file: the last update of the run reports them, so the
/// observer that has consumed it reports them as paused, and the registry
/// holds them as the byte count of the download, from which `resume` will
/// continue.
pub proof fn lemma_pause_is_consistent(
    run: RunView,
    event: TransferEvent,
    before: nat,
    length: nat,
    registry: Registry,
    observed: Map<u128, DownloadState>,
    id: u128,
    state: DownloadState,
)
    requires
        run.wf(),
        !(run.phase is Finished),
        on_disk(run, before),
        performed(run, event, before, length),
        run.step(event).0.phase == RunPhase::Finished(RunEnd::Paused),
        run.step(event).1.emit == Some(state@),
        running(registry, id),
    ensures
        state@ == DownloadStateView::Paused(length as u64),
        observed.insert(id, state)[id]@ == DownloadStateView::Paused(length as u64),
        run.step(event).0.outcome() == Some(TaskOutcome::Paused { bytes: length as u64 }),
        finish_answer(registry, id, run.step(event).0.outcome()->0) is Ok,
        after_finish(registry, id, run.step(event).0.outcome()->0)[id].lifecycle
            == Lifecycle::Paused,
        after_finish(registry, id, run.step(event).0.outcome()->0)[id].download.downloaded
            == length,
{
    lemma_books_follow_file(run, event, before, length);
}

/// A run appends the body of a response to the bytes it keeps only where
/// the two fit together. Let the file hold the first `offset` bytes of
/// `resource`, and let the server answer a ranged request either with
/// partial content, whose body is the resource from the first byte
/// position it announces, or with the whole resource. Then whenever the
/// run reads the body, the kept bytes followed by the body are the
/// resource, byte for byte, and a whole resource sent in answer to a
/// ranged request is refused as a resume mismatch that leaves nothing to
/// continue from.
pub proof fn lemma_resume_rebuilds_resource(
    resource: Seq<u8>,
    file: Seq<u8>,
    offset: u64,
    interval: u64,
    status: u16,
    range_start: Option<u64>,
    length: Option<u64>,
    body: Seq<u8>,
)
    requires
        offset <= resource.len(),
        file == resource.subrange(0, offset as int),
        status == PARTIAL_CONTENT ==> {
            &&& range_start matches Some(first)
            &&& first <= resource.len()
            &&& body == resource.subrange(first as int, resource.len() as int)
        },
        status != PARTIAL_CONTENT ==> body == resource,
    ensures
        ({
            let requested = RunView::initial(offset, interval).step(TransferEvent::Begin);
            let answered = requested.0.step(
                TransferEvent::Response { status, range_start, length },
            );
            &&& requested.1.action == TransferAction::SendRequest {
                range_from: if offset > 0 {
                    Some(offset)
                } else {
                    None
                },
                keep: offset,
            }
            &&& answered.1.action is ReadChunk ==> file + body == resource
            &&& offset > 0 && status != PARTIAL_CONTENT ==> {
                &&& answered.1.action == TransferAction::Abort {
                    error: crate::error::TransferError::ResumeMismatch { offset },
                }
                &&& answered.0.flushed == 0
            }
        }),
{
    let requested = RunView::initial(offset, interval).step(TransferEvent::Begin);
    let answered = requested.0.step(TransferEvent::Response { status, range_start, length });
    if answered.1.action is ReadChunk {
        assert(file + body =~= resource);
    }
}

/// Updates are applied in the order in which they are consumed: of two
/// updates of one download the later is the state that remains, and
/// updates of different downloads do not touch each other, in whichever
/// order they come.
pub proof fn lemma_updates_apply_in_order(
    observed: Map<u128, DownloadState>,
    first: DownloadUpdate,
    second: DownloadUpdate,
)
    ensures
        observed.insert(first.id, first.state).insert(second.id, second.state)[second.id]
            == second.state,
        first.id != second.id ==> {
            &&& observed.insert(first.id, first.state).insert(second.id, second.state)[first.id]
                == first.state
            &&& observed.insert(first.id, first.state).insert(second.id, second.state)
                == observed.insert(second.id, second.state).insert(first.id, first.state)
        },
{
    if first.id != second.id {
        assert(observed.insert(first.id, first.state).insert(second.id, second.state)
            =~= observed.insert(second.id, second.state).insert(first.id, first.state));
    }
}

/// What one subscription receives depends on that subscription alone:
/// publishing leaves the subscriptions in their places and does to each
/// what it would do if it were the only one. A subscription that wants the
/// update and has room for waiting updates at all holds the update as its
/// newest afterwards, however many updates it has left uncollected, and a
/// queue never grows beyond its capacity.
pub proof fn lemma_delivery_is_independent(
    registry: SubscribersView,
    update: DownloadUpdate,
    i: int,
)
    requires
        0 <= i < registry.subs.len(),
    ensures
        registry.published(update).subs.len() == registry.subs.len(),
        registry.published(update).subs[i] == registry.subs[i].delivered(update),
        registry.subs[i].wants(update.id) && registry.subs[i].capacity > 0
            ==> registry.published(update).subs[i].queue.last() == update,
        !registry.subs[i].wants(update.id) ==> registry.published(update).subs[i]
            == registry.subs[i],
        registry.subs[i].wf() ==> registry.published(update).subs[i].wf(),
        registry.wf() ==> registry.published(update).wf(),
{
}

} // verus!
