//! The manager: the registry of downloads and the lifecycle of their tasks.
//!
//! The manager decides; the caller acts. `start` and `resume` hand out the
//! run that the caller has to drive in a task of its own, `stop` says
//! whether there is a task to cancel, and `finish` takes the outcome of a
//! task that has been awaited. An entry whose lifecycle is `Running` is one
//! whose task handle the caller holds, so there is never more than one task
//! per download.

use vstd::prelude::*;
use std::collections::HashMap;
use vstd::std_specs::iter::IteratorSpec;
use crate::download::{offset_or_zero, HttpDownload};
use crate::error::Error;
use crate::run::{RunView, TaskOutcome, TransferRun};
use crate::state::{DownloadMetadata, DownloadUpdate};

verus! {

broadcast use vstd::std_specs::hash::group_hash_axioms;

/// Capability to take the updates of any number of running transfers.
pub trait UpdateConsumer {
    /// Takes one update.
    fn consume(&mut self, update: DownloadUpdate);
}

/// Where a registered download stands.
#[derive(Clone, Copy, Debug, PartialEq, Eq, Structural)]
pub enum Lifecycle {
    /// Registered and never run.
    Registered,
    /// A task is running the transfer.
    Running,
    /// The last run was paused.
    Paused,
    /// The last run completed.
    Completed,
    /// The last run failed.
    Failed,
}

/// One entry of the registry.
#[derive(Debug, PartialEq, Eq)]
pub struct Entry {
    pub download: HttpDownload,
    pub lifecycle: Lifecycle,
}

/// The order to run a transfer in a new task.
#[derive(Debug, PartialEq, Eq)]
pub struct Launch {
    /// The download to run.
    pub id: u128,
    /// Its source locator.
    pub url: String,
    /// Its destination path.
    pub file_path: String,
    /// The run to drive.
    pub run: TransferRun,
}

/// The registry as a map from identifier to entry.
pub type Registry = Map<u128, Entry>;

/// Whether `id` is registered and has a running task.
pub open spec fn running(registry: Registry, id: u128) -> bool {
    registry.contains_key(id) && registry[id].lifecycle is Running
}

/// The registry after the entry of `id` has taken the lifecycle `to`.
pub open spec fn moved(registry: Registry, id: u128, to: Lifecycle) -> Registry {
    registry.insert(id, Entry { lifecycle: to, ..registry[id] })
}

/// Why `start` refuses `id`, if it does.
pub open spec fn start_refusal(registry: Registry, id: u128) -> Option<Error> {
    if !registry.contains_key(id) {
        Some(Error::NotFound)
    } else if registry[id].lifecycle is Running {
        Some(Error::AlreadyRunning)
    } else {
        None
    }
}

/// Why `resume` refuses `id`, if it does.
pub open spec fn resume_refusal(registry: Registry, id: u128) -> Option<Error> {
    if !registry.contains_key(id) {
        Some(Error::NotFound)
    } else if registry[id].lifecycle is Running {
        Some(Error::AlreadyRunning)
    } else if !(registry[id].lifecycle is Paused) {
        Some(Error::NotPaused)
    } else {
        None
    }
}

/// Why `delete` refuses `id`, if it does.
pub open spec fn delete_refusal(registry: Registry, id: u128) -> Option<Error> {
    start_refusal(registry, id)
}

/// Whether `launch` is the order to run `entry` under `id` from `offset`.
pub open spec fn launches(launch: Launch, id: u128, entry: Entry, offset: u64, interval: u64) -> bool {
    &&& launch.id == id
    &&& launch.url == entry.download.url
    &&& launch.file_path == entry.download.file_path
    &&& launch.run@ == RunView::initial(offset, interval)
}

/// The entry after its task has ended with `outcome`. The byte count is the
/// one the task reports; a task that could not be awaited reports none, so
/// the last known count stays. After a resume mismatch the unit forgets the
/// offset it was created with, so that the next start begins at zero.
pub open spec fn settled(entry: Entry, outcome: TaskOutcome) -> Entry {
    match outcome {
        TaskOutcome::Paused { bytes } => Entry {
            download: HttpDownload { downloaded: bytes, ..entry.download },
            lifecycle: Lifecycle::Paused,
        },
        TaskOutcome::Completed { bytes } => Entry {
            download: HttpDownload { downloaded: bytes, ..entry.download },
            lifecycle: Lifecycle::Completed,
        },
        TaskOutcome::Failed { error, bytes } => Entry {
            download: HttpDownload {
                downloaded: bytes,
                resume_offset: if error is ResumeMismatch {
                    None
                } else {
                    entry.download.resume_offset
                },
                ..entry.download
            },
            lifecycle: Lifecycle::Failed,
        },
        TaskOutcome::JoinFailed(_) => Entry { lifecycle: Lifecycle::Failed, ..entry },
    }
}

/// What `finish` returns for a task that ended with `outcome`.
pub open spec fn verdict(outcome: TaskOutcome) -> Result<(), Error> {
    match outcome {
        TaskOutcome::Paused { .. } => Ok(()),
        TaskOutcome::Completed { .. } => Ok(()),
        TaskOutcome::Failed { error, .. } => Err(Error::TransferError(error)),
        TaskOutcome::JoinFailed(failure) => Err(Error::TaskJoinError(failure)),
    }
}

/// Whether `answer` is what `start` gives for `id` on `registry`.
pub open spec fn start_answer(
    registry: Registry,
    interval: u64,
    id: u128,
    answer: Result<Launch, Error>,
) -> bool {
    match start_refusal(registry, id) {
        Some(e) => answer == Err::<Launch, Error>(e),
        None => {
            &&& answer matches Ok(launch)
            &&& launches(
                launch,
                id,
                registry[id],
                offset_or_zero(registry[id].download.resume_offset),
                interval,
            )
        },
    }
}

/// What `stop` gives for `id` on `registry`.
pub open spec fn stop_answer(registry: Registry, id: u128) -> Result<(), Error> {
    if running(registry, id) {
        Ok(())
    } else {
        Err(Error::DownloadNotRunning)
    }
}

/// The registry after `start` was called for `id`: the entry is running,
/// unless the call was refused.
pub open spec fn after_start(registry: Registry, id: u128) -> Registry {
    if start_refusal(registry, id) is None {
        moved(registry, id, Lifecycle::Running)
    } else {
        registry
    }
}

/// Whether `answer` is what `resume` gives for `id` on `registry`.
pub open spec fn resume_answer(
    registry: Registry,
    interval: u64,
    id: u128,
    answer: Result<Launch, Error>,
) -> bool {
    match resume_refusal(registry, id) {
        Some(e) => answer == Err::<Launch, Error>(e),
        None => {
            &&& answer matches Ok(launch)
            &&& launches(launch, id, registry[id], registry[id].download.downloaded, interval)
        },
    }
}

/// The registry after `resume` was called for `id`: the entry is running,
/// unless the call was refused.
pub open spec fn after_resume(registry: Registry, id: u128) -> Registry {
    if resume_refusal(registry, id) is None {
        moved(registry, id, Lifecycle::Running)
    } else {
        registry
    }
}

/// What `finish` gives for `id` on `registry` and a task that ended with
/// `outcome`.
pub open spec fn finish_answer(registry: Registry, id: u128, outcome: TaskOutcome) -> Result<
    (),
    Error,
> {
    if running(registry, id) {
        verdict(outcome)
    } else {
        Err(Error::DownloadNotRunning)
    }
}

/// The registry after `finish` was called for `id`: the entry has settled,
/// unless the call was refused.
pub open spec fn after_finish(registry: Registry, id: u128, outcome: TaskOutcome) -> Registry {
    if running(registry, id) {
        registry.insert(id, settled(registry[id], outcome))
    } else {
        registry
    }
}

/// What `delete` gives for `id` on `registry`.
pub open spec fn delete_answer(registry: Registry, id: u128, remove_file: bool) -> Result<
    Option<String>,
    Error,
> {
    match delete_refusal(registry, id) {
        Some(e) => Err(e),
        None => Ok(
            if remove_file {
                Some(registry[id].download.file_path)
            } else {
                None
            },
        ),
    }
}

/// The registry after `delete` was called for `id`: the entry is gone,
/// unless the call was refused.
pub open spec fn after_delete(registry: Registry, id: u128) -> Registry {
    if delete_refusal(registry, id) is None {
        registry.remove(id)
    } else {
        registry
    }
}

/// What `get_metadata` gives for `id` on `registry`.
pub open spec fn metadata_answer(registry: Registry, id: u128) -> Result<DownloadMetadata, Error> {
    if registry.contains_key(id) {
        Ok(registry[id].download.metadata(id))
    } else {
        Err(Error::NotFound)
    }
}

/// The number of unflushed bytes from which a run reports progress, where
/// the manager is not told otherwise.
pub const DEFAULT_INTERVAL: u64 = 65536;

/// Stores downloads and keeps track of which of them is running.
#[derive(Debug)]
pub struct DownloadManager {
    items: HashMap<u128, Entry>,
    interval: u64,
}

impl View for DownloadManager {
    type V = Registry;

    closed spec fn view(&self) -> Registry {
        self.items@
    }
}

impl DownloadManager {
    /// The progress interval that the manager gives to every run.
    pub closed spec fn interval(&self) -> u64 {
        self.interval
    }

    /// Creates an empty manager whose runs report progress every `interval`
    /// bytes.
    pub fn new(interval: u64) -> (manager: DownloadManager)
        ensures
            manager@ == Map::<u128, Entry>::empty(),
            manager.interval() == interval,
    {
        DownloadManager { items: HashMap::new(), interval }
    }

    /// Returns whether `id` is registered.
    pub fn contains(&self, id: u128) -> (b: bool)
        ensures
            b == self@.contains_key(id),
    {
        self.items.contains_key(&id)
    }

    /// Returns the number of registered downloads.
    pub fn len(&self) -> (n: usize)
        ensures
            n == self@.len(),
    {
        self.items.len()
    }

    /// Returns the lifecycle of `id`, if it is registered.
    pub fn lifecycle(&self, id: u128) -> (l: Option<Lifecycle>)
        ensures
            l == if self@.contains_key(id) {
                Some(self@[id].lifecycle)
            } else {
                None
            },
    {
        match self.items.get(&id) {
            Some(entry) => Some(entry.lifecycle),
            None => None,
        }
    }

    /// Returns whether `id` has a running task.
    pub fn is_running(&self, id: u128) -> (b: bool)
        ensures
            b == running(self@, id),
    {
        match self.items.get(&id) {
            Some(entry) => match entry.lifecycle {
                Lifecycle::Running => true,
                _ => false,
            },
            None => false,
        }
    }

    /// Marks `id` as running and hands out the order to run it from
    /// `offset`.
    fn launch(&mut self, id: u128, resuming: bool) -> (launch: Launch)
        requires
            old(self)@.contains_key(id),
        ensures
            final(self)@ == moved(old(self)@, id, Lifecycle::Running),
            final(self).interval() == old(self).interval(),
            launches(
                launch,
                id,
                old(self)@[id],
                if resuming {
                    old(self)@[id].download.downloaded
                } else {
                    offset_or_zero(old(self)@[id].download.resume_offset)
                },
                old(self).interval(),
            ),
    {
        let taken = self.items.remove(&id);
        let entry = taken.unwrap();
        let offset: u64 = if resuming {
            entry.download.downloaded
        } else {
            match entry.download.resume_offset {
                Some(n) => n,
                None => 0,
            }
        };
        let launch = Launch {
            id,
            url: entry.download.url.clone(),
            file_path: entry.download.file_path.clone(),
            run: TransferRun::new(offset, self.interval),
        };
        self.items.insert(id, Entry { download: entry.download, lifecycle: Lifecycle::Running });
        assert(self.items@ =~= moved(old(self)@, id, Lifecycle::Running));
        launch
    }

    /// Starts the download `id`: marks it as running and hands out the run
    /// for a new task, from the offset that the unit was created with. An
    /// unknown identifier and one that is already running are refused, and
    /// nothing changes.
    pub fn start(&mut self, id: u128) -> (started: Result<Launch, Error>)
        ensures
            final(self).interval() == old(self).interval(),
            start_answer(old(self)@, old(self).interval(), id, started),
            final(self)@ == after_start(old(self)@, id),
    {
        match self.lifecycle(id) {
            None => Err(Error::NotFound),
            Some(Lifecycle::Running) => Err(Error::AlreadyRunning),
            Some(_) => Ok(self.launch(id, false)),
        }
    }

    /// Resumes the paused download `id`: marks it as running and hands out
    /// the run for a new task, from the last known byte count. An unknown
    /// identifier, one that is running and one that is not paused are
    /// refused, and nothing changes.
    pub fn resume(&mut self, id: u128) -> (resumed: Result<Launch, Error>)
        ensures
            final(self).interval() == old(self).interval(),
            resume_answer(old(self)@, old(self).interval(), id, resumed),
            final(self)@ == after_resume(old(self)@, id),
    {
        match self.lifecycle(id) {
            None => Err(Error::NotFound),
            Some(Lifecycle::Running) => Err(Error::AlreadyRunning),
            Some(Lifecycle::Paused) => Ok(self.launch(id, true)),
            Some(_) => Err(Error::NotPaused),
        }
    }

    /// Says whether `id` has a task to cancel: an identifier without a
    /// running task, registered or not, is refused. The registry does not
    /// change; the task stays registered until its outcome is handed to
    /// `finish`.
    pub fn stop(&self, id: u128) -> (stopping: Result<(), Error>)
        ensures
            stopping == stop_answer(self@, id),
    {
        if self.is_running(id) {
            Ok(())
        } else {
            Err(Error::DownloadNotRunning)
        }
    }

    /// Takes the outcome of the task of `id` after it was awaited: the
    /// entry loses its task and records what the task reports. A failure of
    /// the transfer and a failure to await the task come back as errors of
    /// different kinds. An identifier without a running task is refused and
    /// nothing changes.
    pub fn finish(&mut self, id: u128, outcome: TaskOutcome) -> (finished: Result<(), Error>)
        ensures
            final(self).interval() == old(self).interval(),
            finished == finish_answer(old(self)@, id, outcome),
            final(self)@ == after_finish(old(self)@, id, outcome),
    {
        if !self.is_running(id) {
            return Err(Error::DownloadNotRunning);
        }
        let taken = self.items.remove(&id);
        let entry = taken.unwrap();
        let mut download = entry.download;
        let (lifecycle, result) = match outcome {
            TaskOutcome::Paused { bytes } => {
                download.downloaded = bytes;
                (Lifecycle::Paused, Ok(()))
            },
            TaskOutcome::Completed { bytes } => {
                download.downloaded = bytes;
                (Lifecycle::Completed, Ok(()))
            },
            TaskOutcome::Failed { error, bytes } => {
                download.downloaded = bytes;
                match error {
                    crate::error::TransferError::ResumeMismatch { .. } => {
                        download.resume_offset = None;
                    },
                    _ => {},
                }
                (Lifecycle::Failed, Err(Error::TransferError(error)))
            },
            TaskOutcome::JoinFailed(failure) => (
                Lifecycle::Failed,
                Err(Error::TaskJoinError(failure)),
            ),
        };
        self.items.insert(id, Entry { download, lifecycle });
        assert(self.items@ =~= old(self)@.insert(id, settled(old(self)@[id], outcome)));
        result
    }

    /// Removes the entry of `id` and returns the path of the file to
    /// remove, if `remove_file` asks for that. An unknown identifier and one
    /// that is running are refused, and nothing changes.
    pub fn delete(&mut self, id: u128, remove_file: bool) -> (deleted: Result<
        Option<String>,
        Error,
    >)
        ensures
            final(self).interval() == old(self).interval(),
            deleted == delete_answer(old(self)@, id, remove_file),
            final(self)@ == after_delete(old(self)@, id),
    {
        match self.lifecycle(id) {
            None => Err(Error::NotFound),
            Some(Lifecycle::Running) => Err(Error::AlreadyRunning),
            Some(_) => {
                let taken = self.items.remove(&id);
                let entry = taken.unwrap();
                if remove_file {
                    Ok(Some(entry.download.file_path))
                } else {
                    Ok(None)
                }
            },
        }
    }

    /// Returns the metadata record of `id`; an unknown identifier is
    /// refused.
    pub fn get_metadata(&self, id: u128) -> (record: Result<DownloadMetadata, Error>)
        ensures
            record == metadata_answer(self@, id),
    {
        match self.items.get(&id) {
            Some(entry) => Ok(entry.download.get_metadata(id)),
            None => Err(Error::NotFound),
        }
    }
}

/// The identifier that is tried `k` steps after `seed`, counting upwards
/// and beginning again at zero after the largest.
pub open spec fn probe(seed: u128, k: nat) -> u128 {
    ((seed + k) % 0x1_0000_0000_0000_0000_0000_0000_0000_0000int) as u128
}

/// Whether `id` is the first identifier from `seed` on that `registry` does
/// not hold.
pub open spec fn first_free(registry: Registry, seed: u128, id: u128) -> bool {
    exists|k: nat|
        {
            &&& id == #[trigger] probe(seed, k)
            &&& !registry.contains_key(id)
            &&& forall|j: nat| j < k ==> registry.contains_key(#[trigger] probe(seed, j))
        }
}

/// A set that holds the first `k` identifiers from `seed` on has at least
/// `k` elements.
proof fn lemma_probes_counted(held: Set<u128>, seed: u128, k: nat)
    requires
        held.finite(),
        k <= 0x1_0000_0000_0000_0000_0000_0000_0000_0000int,
        forall|j: nat| j < k ==> held.contains(#[trigger] probe(seed, j)),
    ensures
        k <= held.len(),
{
    let tried = Seq::new(k, |j: int| probe(seed, j as nat));
    assert(tried.no_duplicates());
    tried.unique_seq_to_set();
    assert(tried.to_set().subset_of(held)) by {
        assert forall|x: u128| tried.to_set().contains(x) implies held.contains(x) by {
            let j = choose|j: int| 0 <= j < tried.len() && tried[j] == x;
            assert(held.contains(probe(seed, j as nat)));
        }
    }
    vstd::set_lib::lemma_len_subset(tried.to_set(), held);
}

/// Draws a random identifier.
///
/// Calls `uuid::Uuid::new_v4` and returns the value of the identifier as
/// `uuid::Uuid::as_u128` gives it. Of the 128 bits, which come from the
/// random source of the system, the version field is set to 4 and the
/// variant field to the two bits 1 and 0; nothing else is claimed. The call
/// panics where the system cannot supply random bytes.
#[verifier::external_body]
pub(crate) fn random_id() -> (id: u128)
    ensures
        id & 0x0000_0000_0000_f000_c000_0000_0000_0000 == 0x0000_0000_0000_4000_8000_0000_0000_0000,
{
    uuid::Uuid::new_v4().as_u128()
}

impl DownloadManager {
    /// Registers `download` under the first identifier from `seed` on that
    /// is not in use, and returns that identifier. The new entry has no
    /// task; no other entry changes.
    pub fn add_from(&mut self, download: HttpDownload, seed: u128) -> (id: u128)
        ensures
            final(self).interval() == old(self).interval(),
            first_free(old(self)@, seed, id),
            final(self)@ == old(self)@.insert(
                id,
                Entry { download, lifecycle: Lifecycle::Registered },
            ),
    {
        let mut id: u128 = seed;
        let ghost mut k: nat = 0;
        let count: usize = self.items.len();
        while self.items.contains_key(&id)
            invariant
                self.items@ == old(self)@,
                self.interval == old(self).interval,
                self.items@.dom().finite(),
                count == self.items@.len(),
                id == probe(seed, k),
                k <= self.items@.len(),
                forall|j: nat| j < k ==> self.items@.contains_key(#[trigger] probe(seed, j)),
            decreases self.items@.len() - k,
        {
            proof {
                assert forall|j: nat| j < k + 1 implies self.items@.dom().contains(
                    #[trigger] probe(seed, j),
                ) by {
                    if j == k {
                    }
                }
                lemma_probes_counted(self.items@.dom(), seed, k + 1);
                k = k + 1;
            }
            id = if id == u128::MAX {
                0
            } else {
                id + 1
            };
        }
        self.items.insert(id, Entry { download, lifecycle: Lifecycle::Registered });
        assert(id == probe(seed, k));
        id
    }

    /// Registers `download` under a fresh identifier and returns that
    /// identifier. The new entry has no task; no other entry changes.
    pub fn add(&mut self, download: HttpDownload) -> (id: u128)
        ensures
            final(self).interval() == old(self).interval(),
            !old(self)@.contains_key(id),
            final(self)@ == old(self)@.insert(
                id,
                Entry { download, lifecycle: Lifecycle::Registered },
            ),
    {
        let seed = random_id();
        self.add_from(download, seed)
    }
}

impl Default for DownloadManager {
    /// Creates an empty manager with the default progress interval.
    fn default() -> (manager: DownloadManager)
        ensures
            manager@ == Map::<u128, Entry>::empty(),
            manager.interval() == DEFAULT_INTERVAL,
    {
        DownloadManager::new(DEFAULT_INTERVAL)
    }
}

/// The registry after every entry has been started: each entry is running,
/// and nothing else about it has changed.
pub open spec fn all_started(registry: Registry) -> Registry {
    Map::new(
        |id: u128| registry.contains_key(id),
        |id: u128| Entry { lifecycle: Lifecycle::Running, ..registry[id] },
    )
}

/// Whether `ids` lists every identifier of `registry` exactly once.
pub open spec fn lists(ids: Seq<u128>, registry: Registry) -> bool {
    ids.no_duplicates() && ids.to_set() == registry.dom()
}

impl DownloadManager {
    /// Returns every registered identifier once, in no particular order.
    pub fn ids(&self) -> (ids: Vec<u128>)
        ensures
            lists(ids@, self@),
    {
        let mut ids: Vec<u128> = Vec::new();
        for id in it: self.items.keys()
            invariant
                ids@.len() == it.index(),
                forall|j: int| 0 <= j < ids@.len() ==> ids@[j] == *it.seq()[j],
        {
            ids.push(*id);
        }
        assert(ids@ =~= self.items.keys().remaining().unref());
        ids
    }

    /// Returns the metadata record of every registered download, each once
    /// and in no particular order.
    pub fn get_metadata_all(&self) -> (records: Vec<DownloadMetadata>)
        ensures
            lists(Seq::new(records@.len(), |i: int| records@[i].id), self@),
            forall|i: int|
                0 <= i < records@.len() ==> #[trigger] records@[i] == self@[records@[i].id].download.metadata(
                    records@[i].id,
                ),
    {
        let ids = self.ids();
        let mut records: Vec<DownloadMetadata> = Vec::new();
        let mut i: usize = 0;
        while i < ids.len()
            invariant
                lists(ids@, self@),
                i <= ids@.len(),
                records@.len() == i,
                forall|j: int|
                    0 <= j < i ==> #[trigger] records@[j] == self@[ids@[j]].download.metadata(
                        ids@[j],
                    ),
            decreases ids@.len() - i,
        {
            let id = ids[i];
            assert(ids@.to_set().contains(ids@[i as int]));
            match self.items.get(&id) {
                Some(entry) => {
                    records.push(entry.download.get_metadata(id));
                },
                None => {},
            }
            i = i + 1;
        }
        assert(Seq::new(records@.len(), |i: int| records@[i].id) =~= ids@);
        records
    }

    /// Starts every registered download, each on its own: the answer for
    /// one identifier is what `start` gives for it, whatever the answers for
    /// the others are. Returns the answers by identifier, each identifier
    /// once and in no particular order.
    pub fn start_all(&mut self) -> (answers: Vec<(u128, Result<Launch, Error>)>)
        ensures
            final(self).interval() == old(self).interval(),
            final(self)@ == all_started(old(self)@),
            lists(Seq::new(answers@.len(), |i: int| answers@[i].0), old(self)@),
            forall|i: int|
                0 <= i < answers@.len() ==> start_answer(
                    old(self)@,
                    old(self).interval(),
                    (#[trigger] answers@[i]).0,
                    answers@[i].1,
                ),
    {
        let ids = self.ids();
        let mut answers: Vec<(u128, Result<Launch, Error>)> = Vec::new();
        let mut i: usize = 0;
        while i < ids.len()
            invariant
                lists(ids@, old(self)@),
                self.interval() == old(self).interval(),
                i <= ids@.len(),
                answers@.len() == i,
                self@.dom() == old(self)@.dom(),
                forall|j: int|
                    0 <= j < ids@.len() ==> self@[#[trigger] ids@[j]] == if j < i {
                        Entry { lifecycle: Lifecycle::Running, ..old(self)@[ids@[j]] }
                    } else {
                        old(self)@[ids@[j]]
                    },
                forall|j: int| 0 <= j < i ==> (#[trigger] answers@[j]).0 == ids@[j],
                forall|j: int|
                    0 <= j < i ==> start_answer(
                        old(self)@,
                        old(self).interval(),
                        (#[trigger] answers@[j]).0,
                        answers@[j].1,
                    ),
            decreases ids@.len() - i,
        {
            let id = ids[i];
            let ghost before = self@;
            assert(ids@.to_set().contains(ids@[i as int]));
            assert(before[id] == old(self)@[id]);
            let answer = self.start(id);
            assert(start_answer(old(self)@, old(self).interval(), id, answer));
            assert(self@.dom() =~= old(self)@.dom());
            assert forall|j: int| 0 <= j < ids@.len() implies self@[#[trigger] ids@[j]] == if j < i
                + 1 {
                Entry { lifecycle: Lifecycle::Running, ..old(self)@[ids@[j]] }
            } else {
                old(self)@[ids@[j]]
            } by {
                if j != i {
                    assert(ids@[j] != ids@[i as int]);
                    assert(self@[ids@[j]] == before[ids@[j]]);
                }
            }
            answers.push((id, answer));
            i = i + 1;
        }
        assert(Seq::new(answers@.len(), |i: int| answers@[i].0) =~= ids@);
        assert(self@ =~= all_started(old(self)@)) by {
            assert forall|id: u128| self@.contains_key(id) implies self@[id] == all_started(
                old(self)@,
            )[id] by {
                assert(ids@.to_set().contains(id));
                let j = choose|j: int| 0 <= j < ids@.len() && ids@[j] == id;
                assert(self@[ids@[j]] == Entry {
                    lifecycle: Lifecycle::Running,
                    ..old(self)@[ids@[j]]
                });
            }
        }
        answers
    }

    /// Asks every registered download to stop, each on its own: the answer
    /// for one identifier is what `stop` gives for it. Returns the answers
    /// by identifier, each identifier once and in no particular order.
    pub fn stop_all(&self) -> (answers: Vec<(u128, Result<(), Error>)>)
        ensures
            lists(Seq::new(answers@.len(), |i: int| answers@[i].0), self@),
            forall|i: int|
                0 <= i < answers@.len() ==> (#[trigger] answers@[i]).1 == stop_answer(
                    self@,
                    answers@[i].0,
                ),
    {
        let ids = self.ids();
        let mut answers: Vec<(u128, Result<(), Error>)> = Vec::new();
        let mut i: usize = 0;
        while i < ids.len()
            invariant
                i <= ids@.len(),
                answers@.len() == i,
                forall|j: int| 0 <= j < i ==> (#[trigger] answers@[j]).0 == ids@[j],
                forall|j: int|
                    0 <= j < i ==> (#[trigger] answers@[j]).1 == stop_answer(
                        self@,
                        answers@[j].0,
                    ),
            decreases ids@.len() - i,
        {
            let id = ids[i];
            answers.push((id, self.stop(id)));
            i = i + 1;
        }
        assert(Seq::new(answers@.len(), |i: int| answers@[i].0) =~= ids@);
        answers
    }
}

} // verus!
