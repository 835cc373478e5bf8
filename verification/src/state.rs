//! The values that describe a download to the outside: its state, the update
//! message that carries a state change, and its metadata record.

use vstd::prelude::*;

verus! {

/// The state of one download as observers see it.
#[derive(Clone, Debug, PartialEq, Eq)]
pub enum DownloadState {
    /// Not running; the payload is the number of bytes held in the
    /// destination file.
    Paused(u64),
    /// Running; the payload is the number of bytes written so far and the
    /// total size where the server has announced it.
    Downloading(u64, Option<u64>),
    /// Finished; the payload is the total number of bytes.
    Completed(u64),
    /// Ended in failure; the payload is the reason.
    Failed(String),
}

/// The mathematical value of a `DownloadState`: the same variants with the
/// failure reason as a sequence of characters.
pub enum DownloadStateView {
    Paused(u64),
    Downloading(u64, Option<u64>),
    Completed(u64),
    Failed(Seq<char>),
}

impl View for DownloadState {
    type V = DownloadStateView;

    open spec fn view(&self) -> DownloadStateView {
        match *self {
            DownloadState::Paused(b) => DownloadStateView::Paused(b),
            DownloadState::Downloading(b, t) => DownloadStateView::Downloading(b, t),
            DownloadState::Completed(b) => DownloadStateView::Completed(b),
            DownloadState::Failed(reason) => DownloadStateView::Failed(reason@),
        }
    }
}

impl DownloadStateView {
    /// The byte count that the state reports, if it reports one.
    pub open spec fn bytes(self) -> Option<u64> {
        match self {
            DownloadStateView::Paused(b) => Some(b),
            DownloadStateView::Downloading(b, _) => Some(b),
            DownloadStateView::Completed(b) => Some(b),
            DownloadStateView::Failed(_) => None,
        }
    }
}

impl DownloadState {
    /// Returns the byte count that the state reports; a failure reports none.
    pub fn bytes(&self) -> (b: Option<u64>)
        ensures
            b == self@.bytes(),
    {
        match self {
            DownloadState::Paused(b) => Some(*b),
            DownloadState::Downloading(b, _) => Some(*b),
            DownloadState::Completed(b) => Some(*b),
            DownloadState::Failed(_) => None,
        }
    }

    /// Returns an equal copy of this state.
    pub fn duplicate(&self) -> (copy: DownloadState)
        ensures
            copy == *self,
    {
        match self {
            DownloadState::Paused(b) => DownloadState::Paused(*b),
            DownloadState::Downloading(b, t) => DownloadState::Downloading(*b, *t),
            DownloadState::Completed(b) => DownloadState::Completed(*b),
            DownloadState::Failed(reason) => DownloadState::Failed(reason.clone()),
        }
    }
}

/// A state change of one download, as emitted by its running transfer.
#[derive(Clone, Debug, PartialEq, Eq)]
pub struct DownloadUpdate {
    /// The download that changed.
    pub id: u128,
    /// Its new state.
    pub state: DownloadState,
}

impl DownloadUpdate {
    /// Returns an equal copy of this update.
    pub fn duplicate(&self) -> (copy: DownloadUpdate)
        ensures
            copy == *self,
    {
        DownloadUpdate { id: self.id, state: self.state.duplicate() }
    }
}

/// What is known of a download apart from its progress.
#[derive(Clone, Debug, PartialEq, Eq)]
pub struct DownloadMetadata {
    /// The identifier under which the download is registered.
    pub id: u128,
    /// The source locator.
    pub url: String,
    /// The destination path.
    pub file_path: String,
    /// The total size, once the server has announced it.
    pub size: Option<u64>,
}

impl DownloadMetadata {
    /// Returns an equal copy of this record.
    pub fn duplicate(&self) -> (copy: DownloadMetadata)
        ensures
            copy == *self,
    {
        DownloadMetadata {
            id: self.id,
            url: self.url.clone(),
            file_path: self.file_path.clone(),
            size: self.size,
        }
    }
}

} // verus!
