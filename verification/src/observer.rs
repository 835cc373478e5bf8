//! The observer: the last known state of every download.

use vstd::prelude::*;
use std::collections::HashMap;
use crate::manager::UpdateConsumer;
use crate::state::{DownloadState, DownloadUpdate};

verus! {

broadcast use vstd::std_specs::hash::group_hash_axioms;

/// Keeps the last known state of every download it has heard of.
#[derive(Debug)]
pub struct DownloadObserver {
    states: HashMap<u128, DownloadState>,
}

impl View for DownloadObserver {
    type V = Map<u128, DownloadState>;

    closed spec fn view(&self) -> Map<u128, DownloadState> {
        self.states@
    }
}

impl DownloadObserver {
    /// Creates an observer that knows of no download.
    pub fn new() -> (observer: DownloadObserver)
        ensures
            observer@ == Map::<u128, DownloadState>::empty(),
    {
        DownloadObserver { states: HashMap::new() }
    }

    /// Records `state` as the state of `id`, whether or not `id` was known.
    /// No other download changes.
    pub fn track(&mut self, id: u128, state: DownloadState)
        ensures
            final(self)@ == old(self)@.insert(id, state),
    {
        self.states.insert(id, state);
    }

    /// Forgets `id`. No other download changes.
    pub fn untrack(&mut self, id: u128)
        ensures
            final(self)@ == old(self)@.remove(id),
    {
        self.states.remove(&id);
    }

    /// Returns the last known state of `id`, if there is one.
    pub fn get_state(&self, id: u128) -> (state: Option<DownloadState>)
        ensures
            state == if self@.contains_key(id) {
                Some(self@[id])
            } else {
                None
            },
    {
        match self.states.get(&id) {
            Some(state) => Some(state.duplicate()),
            None => None,
        }
    }

    /// Returns the last known state of every download.
    pub fn get_state_all(&self) -> (all: HashMap<u128, DownloadState>)
        ensures
            all@ == self@,
    {
        self.states.clone()
    }
}

impl UpdateConsumer for DownloadObserver {
    /// Records the state that `update` carries as the state of its
    /// download. Updates are applied in the order in which they are handed
    /// in, and one update changes no other download.
    fn consume(&mut self, update: DownloadUpdate)
        ensures
            final(self)@ == old(self)@.insert(update.id, update.state),
    {
        self.track(update.id, update.state);
    }
}

impl Default for DownloadObserver {
    /// Creates an observer that knows of no download.
    fn default() -> (observer: DownloadObserver)
        ensures
            observer@ == Map::<u128, DownloadState>::empty(),
    {
        DownloadObserver::new()
    }
}

} // verus!
