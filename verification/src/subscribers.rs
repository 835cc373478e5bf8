//! The subscriber registry: fan-out of updates to external listeners.
//!
//! Every listener has a bounded queue of its own. A listener that does not
//! collect its updates loses the oldest of them and holds up nobody else.

use vstd::prelude::*;
use crate::manager::UpdateConsumer;
use crate::state::DownloadUpdate;

verus! {

/// The mathematical value of one subscription.
pub struct SubscriptionView {
    /// The token that names the subscription.
    pub token: u64,
    /// The download whose updates are wanted; every download where `None`.
    pub filter: Option<u128>,
    /// The largest number of updates that wait at once.
    pub capacity: usize,
    /// The updates that wait to be collected, oldest first.
    pub queue: Seq<DownloadUpdate>,
}

impl SubscriptionView {
    /// Whether the subscription wants the updates of `id`.
    pub open spec fn wants(self, id: u128) -> bool {
        match self.filter {
            Some(wanted) => wanted == id,
            None => true,
        }
    }

    /// The subscription after `update` was published: an update that is
    /// wanted joins the queue, and where the queue is full the oldest
    /// update leaves it first.
    pub open spec fn delivered(self, update: DownloadUpdate) -> SubscriptionView {
        if !self.wants(update.id) || self.capacity == 0 {
            self
        } else if self.queue.len() < self.capacity {
            SubscriptionView { queue: self.queue.push(update), ..self }
        } else {
            SubscriptionView { queue: self.queue.skip(1).push(update), ..self }
        }
    }

    /// The queue is within its capacity.
    pub open spec fn wf(self) -> bool {
        self.queue.len() <= self.capacity
    }
}

/// One listener and the updates that wait for it.
#[derive(Debug)]
pub struct Subscription {
    token: u64,
    filter: Option<u128>,
    capacity: usize,
    queue: Vec<DownloadUpdate>,
}

impl View for Subscription {
    type V = SubscriptionView;

    closed spec fn view(&self) -> SubscriptionView {
        SubscriptionView {
            token: self.token,
            filter: self.filter,
            capacity: self.capacity,
            queue: self.queue@,
        }
    }
}

impl Subscription {
    fn deliver(&mut self, update: &DownloadUpdate)
        ensures
            final(self)@ == old(self)@.delivered(*update),
    {
        let wanted = match self.filter {
            Some(id) => id == update.id,
            None => true,
        };
        if wanted && self.capacity > 0 {
            if self.queue.len() >= self.capacity {
                self.queue.remove(0);
                assert(self.queue@ =~= old(self).queue@.skip(1));
            }
            self.queue.push(update.duplicate());
        }
    }
}

/// The mathematical value of the registry: its subscriptions in the order
/// in which they were made, and the token that the next one gets.
pub struct SubscribersView {
    pub subs: Seq<SubscriptionView>,
    pub next_token: u64,
}

impl SubscribersView {
    /// Whether some subscription has `token`.
    pub open spec fn has(self, token: u64) -> bool {
        exists|i: int| 0 <= i < self.subs.len() && (#[trigger] self.subs[i]).token == token
    }

    /// Whether `i` is the place of the first subscription with `token`.
    pub open spec fn first_at(self, token: u64, i: int) -> bool {
        &&& 0 <= i < self.subs.len()
        &&& self.subs[i].token == token
        &&& forall|j: int| 0 <= j < i ==> (#[trigger] self.subs[j]).token != token
    }

    /// The place of the first subscription with `token`.
    pub open spec fn place(self, token: u64) -> int {
        choose|i: int| self.first_at(token, i)
    }

    /// Every queue is within its capacity, every token was handed out
    /// before the next one, and no two subscriptions share a token.
    pub open spec fn wf(self) -> bool {
        &&& forall|i: int| 0 <= i < self.subs.len() ==> (#[trigger] self.subs[i]).wf()
        &&& forall|i: int|
            0 <= i < self.subs.len() ==> (#[trigger] self.subs[i]).token < self.next_token
        &&& forall|i: int, j: int|
            0 <= i < j < self.subs.len() ==> (#[trigger] self.subs[i]).token != (
            #[trigger] self.subs[j]).token
    }

    /// The registry after `update` was published to every subscription.
    pub open spec fn published(self, update: DownloadUpdate) -> SubscribersView {
        SubscribersView {
            subs: self.subs.map_values(|s: SubscriptionView| s.delivered(update)),
            ..self
        }
    }

    /// The registry after a subscription was made.
    pub open spec fn subscribed(self, filter: Option<u128>, capacity: usize) -> SubscribersView {
        SubscribersView {
            subs: self.subs.push(
                SubscriptionView {
                    token: self.next_token,
                    filter,
                    capacity,
                    queue: Seq::empty(),
                },
            ),
            next_token: (self.next_token + 1) as u64,
        }
    }

    /// The registry after the first subscription with `token` has left.
    pub open spec fn unsubscribed(self, token: u64) -> SubscribersView {
        if self.has(token) {
            SubscribersView { subs: self.subs.remove(self.place(token)), ..self }
        } else {
            self
        }
    }

    /// The registry after the first subscription with `token` has handed
    /// out its queue.
    pub open spec fn collected(self, token: u64) -> SubscribersView {
        if self.has(token) {
            let i = self.place(token);
            SubscribersView {
                subs: self.subs.update(i, SubscriptionView { queue: Seq::empty(), ..self.subs[i] }),
                ..self
            }
        } else {
            self
        }
    }
}

/// The listeners of a download service.
#[derive(Debug)]
pub struct Subscribers {
    subs: Vec<Subscription>,
    next_token: u64,
}

impl View for Subscribers {
    type V = SubscribersView;

    closed spec fn view(&self) -> SubscribersView {
        SubscribersView {
            subs: Seq::new(self.subs@.len(), |i: int| self.subs@[i]@),
            next_token: self.next_token,
        }
    }
}

impl Subscribers {
    /// Creates a registry without subscriptions.
    pub fn new() -> (registry: Subscribers)
        ensures
            registry@.subs.len() == 0,
            registry@.next_token == 0,
            registry@.wf(),
    {
        Subscribers { subs: Vec::new(), next_token: 0 }
    }

    /// Returns the number of subscriptions.
    pub fn len(&self) -> (n: usize)
        ensures
            n == self@.subs.len(),
    {
        self.subs.len()
    }

    fn find(&self, token: u64) -> (found: Option<usize>)
        ensures
            found matches Some(i) ==> self@.first_at(token, i as int) && self@.place(token) == i,
            found is Some <==> self@.has(token),
    {
        let mut i: usize = 0;
        while i < self.subs.len()
            invariant
                i <= self.subs@.len(),
                forall|j: int| 0 <= j < i ==> (#[trigger] self@.subs[j]).token != token,
            decreases self.subs@.len() - i,
        {
            if self.subs[i].token == token {
                assert(self@.subs[i as int].token == token);
                assert(self@.first_at(token, i as int));
                let ghost p = self@.place(token);
                assert(self@.first_at(token, p));
                assert(p == i) by {
                    if p < i {
                        assert(self@.subs[p].token != token);
                    }
                    if i < p {
                        assert(self@.subs[i as int].token != token);
                    }
                }
                return Some(i);
            }
            i = i + 1;
        }
        None
    }

    /// Makes a subscription to the updates of the download `filter`, or of
    /// every download where `filter` is `None`, with room for `capacity`
    /// waiting updates, and returns its token. Once every token has been
    /// handed out, nothing changes and `None` is returned.
    pub fn subscribe(&mut self, filter: Option<u128>, capacity: usize) -> (token: Option<u64>)
        ensures
            old(self)@.next_token == u64::MAX ==> token is None && final(self)@ == old(self)@,
            old(self)@.next_token < u64::MAX ==> {
                &&& token == Some(old(self)@.next_token)
                &&& final(self)@ == old(self)@.subscribed(filter, capacity)
            },
            old(self)@.wf() ==> final(self)@.wf(),
    {
        if self.next_token == u64::MAX {
            return None;
        }
        let token = self.next_token;
        self.subs.push(Subscription { token, filter, capacity, queue: Vec::new() });
        self.next_token = token + 1;
        assert(self@.subs =~= old(self)@.subscribed(filter, capacity).subs);
        Some(token)
    }

    /// Ends the subscription `token` and returns whether there was one.
    /// The other subscriptions keep their order and their queues.
    pub fn unsubscribe(&mut self, token: u64) -> (removed: bool)
        ensures
            removed == old(self)@.has(token),
            final(self)@ == old(self)@.unsubscribed(token),
            old(self)@.wf() ==> final(self)@.wf(),
    {
        match self.find(token) {
            Some(i) => {
                self.subs.remove(i);
                assert(self@.subs =~= old(self)@.subs.remove(i as int));
                true
            },
            None => false,
        }
    }

    /// Returns the number of updates that wait for the subscription
    /// `token`, if there is one.
    pub fn pending(&self, token: u64) -> (n: Option<usize>)
        ensures
            n == if self@.has(token) {
                Some(self@.subs[self@.place(token)].queue.len() as usize)
            } else {
                None
            },
    {
        match self.find(token) {
            Some(i) => Some(self.subs[i].queue.len()),
            None => None,
        }
    }

    /// Hands out the updates that wait for the subscription `token`,
    /// oldest first, and leaves its queue empty. Returns `None` where there
    /// is no such subscription.
    pub fn poll(&mut self, token: u64) -> (updates: Option<Vec<DownloadUpdate>>)
        ensures
            updates is Some <==> old(self)@.has(token),
            updates matches Some(queue) ==> queue@ == old(self)@.subs[old(self)@.place(token)].queue,
            final(self)@ == old(self)@.collected(token),
            old(self)@.wf() ==> final(self)@.wf(),
    {
        match self.find(token) {
            Some(i) => {
                let mut queue: Vec<DownloadUpdate> = Vec::new();
                core::mem::swap(&mut queue, &mut self.subs[i].queue);
                assert(self@.subs =~= old(self)@.collected(token).subs);
                Some(queue)
            },
            None => None,
        }
    }

    /// Publishes `update` to every subscription that wants it. A full queue
    /// loses its oldest update; no subscription is held up by another.
    pub fn publish(&mut self, update: &DownloadUpdate)
        ensures
            final(self)@ == old(self)@.published(*update),
            old(self)@.wf() ==> final(self)@.wf(),
    {
        let mut i: usize = 0;
        while i < self.subs.len()
            invariant
                i <= self.subs@.len(),
                self.subs@.len() == old(self).subs@.len(),
                self.next_token == old(self).next_token,
                forall|j: int|
                    0 <= j < i ==> (#[trigger] self.subs@[j])@ == old(self).subs@[j]@.delivered(
                        *update,
                    ),
                forall|j: int| i <= j < self.subs@.len() ==> self.subs@[j] == old(self).subs@[j],
            decreases self.subs@.len() - i,
        {
            self.subs[i].deliver(update);
            i = i + 1;
        }
        assert(self@.subs =~= old(self)@.published(*update).subs);
    }
}

impl UpdateConsumer for Subscribers {
    /// Publishes `update` to every subscription that wants it.
    fn consume(&mut self, update: DownloadUpdate)
        ensures
            final(self)@ == old(self)@.published(update),
    {
        self.publish(&update);
    }
}

impl Default for Subscribers {
    /// Creates a registry without subscriptions.
    fn default() -> (registry: Subscribers)
        ensures
            registry@.subs.len() == 0,
            registry@.next_token == 0,
    {
        Subscribers::new()
    }
}

} // verus!
