//! The router: owner of the shared source and the topic registry.

use vstd::prelude::*;

use crate::model::RouterModel;
use crate::subed::Subed;
use crate::Topic;

verus! {

/// The error returned by [`Subable::subscribe`] when the topic already has a
/// live subscription. Callers must treat it as a logic bug, not a transient
/// failure: the registry never merges two subscriptions on one topic.
#[derive(Clone, Copy, Debug, PartialEq, Eq)]
pub struct DuplicateTopic;

/// A _stream_ that can be [`Subable::subscribe`]d to.
///
/// Its view is a [`RouterModel`]: the set of live topics and the source
/// entries not yet consumed.
pub struct Subable<T: Topic, E> {
    pub(crate) topics: Vec<T>,
    pub(crate) entries: Vec<Result<T::Item, E>>,
}

impl<T: Topic, E> View for Subable<T, E> {
    type V = RouterModel<T, E>;

    open(crate) spec fn view(&self) -> RouterModel<T, E> {
        RouterModel {
            topics: Set::new(|t: T| self.topics@.contains(t)),
            remaining: self.entries@,
        }
    }
}

impl<T: Topic, E> Subable<T, E> {
    /// The registry invariant: at most one entry per topic value.
    pub open(crate) spec fn wf(&self) -> bool {
        forall|i: int, j: int|
            0 <= i < j < self.topics@.len() ==> self.topics@[i] != self.topics@[j]
    }

    /// Create a new _subable_ from a source sequence, with non-destructive
    /// look-ahead over it and an empty registry.
    pub fn new(source: Vec<Result<T::Item, E>>) -> (s: Self)
        ensures
            s.wf(),
            s@.topics == Set::<T>::empty(),
            s@.remaining == source@,
    {
        Subable { topics: Vec::new(), entries: source }
    }

    /// Subscribe to the provided [`Topic`].
    ///
    /// Registers `topic` and returns the subscription bound to it. A second
    /// live subscription on the same topic is a uniqueness-invariant
    /// violation — a programming error, not a runtime condition to recover
    /// from — and is refused with [`DuplicateTopic`], leaving the router
    /// unchanged.
    pub fn subscribe(&mut self, topic: T) -> (r: Result<Subed<T>, DuplicateTopic>)
        requires
            old(self).wf(),
        ensures
            final(self).wf(),
            old(self)@.is_live(topic) ==> r is Err && final(self)@ == old(self)@,
            !old(self)@.is_live(topic) ==> {
                &&& r is Ok
                &&& (r->Ok_0)@ == topic
                &&& !(r->Ok_0).terminated()
                &&& final(self)@.topics == old(self)@.topics.insert(topic)
                &&& final(self)@.remaining == old(self)@.remaining
            },
    {
        if self.is_subscribed(&topic) {
            return Err(DuplicateTopic);
        }
        let sub = Subed::new(topic.dup());
        self.topics.push(topic);
        proof {
            assert(self@.topics =~= old(self)@.topics.insert(topic)) by {
                assert(forall|t: T| old(self).topics@.contains(t)
                    ==> #[trigger] self.topics@.contains(t)) by {
                    assert(forall|k: int| 0 <= k < old(self).topics@.len()
                        ==> self.topics@[k] == old(self).topics@[k]);
                }
                assert(self.topics@[old(self).topics@.len() as int] == topic);
                assert(forall|t: T| #[trigger] self.topics@.contains(t)
                    ==> old(self).topics@.contains(t) || t == topic) by {
                    assert(forall|k: int| 0 <= k < old(self).topics@.len()
                        ==> self.topics@[k] == old(self).topics@[k]);
                }
            }
        }
        Ok(sub)
    }

    /// Release `sub`, removing its topic from the registry. The topic becomes
    /// free for a future [`Subable::subscribe`] call, and an item bearing it
    /// becomes eligible for unhandled delivery to whichever subscription
    /// polls next. A subscription is identified by its topic alone, so it
    /// must be released at the router that created it.
    pub fn unsubscribe(&mut self, sub: Subed<T>)
        requires
            old(self).wf(),
        ensures
            final(self).wf(),
            final(self)@.topics == old(self)@.topics.remove(sub@),
            final(self)@.remaining == old(self)@.remaining,
    {
        let mut i: usize = 0;
        while i < self.topics.len()
            invariant
                i <= self.topics.len(),
                old(self).wf(),
                self.topics@ == old(self).topics@,
                self.entries@ == old(self).entries@,
                forall|j: int| 0 <= j < i ==> self.topics@[j] != sub@,
            decreases self.topics.len() - i,
        {
            if self.topics[i].topic_eq(&sub.topic) {
                let ghost pre = self.topics@;
                self.topics.remove(i);
                proof {
                    let post = self.topics@;
                    pre.remove_ensures(i as int);
                    assert(pre == old(self).topics@);
                    assert(pre[i as int] == sub@);
                    assert(forall|a: int, b: int|
                        0 <= a < b < pre.len() ==> pre[a] != pre[b]) by {
                        assert(forall|a: int, b: int|
                            0 <= a < b < old(self).topics@.len()
                                ==> old(self).topics@[a] != old(self).topics@[b]);
                    }
                    assert forall|t: T| post.contains(t)
                        implies pre.contains(t) && t != sub@ by {
                        let k = choose|k: int| 0 <= k < post.len() && post[k] == t;
                        if k < i {
                            assert(post[k] == pre[k]);
                            assert(pre[k] != pre[i as int]);
                        } else {
                            assert(post[k] == pre[k + 1]);
                            assert(pre[i as int] != pre[k + 1]);
                        }
                    }
                    assert forall|t: T| pre.contains(t) && t != sub@
                        implies post.contains(t) by {
                        let k = choose|k: int| 0 <= k < pre.len() && pre[k] == t;
                        if k < i {
                            assert(post[k] == pre[k]);
                        } else {
                            assert(k != i);
                            assert(post[k - 1] == pre[k]);
                        }
                    }
                    assert forall|a: int, b: int| 0 <= a < b < post.len()
                        implies post[a] != post[b] by {
                        if b < i {
                            assert(post[a] == pre[a]);
                            assert(post[b] == pre[b]);
                        } else if a < i {
                            assert(post[a] == pre[a]);
                            assert(post[b] == pre[b + 1]);
                        } else {
                            assert(post[a] == pre[a + 1]);
                            assert(post[b] == pre[b + 1]);
                        }
                    }
                    assert(self@.topics =~= old(self)@.topics.remove(sub@));
                }
                return;
            }
            i += 1;
        }
        proof {
            assert(!old(self).topics@.contains(sub@));
            assert(self@.topics =~= old(self)@.topics.remove(sub@));
        }
    }

    /// Unsubscribe all currently subscribed [`Subed`]s: the registry is
    /// atomically drained, so every outstanding subscription observes
    /// end-of-sequence on its next poll. The drained topics are returned,
    /// each exactly once, so the caller can signal their subscriptions.
    /// Draining an already-empty registry is a no-op.
    pub fn unsubscribe_all(&mut self) -> (drained: Vec<T>)
        requires
            old(self).wf(),
        ensures
            final(self).wf(),
            final(self)@.topics == Set::<T>::empty(),
            final(self)@.remaining == old(self)@.remaining,
            drained@.to_set() == old(self)@.topics,
            drained@.no_duplicates(),
    {
        let mut drained: Vec<T> = Vec::new();
        core::mem::swap(&mut drained, &mut self.topics);
        proof {
            assert(drained@.to_set() =~= old(self)@.topics);
            assert(self@.topics =~= Set::<T>::empty());
        }
        drained
    }

    /// Whether `topic` currently has a live subscription.
    pub fn is_subscribed(&self, topic: &T) -> (b: bool)
        ensures
            b == self@.topics.contains(*topic),
    {
        let mut i: usize = 0;
        while i < self.topics.len()
            invariant
                i <= self.topics.len(),
                forall|j: int| 0 <= j < i ==> self.topics@[j] != *topic,
            decreases self.topics.len() - i,
        {
            if self.topics[i].topic_eq(topic) {
                return true;
            }
            i += 1;
        }
        false
    }
}

} // verus!
