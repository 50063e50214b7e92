//! Subscriptions and the per-poll dispatch algorithm.

use vstd::prelude::*;

use crate::subable::Subable;
use crate::Topic;

verus! {

/// A yielded item from a _subscription_.
#[derive(Clone, Copy, Debug, PartialEq, Eq)]
pub enum Item<I> {
    /// The item has been subscribed to.
    Subscribed(I),

    /// The item is not handled by any subscriber.
    Unhandled(I),
}

/// The outcome of one poll of a [`Subed`] subscription.
#[derive(Clone, Copy, Debug, PartialEq, Eq)]
pub enum Polled<T, I, E> {
    /// End-of-sequence: the subscription is terminated, because its topic
    /// was no longer registered, the shared source was exhausted, or an
    /// earlier poll already observed one of the two.
    Closed,

    /// The next entry belongs to another live subscription; nothing was
    /// consumed. The caller must signal `wake` so that the rightful
    /// subscription gets to poll.
    Pending {
        /// The topic whose subscription should be woken.
        wake: T,
    },

    /// The next entry was consumed and delivered to this poller.
    Delivered(Item<I>),

    /// The next entry was a source error; it was consumed and is propagated
    /// verbatim to this poller, whatever its topic.
    Failed(E),
}

/// What one poll observed, in the order the algorithm looks: first the
/// registry, then — only for a still-registered topic — the look-ahead at
/// the shared source.
#[derive(Clone, Copy, Debug, PartialEq, Eq)]
pub enum Observed<T> {
    /// The poller's topic has no registry entry any more.
    Deregistered,

    /// The shared source is exhausted.
    End,

    /// The next source entry is an error value.
    Error,

    /// The next source entry is an item destined to this topic, which
    /// currently has (`true`) or has not (`false`) a live subscription.
    Next(T, bool),
}

/// What one poll must do, as decided by [`route`].
#[derive(Clone, Copy, Debug, PartialEq, Eq)]
pub enum Step<T> {
    /// Report end-of-sequence; the subscription is terminated for good.
    Close,

    /// Leave the source untouched, wake the subscription of this topic, and
    /// stay pending.
    Wake(T),

    /// Consume the head item and deliver it to the poller as subscribed.
    TakeSubscribed,

    /// Consume the head item and deliver it to the poller as unhandled.
    TakeUnhandled,

    /// Consume the head error and propagate it verbatim to the poller.
    TakeError,
}

/// The dispatch rule for one poll: `own` is the poller's topic and `seen`
/// what the poll observed of the registry and the source head.
pub fn route<T: Topic>(own: &T, seen: Observed<T>) -> (s: Step<T>)
    ensures
        seen is Deregistered ==> s == Step::<T>::Close,
        seen is End ==> s == Step::<T>::Close,
        seen is Error ==> s == Step::<T>::TakeError,
        seen matches Observed::Next(d, live) ==> {
            &&& d == *own ==> s == Step::<T>::TakeSubscribed
            &&& d != *own && live ==> s == Step::Wake(d)
            &&& d != *own && !live ==> s == Step::<T>::TakeUnhandled
        },
{
    match seen {
        Observed::Deregistered => Step::Close,
        Observed::End => Step::Close,
        Observed::Error => Step::TakeError,
        Observed::Next(dest, dest_live) => {
            if dest.topic_eq(own) {
                Step::TakeSubscribed
            } else if dest_live {
                Step::Wake(dest)
            } else {
                Step::TakeUnhandled
            }
        },
    }
}

/// A _subscription_ to a [`Topic`] yielding this topic's messages.
///
/// A subscription's view is the topic it is bound to; it carries no
/// reference back to the router that created it, so a caller must hand it
/// back only to that router. It is created by [`Subable::subscribe`] and
/// released by [`Subable::unsubscribe`]. Once a poll has observed termination the
/// subscription stays terminated, whatever happens to the registry later.
pub struct Subed<T> {
    pub(crate) topic: T,
    pub(crate) done: bool,
}

impl<T> View for Subed<T> {
    type V = T;

    open(crate) spec fn view(&self) -> T {
        self.topic
    }
}

impl<T> Subed<T> {
    /// Whether this subscription has observed termination: some earlier
    /// poll returned [`Polled::Closed`]. Terminated is absorbing — every
    /// later poll returns [`Polled::Closed`] as well.
    pub open(crate) spec fn terminated(&self) -> bool {
        self.done
    }

    pub(crate) fn new(topic: T) -> (s: Self)
        ensures
            s@ == topic,
            !s.terminated(),
    {
        Subed { topic, done: false }
    }
}

impl<T: Topic> Subed<T> {
    /// Drive this subscription one step.
    ///
    /// A terminated subscription reports end-of-sequence at once and
    /// touches nothing — termination is permanent, even if its topic has
    /// meanwhile been registered again. Otherwise the poll observes the
    /// registry — an absent topic is the termination signal, observed
    /// lazily here rather than pushed at unsubscribe time — then peeks the
    /// next source entry without consuming it, and [`route`] decides: a
    /// source error goes verbatim to this poller whatever its topic, an
    /// item for this topic is delivered as [`Item::Subscribed`], an item
    /// whose topic no live subscription claims is delivered as
    /// [`Item::Unhandled`], and an item for another live subscription stays
    /// in place while that subscription is told to wake.
    pub fn poll_next<E>(&mut self, router: &mut Subable<T, E>) -> (r: Polled<T, T::Item, E>)
        ensures
            final(self)@ == old(self)@,
            old(router).wf() ==> final(router).wf(),
            old(self).terminated() ==> {
                &&& r == Polled::<T, T::Item, E>::Closed
                &&& final(self).terminated()
                &&& final(router)@ == old(router)@
            },
            !old(self).terminated() ==> {
                &&& r == old(router)@.poll_outcome(old(self)@)
                &&& final(router)@ == old(router)@.poll_step(old(self)@)
                &&& (final(self).terminated() <==> r is Closed)
            },
    {
        if self.done {
            // Termination is absorbing: report end-of-sequence for good.
            return Polled::Closed;
        }
        let seen: Observed<T>;
        if !router.is_subscribed(&self.topic) {
            seen = Observed::Deregistered;
        } else if router.entries.len() == 0 {
            seen = Observed::End;
        } else {
            match &router.entries[0] {
                Err(_) => {
                    seen = Observed::Error;
                },
                Ok(item) => {
                    let dest = T::topic(item);
                    let dest_live = router.is_subscribed(&dest);
                    seen = Observed::Next(dest, dest_live);
                },
            }
        }
        let mine: bool;
        match route(&self.topic, seen) {
            Step::Close => {
                self.done = true;
                return Polled::Closed;
            },
            Step::Wake(wake) => {
                // The item is destined to another live subscription: leave
                // it in place for that subscription's own peek.
                return Polled::Pending { wake };
            },
            Step::TakeSubscribed => {
                mine = true;
            },
            Step::TakeUnhandled => {
                mine = false;
            },
            Step::TakeError => {
                mine = false;
            },
        }
        // Only now is the head consumed: this poller is entitled to it.
        proof {
            assert(old(router)@.remaining.drop_first()
                =~= old(router)@.remaining.remove(0));
        }
        match router.entries.remove(0) {
            Ok(item) => {
                if mine {
                    Polled::Delivered(Item::Subscribed(item))
                } else {
                    Polled::Delivered(Item::Unhandled(item))
                }
            },
            Err(e) => Polled::Failed(e),
        }
    }
}

} // verus!
