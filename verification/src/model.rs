//! The mathematical model of the router.
//!
//! A [`RouterModel`] is the view of a [`crate::Subable`]: the set of live
//! topics and the entries still to be drained from the shared source, oldest
//! first. The spec functions here say, for any state and any polling topic,
//! whether a poll terminates, defers, or consumes the head entry, what it
//! yields, and what state it leaves behind. The executable router is proved
//! against these functions, and the laws at the end of this module are proved
//! from them alone.

use vstd::prelude::*;

use crate::subed::{Item, Polled};
use crate::Topic;

verus! {

/// The abstract state of a router: which topics have a live subscription,
/// and which source entries have not been consumed yet.
#[verifier::reject_recursive_types(T)]
#[verifier::reject_recursive_types(E)]
#[verifier::ext_equal]
pub ghost struct RouterModel<T: Topic, E> {
    /// The topics with a live subscription; at most one subscription per
    /// topic ever exists.
    pub topics: Set<T>,
    /// The entries of the shared source that no poll has consumed, oldest
    /// first.
    pub remaining: Seq<Result<T::Item, E>>,
}

impl<T: Topic, E> RouterModel<T, E> {
    /// Whether `t` currently has a live subscription.
    pub open spec fn is_live(self, t: T) -> bool {
        self.topics.contains(t)
    }

    /// A poll by `t` reports end-of-sequence: either `t` is no longer
    /// registered, or the source is exhausted.
    pub open spec fn poll_is_closed(self, t: T) -> bool {
        !self.is_live(t) || self.remaining.len() == 0
    }

    /// The destination topic of the next entry.
    pub open spec fn head_dest(self) -> T
        recommends
            self.remaining.len() > 0,
            self.remaining[0] is Ok,
    {
        T::topic_spec(self.remaining[0]->Ok_0)
    }

    /// The next entry is a well-formed item that belongs to a different live
    /// subscription: a poll by `t` must leave it in place and wake its owner.
    pub open spec fn head_routes_elsewhere(self, t: T) -> bool {
        &&& self.remaining.len() > 0
        &&& self.remaining[0] is Ok
        &&& self.head_dest() != t
        &&& self.is_live(self.head_dest())
    }

    /// A poll by `t` consumes the head entry: `t` is live, the source is not
    /// exhausted, and the head does not belong to another live subscription.
    pub open spec fn poll_consumes(self, t: T) -> bool {
        !self.poll_is_closed(t) && !self.head_routes_elsewhere(t)
    }

    /// What a poll by `t` yields in this state.
    pub open spec fn poll_outcome(self, t: T) -> Polled<T, T::Item, E> {
        if self.poll_is_closed(t) {
            Polled::Closed
        } else {
            match self.remaining[0] {
                Err(e) => Polled::Failed(e),
                Ok(i) => {
                    let d = T::topic_spec(i);
                    if d == t {
                        Polled::Delivered(Item::Subscribed(i))
                    } else if self.topics.contains(d) {
                        (Polled::Pending { wake: d })
                    } else {
                        Polled::Delivered(Item::Unhandled(i))
                    }
                },
            }
        }
    }

    /// The state a poll by `t` leaves behind: the head entry is gone exactly
    /// when the poll consumes it, and the registry is never changed by a
    /// poll.
    pub open spec fn poll_step(self, t: T) -> RouterModel<T, E> {
        if self.poll_consumes(t) {
            RouterModel { topics: self.topics, remaining: self.remaining.drop_first() }
        } else {
            self
        }
    }
}

/// The state left behind by a sequence of polls, each identified by the
/// topic of the subscription that made it.
pub open spec fn run_model<T: Topic, E>(m: RouterModel<T, E>, polls: Seq<T>) -> RouterModel<T, E>
    decreases polls.len(),
{
    if polls.len() == 0 {
        m
    } else {
        run_model(m.poll_step(polls[0]), polls.drop_first())
    }
}

/// The source entries consumed over a sequence of polls, in consumption
/// order.
pub open spec fn run_consumed<T: Topic, E>(m: RouterModel<T, E>, polls: Seq<T>) -> Seq<
    Result<T::Item, E>,
>
    decreases polls.len(),
{
    if polls.len() == 0 {
        Seq::empty()
    } else if m.poll_consumes(polls[0]) {
        seq![m.remaining[0]] + run_consumed(m.poll_step(polls[0]), polls.drop_first())
    } else {
        run_consumed(m.poll_step(polls[0]), polls.drop_first())
    }
}

/// Polling drains the source in order, without loss or duplication: whatever
/// subscriptions poll in whatever interleaving, the entries consumed are
/// exactly a prefix of the remaining source, in source order — so two
/// deliveries, to the same subscription or to different ones, are always
/// observed in the relative order the source produced them — and what is
/// left is exactly the matching suffix, with no entry skipped, repeated or
/// reordered. Polling never changes the registry.
pub proof fn lemma_polls_drain_in_order<T: Topic, E>(m: RouterModel<T, E>, polls: Seq<T>)
    ensures
        run_consumed(m, polls).len() <= m.remaining.len(),
        run_consumed(m, polls) == m.remaining.take(run_consumed(m, polls).len() as int),
        run_model(m, polls).remaining == m.remaining.skip(run_consumed(m, polls).len() as int),
        run_model(m, polls).topics == m.topics,
    decreases polls.len(),
{
    if polls.len() == 0 {
        assert(run_consumed(m, polls) =~= m.remaining.take(0));
        assert(run_model(m, polls).remaining =~= m.remaining.skip(0));
    } else {
        let t = polls[0];
        let m1 = m.poll_step(t);
        let rest = polls.drop_first();
        lemma_polls_drain_in_order(m1, rest);
        let k1 = run_consumed(m1, rest).len() as int;
        if m.poll_consumes(t) {
            assert(m1.remaining == m.remaining.drop_first());
            assert(run_consumed(m, polls) =~= m.remaining.take(k1 + 1));
            assert(run_model(m, polls).remaining =~= m.remaining.skip(k1 + 1));
        }
    }
}

/// A consuming poll delivers exactly the head entry to the one subscription
/// that made the poll: an item of the poller's own topic tagged
/// [`Item::Subscribed`], an item no live subscription claims tagged
/// [`Item::Unhandled`], and a source error verbatim, without topic
/// classification. The head then leaves the shared source, so no other
/// subscription can ever be handed the same entry.
pub proof fn lemma_consuming_poll_delivers_head<T: Topic, E>(m: RouterModel<T, E>, t: T)
    requires
        m.poll_consumes(t),
    ensures
        m.remaining[0] matches Ok(i) ==> m.poll_outcome(t) == (if T::topic_spec(i) == t {
            Polled::<T, T::Item, E>::Delivered(Item::Subscribed(i))
        } else {
            Polled::<T, T::Item, E>::Delivered(Item::Unhandled(i))
        }),
        m.remaining[0] matches Err(e) ==> m.poll_outcome(t) == Polled::<T, T::Item, E>::Failed(e),
        m.poll_step(t).remaining == m.remaining.drop_first(),
        m.poll_step(t).topics == m.topics,
{
}

/// A well-formed head item is never stranded while a live subscription
/// polls: either the poll consumes and delivers it, or the poll leaves it in
/// place and names the live subscription it belongs to, which must be woken
/// and whose own poll does consume it.
pub proof fn lemma_head_not_stranded<T: Topic, E>(m: RouterModel<T, E>, t: T)
    requires
        m.is_live(t),
        m.remaining.len() > 0,
        m.remaining[0] is Ok,
    ensures
        m.poll_consumes(t) || {
            &&& m.poll_outcome(t) == (Polled::<T, T::Item, E>::Pending { wake: m.head_dest() })
            &&& m.poll_step(t) == m
            &&& m.is_live(m.head_dest())
            &&& m.poll_consumes(m.head_dest())
        },
{
}

/// After the registry is drained — what [`crate::Subable::unsubscribe_all`]
/// leaves behind — every previously-active subscription's next poll yields
/// end-of-sequence, and the state never changes again.
pub proof fn lemma_empty_registry_closes<T: Topic, E>(m: RouterModel<T, E>, t: T)
    requires
        m.topics == Set::<T>::empty(),
    ensures
        m.poll_outcome(t) == Polled::<T, T::Item, E>::Closed,
        m.poll_step(t) == m,
{
}

/// An item whose topic no live subscription claims is delivered, tagged
/// unhandled, to exactly the one subscription that polls for it: the poll
/// consumes the head, so no later poller sees it.
pub proof fn lemma_unclaimed_is_delivered_unhandled<T: Topic, E>(m: RouterModel<T, E>, t: T)
    requires
        m.is_live(t),
        m.remaining.len() > 0,
        m.remaining[0] is Ok,
        !m.is_live(m.head_dest()),
        m.head_dest() != t,
    ensures
        m.poll_outcome(t) == Polled::<T, T::Item, E>::Delivered(
            Item::Unhandled(m.remaining[0]->Ok_0),
        ),
        m.poll_step(t).remaining == m.remaining.drop_first(),
        m.poll_step(t).topics == m.topics,
{
}

} // verus!
