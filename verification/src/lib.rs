//! An in-process fan-out router for a single ordered sequence of fallible
//! items.
//!
//! A [`Subable`] owns the shared source sequence and a registry of live
//! topics; at most one [`Subed`] subscription exists per topic at a time.
//! Each poll looks ahead at the next source entry without consuming it and
//! either delivers it to the polling subscription (tagged [`Item::Subscribed`]
//! or [`Item::Unhandled`]), defers to the live subscription the entry belongs
//! to, propagates a source error, or reports end-of-sequence.

use vstd::prelude::*;

mod model;
mod subable;
mod subed;

pub use model::RouterModel;
pub use subable::{DuplicateTopic, Subable};
pub use subed::{route, Item, Observed, Polled, Step, Subed};

verus! {

/// The _topic_ that will be used to route items to a specific subscriber.
///
/// `topic` must be a pure function of the item: the router may classify the
/// same item more than once while it looks ahead, and every classification
/// must agree. The two remaining methods give the router an equality test and
/// a copy operation whose meaning is pinned to mathematical equality.
pub trait Topic: Sized {
    /// The type of the items in the [`Subable`] stream.
    type Item;

    /// The topic of an item, as a mathematical function of the item value.
    spec fn topic_spec(item: Self::Item) -> Self;

    /// Identify the topic from the item type.
    fn topic(item: &Self::Item) -> (t: Self)
        ensures
            t == Self::topic_spec(*item),
    ;

    /// Decide whether two topic values are the same dispatch key.
    fn topic_eq(&self, other: &Self) -> (b: bool)
        ensures
            b <==> (*self == *other),
    ;

    /// Produce a copy of this topic value.
    fn dup(&self) -> (c: Self)
        ensures
            c == *self,
    ;
}

/// A sample item type: a payload tagged with the numeric channel it belongs
/// to. Routing on `u64` channels uses the tag as the topic.
#[derive(Clone, Copy, Debug, PartialEq, Eq)]
pub struct Tagged {
    /// The channel this item belongs to.
    pub tag: u64,
    /// The payload carried by the item.
    pub value: u64,
}

impl Topic for u64 {
    type Item = Tagged;

    open spec fn topic_spec(item: Tagged) -> u64 {
        item.tag
    }

    fn topic(item: &Tagged) -> (t: u64) {
        item.tag
    }

    fn topic_eq(&self, other: &u64) -> (b: bool) {
        *self == *other
    }

    fn dup(&self) -> (c: u64) {
        *self
    }
}

} // verus!
