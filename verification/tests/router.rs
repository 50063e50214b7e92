use subable::{route, DuplicateTopic, Item, Observed, Polled, Step, Subable, Tagged, Topic};

const A: u64 = 1;
const B: u64 = 2;
const C: u64 = 3;

fn tagged(tag: u64, value: u64) -> Result<Tagged, u64> {
    Ok(Tagged { tag, value })
}

#[test]
fn topic_of_tagged_is_its_tag() {
    assert_eq!(<u64 as Topic>::topic(&Tagged { tag: 7, value: 9 }), 7);
    assert!(5u64.topic_eq(&5));
    assert!(!5u64.topic_eq(&6));
    assert_eq!(9u64.dup(), 9);
}

#[test]
fn route_decides_dispatch() {
    assert_eq!(route(&A, Observed::Deregistered), Step::Close);
    assert_eq!(route(&A, Observed::End), Step::Close);
    assert_eq!(route(&A, Observed::Error), Step::TakeError);
    assert_eq!(route(&A, Observed::Next(A, true)), Step::TakeSubscribed);
    assert_eq!(route(&A, Observed::Next(A, false)), Step::TakeSubscribed);
    assert_eq!(route(&A, Observed::Next(B, true)), Step::Wake(B));
    assert_eq!(route(&A, Observed::Next(B, false)), Step::TakeUnhandled);
}

#[test]
fn duplicate_subscribe_fails() {
    let mut router: Subable<u64, u64> = Subable::new(vec![]);
    let first = router.subscribe(A);
    assert!(first.is_ok());
    // A second live subscription on the same topic is refused.
    assert_eq!(router.subscribe(A).err(), Some(DuplicateTopic));
    // Releasing the first frees the topic again.
    router.unsubscribe(first.unwrap());
    assert!(router.subscribe(A).is_ok());
}

#[test]
fn subscribed_items_delivered_in_order() {
    let source = vec![tagged(A, 10), tagged(B, 20), tagged(A, 11)];
    let mut router: Subable<u64, u64> = Subable::new(source);
    let mut sub_a = router.subscribe(A).unwrap();
    let mut sub_b = router.subscribe(B).unwrap();

    assert_eq!(
        sub_a.poll_next(&mut router),
        Polled::Delivered(Item::Subscribed(Tagged { tag: A, value: 10 }))
    );
    // The next item belongs to B: A's poll leaves it in place and names B.
    assert_eq!(sub_a.poll_next(&mut router), Polled::Pending { wake: B });
    assert_eq!(
        sub_b.poll_next(&mut router),
        Polled::Delivered(Item::Subscribed(Tagged { tag: B, value: 20 }))
    );
    assert_eq!(
        sub_a.poll_next(&mut router),
        Polled::Delivered(Item::Subscribed(Tagged { tag: A, value: 11 }))
    );
    // Exhausted source: end-of-sequence for everyone.
    assert_eq!(sub_a.poll_next(&mut router), Polled::Closed);
    assert_eq!(sub_b.poll_next(&mut router), Polled::Closed);
}

#[test]
fn no_item_lost_or_duplicated_across_subscriptions() {
    let source = vec![tagged(A, 1), tagged(B, 2), tagged(A, 3), tagged(B, 4)];
    let mut router: Subable<u64, u64> = Subable::new(source);
    let mut sub_a = router.subscribe(A).unwrap();
    let mut sub_b = router.subscribe(B).unwrap();

    let mut got_a = Vec::new();
    let mut got_b = Vec::new();
    let mut closed = 0;
    // Alternate pollers; every poll either delivers, defers, or closes.
    let mut turn_a = true;
    while closed < 2 {
        let (sub, got) =
            if turn_a { (&mut sub_a, &mut got_a) } else { (&mut sub_b, &mut got_b) };
        match sub.poll_next(&mut router) {
            Polled::Delivered(Item::Subscribed(item)) => got.push(item.value),
            Polled::Closed => closed += 1,
            Polled::Pending { wake } => assert_eq!(wake, if turn_a { B } else { A }),
            other => panic!("unexpected poll outcome: {other:?}"),
        }
        turn_a = !turn_a;
    }
    // Each item went to exactly one subscription, in source order.
    assert_eq!(got_a, vec![1, 3]);
    assert_eq!(got_b, vec![2, 4]);
}

#[test]
fn unclaimed_topic_delivered_unhandled() {
    let source = vec![tagged(C, 30)];
    let mut router: Subable<u64, u64> = Subable::new(source);
    let mut sub_a = router.subscribe(A).unwrap();
    assert_eq!(
        sub_a.poll_next(&mut router),
        Polled::Delivered(Item::Unhandled(Tagged { tag: C, value: 30 }))
    );
    assert_eq!(sub_a.poll_next(&mut router), Polled::Closed);
}

#[test]
fn poll_after_end_is_closed() {
    let source = vec![tagged(A, 10)];
    let mut router: Subable<u64, u64> = Subable::new(source);
    let mut sub_a = router.subscribe(A).unwrap();
    assert_eq!(
        sub_a.poll_next(&mut router),
        Polled::Delivered(Item::Subscribed(Tagged { tag: A, value: 10 }))
    );
    assert_eq!(sub_a.poll_next(&mut router), Polled::Closed);
}

#[test]
fn dropped_topic_becomes_unhandled() {
    let source = vec![tagged(A, 10)];
    let mut router: Subable<u64, u64> = Subable::new(source);
    let mut sub_a = router.subscribe(A).unwrap();
    let mut sub_b = router.subscribe(B).unwrap();
    // Release the A subscription; its topic is unregistered.
    router.unsubscribe(sub_a);
    assert!(!router.is_subscribed(&A));
    // The A-tagged item is now unclaimed: B's poll drains it as unhandled.
    assert_eq!(
        sub_b.poll_next(&mut router),
        Polled::Delivered(Item::Unhandled(Tagged { tag: A, value: 10 }))
    );
}

#[test]
fn unsubscribe_all_closes_every_subscription() {
    let source = vec![tagged(A, 10), tagged(B, 20)];
    let mut router: Subable<u64, u64> = Subable::new(source);
    let mut sub_a = router.subscribe(A).unwrap();
    let mut sub_b = router.subscribe(B).unwrap();

    let mut drained = router.unsubscribe_all();
    drained.sort();
    assert_eq!(drained, vec![A, B]);

    // Every previously-active subscription's next poll is end-of-sequence,
    // even though the source still holds items.
    assert_eq!(sub_a.poll_next(&mut router), Polled::Closed);
    assert_eq!(sub_b.poll_next(&mut router), Polled::Closed);

    // Draining an already-empty registry is a no-op.
    assert_eq!(router.unsubscribe_all(), Vec::new());
}

#[test]
fn error_goes_to_whichever_poller() {
    // The error is first in the source; B polls first and receives it
    // verbatim, although nothing routed it to B's topic.
    let source = vec![Err(9), tagged(A, 10)];
    let mut router: Subable<u64, u64> = Subable::new(source);
    let _sub_a = router.subscribe(A).unwrap();
    let mut sub_b = router.subscribe(B).unwrap();
    assert_eq!(sub_b.poll_next(&mut router), Polled::Failed(9));
    // The error was consumed; the next item routes normally.
    assert_eq!(sub_b.poll_next(&mut router), Polled::Pending { wake: A });
}

#[test]
fn pending_poll_consumes_nothing() {
    let source = vec![tagged(A, 10)];
    let mut router: Subable<u64, u64> = Subable::new(source);
    let mut sub_a = router.subscribe(A).unwrap();
    let mut sub_b = router.subscribe(B).unwrap();
    // B's poll must not take A's item, however often it tries.
    assert_eq!(sub_b.poll_next(&mut router), Polled::Pending { wake: A });
    assert_eq!(sub_b.poll_next(&mut router), Polled::Pending { wake: A });
    assert_eq!(
        sub_a.poll_next(&mut router),
        Polled::Delivered(Item::Subscribed(Tagged { tag: A, value: 10 }))
    );
}

#[test]
fn is_subscribed_tracks_registry() {
    let mut router: Subable<u64, u64> = Subable::new(vec![]);
    assert!(!router.is_subscribed(&A));
    let sub_a = router.subscribe(A).unwrap();
    assert!(router.is_subscribed(&A));
    assert!(!router.is_subscribed(&B));
    router.unsubscribe(sub_a);
    assert!(!router.is_subscribed(&A));
}

#[test]
fn unsubscribe_after_drain_changes_nothing() {
    let mut router: Subable<u64, u64> = Subable::new(vec![tagged(A, 10)]);
    let sub_a = router.subscribe(A).unwrap();
    let mut sub_b = router.subscribe(B).unwrap();
    // The drain already removed both registrations; releasing the handle
    // afterwards removes an absent topic, a no-op.
    router.unsubscribe_all();
    router.unsubscribe(sub_a);
    assert!(!router.is_subscribed(&A));
    assert!(!router.is_subscribed(&B));
    assert_eq!(sub_b.poll_next(&mut router), Polled::Closed);
    // The topic is free again.
    assert!(router.subscribe(A).is_ok());
}

#[test]
fn terminated_subscription_stays_terminated() {
    let mut router: Subable<u64, u64> = Subable::new(vec![tagged(A, 10)]);
    let mut sub_a = router.subscribe(A).unwrap();
    router.unsubscribe_all();
    // The deregistered subscription observes termination...
    assert_eq!(sub_a.poll_next(&mut router), Polled::Closed);
    // ...and stays terminated even after its topic is registered again.
    let mut fresh = router.subscribe(A).unwrap();
    assert_eq!(sub_a.poll_next(&mut router), Polled::Closed);
    // The fresh subscription, not the old one, receives the item.
    assert_eq!(
        fresh.poll_next(&mut router),
        Polled::Delivered(Item::Subscribed(Tagged { tag: A, value: 10 }))
    );
}

#[test]
fn exhausted_source_terminates_for_good() {
    let mut router: Subable<u64, u64> = Subable::new(vec![]);
    let mut sub_a = router.subscribe(A).unwrap();
    // Termination through exhaustion is just as permanent, even though the
    // topic stays registered.
    assert_eq!(sub_a.poll_next(&mut router), Polled::Closed);
    assert!(router.is_subscribed(&A));
    assert_eq!(sub_a.poll_next(&mut router), Polled::Closed);
}
