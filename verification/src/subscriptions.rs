//! The subscription registry: the set of event kinds one plugin instance
//! currently wants pushed to it. `subscribe` unions keys in, `unsubscribe`
//! removes exactly the matching keys; both are idempotent and commutative
//! at the level of the set the registry denotes.

use vstd::prelude::*;
use vstd::seq_lib::lemma_seq_contains_after_push;
use vstd::seq_lib::lemma_seq_take_contains;

use crate::data::EventType;

verus! {

/// The set of event kinds denoted by a sequence of (possibly repeated) keys.
pub open spec fn set_of(s: Seq<EventType>) -> Set<EventType> {
    Set::new(|e: EventType| s.contains(e))
}

/// The event kinds one plugin instance is currently subscribed to.
///
/// The registry denotes a mathematical set: inserting a key twice is the same
/// as inserting it once, and removing an absent key is a no-op.
#[derive(Clone, Debug)]
pub struct Subscriptions {
    items: Vec<EventType>,
}

impl View for Subscriptions {
    type V = Set<EventType>;

    closed spec fn view(&self) -> Set<EventType> {
        set_of(self.items@)
    }
}

impl Subscriptions {
    /// A fresh registry, subscribed to nothing.
    pub fn new() -> (s: Self)
        ensures
            s@ == Set::<EventType>::empty(),
    {
        let s = Subscriptions { items: Vec::new() };
        proof {
            assert(s@ =~= Set::<EventType>::empty());
        }
        s
    }

    /// Whether the registry currently holds the given key.
    pub fn contains(&self, e: EventType) -> (r: bool)
        ensures
            r == self@.contains(e),
    {
        let mut i: usize = 0;
        while i < self.items.len()
            invariant
                i <= self.items.len(),
                forall|j: int| 0 <= j < i ==> self.items@[j] != e,
            decreases self.items.len() - i,
        {
            if self.items[i] == e {
                return true;
            }
            i += 1;
        }
        false
    }

    /// Union the given keys into the subscription set.
    pub fn subscribe(&mut self, events: &Vec<EventType>)
        ensures
            final(self)@ == old(self)@ + set_of(events@),
    {
        let ghost start = self.items@;
        let mut i: usize = 0;
        while i < events.len()
            invariant
                i <= events.len(),
                set_of(self.items@) =~= set_of(start) + set_of(events@.take(i as int)),
            decreases events.len() - i,
        {
            let ghost before = self.items@;
            let e = events[i];
            if !self.contains(e) {
                self.items.push(e);
            }
            proof {
                assert(e == events@[i as int]);
                assert forall|x: EventType|
                    set_of(self.items@).contains(x) == (set_of(start) + set_of(
                        events@.take(i + 1 as int),
                    )).contains(x) by {
                    lemma_seq_take_contains(events@, i as int, x);
                    lemma_seq_take_contains(events@, i + 1 as int, x);
                    lemma_seq_contains_after_push(before, e, x);
                    assert(set_of(before).contains(x) == before.contains(x));
                    assert(set_of(start).contains(x) == start.contains(x));
                    assert(set_of(events@.take(i as int)).contains(x) == events@.take(
                        i as int,
                    ).contains(x));
                    assert(set_of(events@.take(i + 1 as int)).contains(x) == events@.take(
                        i + 1 as int,
                    ).contains(x));
                    assert(self.items@.contains(x) == before.push(e).contains(x) || self.items@
                        == before);
                }
                assert(set_of(self.items@) =~= set_of(start) + set_of(
                    events@.take(i + 1 as int),
                ));
            }
            i += 1;
        }
        proof {
            broadcast use lemma_seq_take_contains;

            assert(events@.take(events@.len() as int) =~= events@);
            assert(final(self)@ =~= old(self)@ + set_of(events@));
        }
    }

    /// Remove exactly the given keys from the subscription set; keys not
    /// present are ignored.
    pub fn unsubscribe(&mut self, events: &Vec<EventType>)
        ensures
            final(self)@ == old(self)@ - set_of(events@),
    {
        let ghost start = self.items@;
        let mut kept: Vec<EventType> = Vec::new();
        let mut i: usize = 0;
        while i < self.items.len()
            invariant
                i <= self.items.len(),
                self.items@ == start,
                set_of(kept@) =~= set_of(start.take(i as int)) - set_of(events@),
            decreases self.items.len() - i,
        {
            let ghost kept_before = kept@;
            let e = self.items[i];
            let mut in_removed = false;
            let mut j: usize = 0;
            while j < events.len()
                invariant
                    j <= events.len(),
                    in_removed == events@.take(j as int).contains(e),
                decreases events.len() - j,
            {
                if events[j] == e {
                    in_removed = true;
                    proof {
                        broadcast use lemma_seq_take_contains;
                    }
                } else {
                    proof {
                        broadcast use lemma_seq_take_contains;
                    }
                }
                j += 1;
            }
            proof {
                assert(events@.take(events@.len() as int) =~= events@);
            }
            if !in_removed {
                kept.push(e);
            }
            proof {
                assert(e == start[i as int]);
                assert forall|x: EventType|
                    set_of(kept@).contains(x) == (set_of(start.take(i + 1 as int)) - set_of(
                        events@,
                    )).contains(x) by {
                    lemma_seq_take_contains(start, i as int, x);
                    lemma_seq_take_contains(start, i + 1 as int, x);
                    lemma_seq_contains_after_push(kept_before, e, x);
                    assert(set_of(kept_before).contains(x) == kept_before.contains(x));
                    assert(set_of(events@).contains(x) == events@.contains(x));
                    assert(set_of(start.take(i as int)).contains(x) == start.take(
                        i as int,
                    ).contains(x));
                    assert(set_of(start.take(i + 1 as int)).contains(x) == start.take(
                        i + 1 as int,
                    ).contains(x));
                    assert(kept@.contains(x) == kept_before.push(e).contains(x) || kept@
                        == kept_before);
                }
                assert(set_of(kept@) =~= set_of(start.take(i + 1 as int)) - set_of(events@));
            }
            i += 1;
        }
        proof {
            assert(start.take(start.len() as int) =~= start);
        }
        self.items = kept;
    }

    /// The current subscription set as a list of keys, each exactly once.
    pub fn current(&self) -> (r: Vec<EventType>)
        ensures
            set_of(r@) == self@,
            forall|i: int, j: int| 0 <= i < j < r@.len() ==> r@[i] != r@[j],
    {
        let mut r: Vec<EventType> = Vec::new();
        let mut i: usize = 0;
        while i < self.items.len()
            invariant
                i <= self.items.len(),
                set_of(r@) =~= set_of(self.items@.take(i as int)),
                forall|a: int, b: int| 0 <= a < b < r@.len() ==> r@[a] != r@[b],
            decreases self.items.len() - i,
        {
            let ghost r_before = r@;
            let e = self.items[i];
            let mut seen = false;
            let mut j: usize = 0;
            while j < r.len()
                invariant
                    j <= r.len(),
                    seen == r@.take(j as int).contains(e),
                decreases r.len() - j,
            {
                if r[j] == e {
                    seen = true;
                    proof {
                        broadcast use lemma_seq_take_contains;
                    }
                } else {
                    proof {
                        broadcast use lemma_seq_take_contains;
                    }
                }
                j += 1;
            }
            proof {
                assert(r@.take(r@.len() as int) =~= r@);
            }
            if !seen {
                r.push(e);
            }
            proof {
                assert(e == self.items@[i as int]);
                assert forall|x: EventType|
                    set_of(r@).contains(x) == set_of(self.items@.take(i + 1 as int)).contains(
                        x,
                    ) by {
                    lemma_seq_take_contains(self.items@, i as int, x);
                    lemma_seq_take_contains(self.items@, i + 1 as int, x);
                    lemma_seq_contains_after_push(r_before, e, x);
                    assert(set_of(r_before).contains(x) == r_before.contains(x));
                    assert(set_of(self.items@.take(i as int)).contains(x) == self.items@.take(
                        i as int,
                    ).contains(x));
                    assert(set_of(self.items@.take(i + 1 as int)).contains(x)
                        == self.items@.take(i + 1 as int).contains(x));
                    assert(r@.contains(x) == r_before.push(e).contains(x) || r@ == r_before);
                }
                assert(set_of(r@) =~= set_of(self.items@.take(i + 1 as int)));
            }
            i += 1;
        }
        proof {
            assert(self.items@.take(self.items@.len() as int) =~= self.items@);
        }
        r
    }
}

/// Law: repeated subscriptions accumulate as a set union. Subscribing `a`
/// then `b` reaches the same set as subscribing their union at once, the
/// same set as subscribing them in the other order, and subscribing the
/// same keys twice changes nothing.
pub proof fn lemma_subscribe_accumulates(s0: Set<EventType>, a: Set<EventType>, b: Set<EventType>)
    ensures
        (s0 + a) + b == s0 + (a + b),
        (s0 + a) + b == (s0 + b) + a,
        (s0 + a) + a == s0 + a,
{
    assert((s0 + a) + b =~= s0 + (a + b));
    assert((s0 + a) + b =~= (s0 + b) + a);
    assert((s0 + a) + a =~= s0 + a);
}

/// Law: subscribing a key set and then unsubscribing it from a previously
/// empty registry leaves the registry empty, and unsubscribing from an empty
/// registry is a no-op.
pub proof fn lemma_unsubscribe_inverts(a: Set<EventType>)
    ensures
        (Set::<EventType>::empty() + a) - a == Set::<EventType>::empty(),
        Set::<EventType>::empty() - a == Set::<EventType>::empty(),
{
    assert((Set::<EventType>::empty() + a) - a =~= Set::<EventType>::empty());
    assert(Set::<EventType>::empty() - a =~= Set::<EventType>::empty());
}

} // verus!
