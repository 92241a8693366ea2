//! The record of message numbers a channel has already accepted.

use crate::nonce::COUNTER_LIMIT;
use std::collections::HashSet;
use vstd::prelude::*;

verus! {

broadcast use vstd::std_specs::hash::group_hash_axioms;

/// A set of message numbers. Numbers that arrive in order are folded into a
/// single lower bound, so a peer that sends in order costs no memory; only
/// numbers that arrive ahead of a gap are held one by one.
pub struct ReplayFilter {
    floor: u128,
    above: HashSet<u128>,
}

impl View for ReplayFilter {
    type V = Set<nat>;

    closed spec fn view(&self) -> Set<nat> {
        Set::new(
            |c: nat| c < self.floor || (c <= u128::MAX && self.above@.contains(c as u128)),
        )
    }
}

impl ReplayFilter {
    /// The filter that has recorded nothing.
    pub fn new() -> (filter: ReplayFilter)
        ensures
            filter@ == Set::<nat>::empty(),
    {
        let filter = ReplayFilter { floor: 0, above: HashSet::new() };
        assert(filter@ =~= Set::<nat>::empty());
        filter
    }

    /// Whether `counter` was recorded.
    pub fn contains(&self, counter: u128) -> (r: bool)
        ensures
            r == self@.contains(counter as nat),
    {
        counter < self.floor || self.above.contains(&counter)
    }

    /// Records `counter`. Recording a number twice changes nothing.
    pub fn insert(&mut self, counter: u128)
        ensures
            final(self)@ == old(self)@.insert(counter as nat),
    {
        if counter >= self.floor {
            self.above.insert(counter);
        }
        assert(self@ =~= old(self)@.insert(counter as nat));
        while self.floor < COUNTER_LIMIT && self.above.contains(&self.floor)
            invariant
                self@ == old(self)@.insert(counter as nat),
            decreases COUNTER_LIMIT - self.floor,
        {
            let ghost before = self@;
            self.above.remove(&self.floor);
            self.floor = self.floor + 1;
            assert(self@ =~= before);
        }
    }
}

} // verus!
