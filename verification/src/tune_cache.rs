//! The store of winning candidates, one index per key.

use crate::operation::{AutotuneKey, AutotuneOperationSet};
use std::collections::HashMap;
use vstd::prelude::*;

verus! {

broadcast use vstd::std_specs::hash::group_hash_axioms;

/// What a lookup found.
pub enum TuneCacheResult<S: AutotuneOperationSet> {
    /// The key has a winner: here is the operation that runs it.
    Hit(S::Operation),
    /// The key is unknown: the set comes back untouched.
    Miss(S),
}

/// Maps each key seen so far to the index of its fastest candidate.
#[derive(Debug)]
pub struct TuneCache {
    cache: HashMap<AutotuneKey, usize>,
}

impl View for TuneCache {
    type V = Map<AutotuneKey, usize>;

    closed spec fn view(&self) -> Map<AutotuneKey, usize> {
        self.cache@
    }
}

impl TuneCache {
    /// Whether a lookup for `key` finds a winner.
    pub open spec fn is_hit(&self, key: AutotuneKey) -> bool {
        self@.contains_key(key)
    }

    /// The winning index recorded for `key`.
    pub open spec fn winner(&self, key: AutotuneKey) -> usize
        recommends
            self.is_hit(key),
    {
        self@[key]
    }

    /// An empty cache.
    pub fn new() -> (cache: Self)
        ensures
            cache@ == Map::<AutotuneKey, usize>::empty(),
    {
        TuneCache { cache: HashMap::new() }
    }

    /// The winning index recorded for `key`, if there is one.
    pub fn fastest_index(&self, key: AutotuneKey) -> (index: Option<usize>)
        ensures
            index == if self.is_hit(key) {
                Some(self.winner(key))
            } else {
                None
            },
    {
        match self.cache.get(&key) {
            Some(index) => Some(*index),
            None => None,
        }
    }

    /// Looks up the key of `autotune_operation_set`. On a hit the set is used up
    /// to build the operation of the winning candidate; on a miss it is returned.
    pub fn try_cache<S: AutotuneOperationSet>(&self, autotune_operation_set: S) -> (result:
        TuneCacheResult<S>)
        ensures
            match result {
                TuneCacheResult::Hit(operation) => {
                    &&& self.is_hit(autotune_operation_set.key_spec())
                    &&& operation == autotune_operation_set.fastest_spec(
                        self.winner(autotune_operation_set.key_spec()),
                    )
                },
                TuneCacheResult::Miss(set) => {
                    &&& !self.is_hit(autotune_operation_set.key_spec())
                    &&& set == autotune_operation_set
                },
            },
    {
        let key = autotune_operation_set.key();
        match self.cache.get(&key) {
            Some(index) => TuneCacheResult::Hit(autotune_operation_set.fastest(*index)),
            None => TuneCacheResult::Miss(autotune_operation_set),
        }
    }

    /// Records `fastest_index` as the winner for `key`, replacing an earlier one.
    pub fn cache_insert(&mut self, key: AutotuneKey, fastest_index: usize)
        ensures
            final(self)@ == old(self)@.insert(key, fastest_index),
    {
        self.cache.insert(key, fastest_index);
    }
}

/// A key that has just been inserted is found. If `after` is `before` with
/// `index` inserted for `key`, a lookup in `after` for any set with that key is
/// a hit, never a miss, and it replays `index`.
pub proof fn lemma_inserted_key_hits<S: AutotuneOperationSet>(
    before: TuneCache,
    after: TuneCache,
    key: AutotuneKey,
    index: usize,
    set: S,
)
    requires
        after@ == before@.insert(key, index),
        set.key_spec() == key,
    ensures
        after.is_hit(set.key_spec()),
        after.winner(set.key_spec()) == index,
{
}

/// Keys do not interfere. If `after` is `before` with `index` inserted for
/// `key`, the lookup of every other key is as it was: a hit stays a hit with
/// the same winner, a miss stays a miss.
pub proof fn lemma_insert_keeps_other_keys(
    before: TuneCache,
    after: TuneCache,
    key: AutotuneKey,
    index: usize,
    other: AutotuneKey,
)
    requires
        after@ == before@.insert(key, index),
        other != key,
    ensures
        after.is_hit(other) == before.is_hit(other),
        before.is_hit(other) ==> after.winner(other) == before.winner(other),
{
}

} // verus!
