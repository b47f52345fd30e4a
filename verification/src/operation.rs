//! Candidate operations and the sets that group them under one key.

use vstd::prelude::*;

verus! {

/// Fingerprint of a problem instance (shapes, element type, backend settings).
/// Two operation sets with the same key share one cached choice.
pub type AutotuneKey = u64;

/// One candidate strategy: a unit of work that runs at most once.
pub trait AutotuneOperation: Sized {
    /// Runs the operation. Taking `self` by value means no instance runs twice.
    fn execute(self);

    /// A name for diagnostics.
    fn name(&self) -> String;

    /// A fresh copy of the operation and of its inputs, ready to run.
    fn clone(&self) -> Self;
}

/// The candidate strategies for one logical operation on one problem.
///
/// The candidates are numbered from 0 in the order of `autotunables`. A set
/// with a given key must number its strategies the same way every time, since
/// a cached index is replayed on later sets with that key.
///
/// The three spec functions say what the methods return. Their defaults leave
/// that open: each is some fixed function of the set, so an implementation only
/// has to answer the same way whenever it is asked about the same set. An
/// implementation that is itself verified overrides them with what it returns.
pub trait AutotuneOperationSet: Sized {
    type Operation: AutotuneOperation;

    /// The key under which the choice for this set is cached.
    open spec fn key_spec(&self) -> AutotuneKey {
        arbitrary::<spec_fn(Self) -> AutotuneKey>()(*self)
    }

    /// How many candidates the set offers.
    open spec fn candidates(&self) -> nat {
        arbitrary::<spec_fn(Self) -> nat>()(*self)
    }

    /// The operation that runs candidate `fastest_index` on the real inputs.
    open spec fn fastest_spec(self, fastest_index: usize) -> Self::Operation {
        arbitrary::<spec_fn(Self, usize) -> Self::Operation>()(self, fastest_index)
    }

    /// The key under which the choice for this set is cached.
    fn key(&self) -> (key: AutotuneKey)
        ensures
            key == self.key_spec(),
    ;

    /// Throwaway instances of every candidate, used only for timing.
    fn autotunables(&self) -> (operations: Vec<Self::Operation>)
        ensures
            operations@.len() == self.candidates(),
    ;

    /// Builds the operation for candidate `fastest_index`, numbered as in `autotunables`.
    fn fastest(self, fastest_index: usize) -> (operation: Self::Operation)
        ensures
            operation == self.fastest_spec(fastest_index),
    ;
}

} // verus!
