//! The tuner: looks a set up in the cache, times its candidates on a miss,
//! remembers the fastest and runs it.

use crate::benchmark::{BenchmarkDurations, TuneBenchmark, NUM_SAMPLES};
use crate::client::{ComputeChannel, ComputeClient};
use crate::operation::{AutotuneKey, AutotuneOperation, AutotuneOperationSet};
use crate::tune_cache::{TuneCache, TuneCacheResult};
use vstd::prelude::*;

verus! {

/// Why a set could not be tuned.
#[derive(Clone, Copy, Debug, PartialEq, Eq, Structural)]
pub enum AutotuneError {
    /// The set offers no candidate: a usable set has at least one strategy.
    NoCandidates,
}

/// What one timing pass over the candidates of a set measured.
#[derive(Debug, PartialEq, Eq)]
pub struct TuneReport {
    /// The name of each candidate, in candidate order.
    pub names: Vec<String>,
    /// The samples of each candidate, in candidate order.
    pub results: Vec<BenchmarkDurations>,
}

/// What one call for a set did.
#[derive(Debug, PartialEq, Eq)]
pub struct AutotuneRun {
    /// The index of the candidate that was run.
    pub fastest_index: usize,
    /// What was measured, if the candidates had to be timed.
    pub report: Option<TuneReport>,
}

/// The median of each result, in nanoseconds, in the same order.
pub open spec fn medians_of(results: Seq<BenchmarkDurations>) -> Seq<nat> {
    results.map_values(|result: BenchmarkDurations| result.median_nanos())
}

/// `index` is the candidate to choose: its median is the smallest, and among
/// candidates with that median it comes first.
pub open spec fn is_fastest(medians: Seq<nat>, index: int) -> bool {
    &&& 0 <= index < medians.len()
    &&& forall|j: int| 0 <= j < medians.len() ==> medians[index] <= #[trigger] medians[j]
    &&& forall|j: int| 0 <= j < index ==> medians[index] < #[trigger] medians[j]
}

impl TuneReport {
    /// The report is that of a pass over `candidates` candidates: it holds one
    /// name and one result of `NUM_SAMPLES` samples for each.
    pub open spec fn describes(&self, candidates: nat) -> bool {
        &&& self.names@.len() == candidates
        &&& self.results@.len() == candidates
        &&& forall|i: int|
            0 <= i < self.results@.len() ==> (#[trigger] self.results@[i])@.len() == NUM_SAMPLES
    }
}

/// Whether `key` has a winner in `cache`. A call for a cached key replays the
/// winner; only a call for a key that is not cached times the candidates.
pub open spec fn is_cached(cache: Map<AutotuneKey, usize>, key: AutotuneKey) -> bool {
    cache.contains_key(key)
}

/// What one call of `execute_autotune` does, for a set with key `key` and
/// `candidates` candidates: `before` and `after` are the cache around the call
/// and `result` is what the call returned.
pub open spec fn autotune_outcome(
    before: Map<AutotuneKey, usize>,
    key: AutotuneKey,
    candidates: nat,
    after: Map<AutotuneKey, usize>,
    result: Result<AutotuneRun, AutotuneError>,
) -> bool {
    if is_cached(before, key) {
        // A known key is replayed: nothing is timed and nothing is stored.
        &&& result matches Ok(run)
        &&& run.fastest_index == before[key]
        &&& run.report is None
        &&& after == before
    } else if candidates == 0 {
        result == Err::<AutotuneRun, AutotuneError>(AutotuneError::NoCandidates) && after == before
    } else {
        // An unseen key is timed, and the fastest candidate becomes its winner.
        &&& result matches Ok(run)
        &&& run.report matches Some(report)
        &&& report.describes(candidates)
        &&& is_fastest(medians_of(report.results@), run.fastest_index as int)
        &&& after == before.insert(key, run.fastest_index)
    }
}

/// Executes autotune benchmarking and caching.
#[derive(Debug)]
pub struct Tuner {
    tune_cache: TuneCache,
}

impl View for Tuner {
    type V = Map<AutotuneKey, usize>;

    /// The winner recorded for each key seen so far.
    closed spec fn view(&self) -> Map<AutotuneKey, usize> {
        self.tune_cache@
    }
}

impl Default for Tuner {
    fn default() -> (tuner: Self)
        ensures
            tuner@ == Map::<AutotuneKey, usize>::empty(),
    {
        Tuner::new()
    }
}

impl Tuner {
    /// Returns a tuner with empty cache.
    pub fn new() -> (tuner: Self)
        ensures
            tuner@ == Map::<AutotuneKey, usize>::empty(),
    {
        Tuner { tune_cache: TuneCache::new() }
    }

    /// Runs the fastest candidate of `autotune_operation_set` and says which
    /// one it was.
    ///
    /// A key that is already cached is replayed without any timing. An unseen
    /// key has every candidate timed through `client`; the fastest is stored
    /// for the key and run, and what was measured is returned for diagnostics.
    /// A set without candidates is refused and leaves the cache as it was.
    pub fn execute_autotune<S: AutotuneOperationSet, C: ComputeChannel>(
        &mut self,
        autotune_operation_set: S,
        client: &ComputeClient<C>,
    ) -> (result: Result<AutotuneRun, AutotuneError>)
        ensures
            autotune_outcome(
                old(self)@,
                autotune_operation_set.key_spec(),
                autotune_operation_set.candidates(),
                final(self)@,
                result,
            ),
    {
        let cached = self.tune_cache.fastest_index(autotune_operation_set.key());
        let (operation, run) = match self.tune_cache.try_cache(autotune_operation_set) {
            TuneCacheResult::Hit(operation) => match cached {
                Some(fastest_index) => (operation, AutotuneRun { fastest_index, report: None }),
                None => vstd::pervasive::unreached(),
            },
            TuneCacheResult::Miss(set) => match self.autotuning(set, client) {
                Ok((operation, fastest_index, report)) => (
                    operation,
                    AutotuneRun { fastest_index, report: Some(report) },
                ),
                Err(error) => {
                    return Err(error);
                },
            },
        };
        operation.execute();
        Ok(run)
    }

    /// Times every candidate of the set in order, stores the fastest for the
    /// set's key and returns the operation that runs it, with its index and
    /// with what was measured.
    fn autotuning<S: AutotuneOperationSet, C: ComputeChannel>(
        &mut self,
        autotune_operation_set: S,
        client: &ComputeClient<C>,
    ) -> (result: Result<(S::Operation, usize, TuneReport), AutotuneError>)
        ensures
            match result {
                Ok((operation, fastest_index, report)) => {
                    &&& autotune_operation_set.candidates() > 0
                    &&& report.describes(autotune_operation_set.candidates())
                    &&& is_fastest(medians_of(report.results@), fastest_index as int)
                    &&& final(self)@ == old(self)@.insert(
                        autotune_operation_set.key_spec(),
                        fastest_index,
                    )
                    &&& operation == autotune_operation_set.fastest_spec(fastest_index)
                },
                Err(error) => {
                    &&& error == AutotuneError::NoCandidates
                    &&& autotune_operation_set.candidates() == 0
                    &&& final(self)@ == old(self)@
                },
            },
    {
        let key = autotune_operation_set.key();
        let autotunables = autotune_operation_set.autotunables();
        let mut names: Vec<String> = Vec::with_capacity(autotunables.len());
        let mut results: Vec<BenchmarkDurations> = Vec::with_capacity(autotunables.len());

        // Run all autotune benchmarks
        for operation in candidates: autotunables
            invariant
                names@.len() == candidates.index(),
                results@.len() == candidates.index(),
                forall|i: int|
                    0 <= i < results@.len() ==> (#[trigger] results@[i])@.len() == NUM_SAMPLES,
                self@ == old(self)@,
        {
            names.push(operation.name());
            let durations = self.run_benchmark(operation, client);
            results.push(durations);
        }

        // Finds the fastest operation, stores it and returns it
        let fastest_index = match self.store_fastest(key, &results) {
            Ok(index) => index,
            Err(error) => {
                return Err(error);
            },
        };
        match self.tune_cache.try_cache(autotune_operation_set) {
            TuneCacheResult::Hit(operation) => Ok(
                (operation, fastest_index, TuneReport { names, results }),
            ),
            TuneCacheResult::Miss(_) => vstd::pervasive::unreached(),
        }
    }

    /// Times one candidate through a copy of `client`.
    fn run_benchmark<O: AutotuneOperation, C: ComputeChannel>(
        &mut self,
        operation: O,
        client: &ComputeClient<C>,
    ) -> (durations: BenchmarkDurations)
        ensures
            durations@.len() == NUM_SAMPLES,
            final(self)@ == old(self)@,
    {
        TuneBenchmark::new(operation, client.clone()).measure()
    }

    /// The index of the fastest result: the one with the smallest median, and
    /// among equal medians the first. Fails when there is no result.
    pub fn find_fastest(&self, results: &Vec<BenchmarkDurations>) -> (fastest: Result<
        usize,
        AutotuneError,
    >)
        ensures
            match fastest {
                Ok(index) => is_fastest(medians_of(results@), index as int),
                Err(error) => error == AutotuneError::NoCandidates && results@.len() == 0,
            },
    {
        let mut smallest_duration: u128 = 0;
        let mut fastest_tunable: Option<usize> = None;
        let ghost medians = medians_of(results@);

        let mut i: usize = 0;
        while i < results.len()
            invariant
                i <= results@.len(),
                medians == medians_of(results@),
                i == 0 <==> fastest_tunable is None,
                fastest_tunable matches Some(index) ==> {
                    &&& is_fastest(medians.subrange(0, i as int), index as int)
                    &&& smallest_duration == medians[index as int]
                },
            decreases results@.len() - i,
        {
            let duration = results[i].median_duration().as_nanos();
            let faster = match fastest_tunable {
                Some(_) => duration < smallest_duration,
                None => true,
            };
            if faster {
                smallest_duration = duration;
                fastest_tunable = Some(i);
            }
            i += 1;
        }

        match fastest_tunable {
            Some(index) => {
                assert(medians.subrange(0, i as int) == medians);
                Ok(index)
            },
            None => Err(AutotuneError::NoCandidates),
        }
    }

    /// Chooses the fastest of `results`, one result per candidate in candidate
    /// order, and stores its index as the winner for `key`. Without results
    /// nothing is stored.
    pub fn store_fastest(&mut self, key: AutotuneKey, results: &Vec<BenchmarkDurations>) -> (stored:
        Result<usize, AutotuneError>)
        ensures
            match stored {
                Ok(index) => {
                    &&& is_fastest(medians_of(results@), index as int)
                    &&& final(self)@ == old(self)@.insert(key, index)
                },
                Err(error) => {
                    &&& error == AutotuneError::NoCandidates
                    &&& results@.len() == 0
                    &&& final(self)@ == old(self)@
                },
            },
    {
        match self.find_fastest(results) {
            Ok(fastest_index) => {
                self.tune_cache.cache_insert(key, fastest_index);
                Ok(fastest_index)
            },
            Err(error) => Err(error),
        }
    }
}

/// The choice among timed candidates is determined: at most one index is the
/// fastest of given medians, so equal timings always give the same winner.
pub proof fn lemma_fastest_is_unique(medians: Seq<nat>, first: int, second: int)
    requires
        is_fastest(medians, first),
        is_fastest(medians, second),
    ensures
        first == second,
{
    if first < second {
        assert(medians[second] < medians[first]);
    } else if second < first {
        assert(medians[first] < medians[second]);
    }
}

/// Whenever there is a candidate, one of them is the fastest.
pub proof fn lemma_fastest_exists(medians: Seq<nat>)
    requires
        medians.len() > 0,
    ensures
        exists|index: int| is_fastest(medians, index),
    decreases medians.len(),
{
    if medians.len() == 1 {
        assert(is_fastest(medians, 0));
    } else {
        let front = medians.drop_last();
        lemma_fastest_exists(front);
        let best = choose|index: int| is_fastest(front, index);
        let last = medians.len() - 1;
        if medians[last] < medians[best] {
            assert forall|j: int| 0 <= j < medians.len() implies medians[last]
                <= #[trigger] medians[j] by {
                if j < last {
                    assert(front[best] <= front[j]);
                }
            }
            assert forall|j: int| 0 <= j < last implies medians[last] < #[trigger] medians[j] by {
                assert(front[best] <= front[j]);
            }
            assert(is_fastest(medians, last));
        } else {
            assert forall|j: int| 0 <= j < medians.len() implies medians[best]
                <= #[trigger] medians[j] by {
                if j < last {
                    assert(front[best] <= front[j]);
                }
            }
            assert forall|j: int| 0 <= j < best implies medians[best] < #[trigger] medians[j] by {
                assert(front[best] < front[j]);
            }
            assert(is_fastest(medians, best));
        }
    }
}

/// Candidates are timed once per key. After a call for `key` has succeeded,
/// the key is cached, so a second call for the same key, whatever candidates
/// its set offers, is a replay: it runs the candidate that the first call ran,
/// times nothing, reports nothing and leaves the cache as it is.
pub proof fn lemma_second_call_replays(
    before: Tuner,
    between: Tuner,
    after: Tuner,
    key: AutotuneKey,
    first_candidates: nat,
    first: Result<AutotuneRun, AutotuneError>,
    second_candidates: nat,
    second: Result<AutotuneRun, AutotuneError>,
)
    requires
        autotune_outcome(before@, key, first_candidates, between@, first),
        first is Ok,
        autotune_outcome(between@, key, second_candidates, after@, second),
    ensures
        is_cached(between@, key),
        second == Ok::<AutotuneRun, AutotuneError>(
            AutotuneRun { fastest_index: first->Ok_0.fastest_index, report: None },
        ),
        after@ == between@,
{
}

/// Keys are tuned independently: a call for `key` leaves every other key as it
/// was, cached with the same winner or not cached.
pub proof fn lemma_call_keeps_other_keys(
    before: Tuner,
    after: Tuner,
    key: AutotuneKey,
    candidates: nat,
    result: Result<AutotuneRun, AutotuneError>,
    other: AutotuneKey,
)
    requires
        autotune_outcome(before@, key, candidates, after@, result),
        other != key,
    ensures
        is_cached(after@, other) == is_cached(before@, other),
        is_cached(before@, other) ==> after@[other] == before@[other],
{
}

} // verus!
