use burn_autotune::benchmark::{BenchmarkDurations, Elapsed, NUM_SAMPLES};
use burn_autotune::client::{ComputeChannel, ComputeClient};
use burn_autotune::operation::{AutotuneKey, AutotuneOperation, AutotuneOperationSet};
use burn_autotune::tune_cache::{TuneCache, TuneCacheResult};
use burn_autotune::tuner::{AutotuneError, AutotuneRun, TuneReport, Tuner};
use std::cell::RefCell;
use std::rc::Rc;
use std::time::{Duration, Instant};

type Log = Rc<RefCell<Vec<usize>>>;

fn new_log() -> Log {
    Rc::new(RefCell::new(Vec::new()))
}

/// A channel that counts how often it was asked to synchronize.
#[derive(Clone)]
struct CountingChannel {
    syncs: Rc<RefCell<usize>>,
}

impl ComputeChannel for CountingChannel {
    fn sync(&self) {
        *self.syncs.borrow_mut() += 1;
    }
}

fn counting_client() -> (ComputeClient<CountingChannel>, Rc<RefCell<usize>>) {
    let syncs = Rc::new(RefCell::new(0));
    (ComputeClient::new(CountingChannel { syncs: syncs.clone() }), syncs)
}

/// An operation that writes its index into a log when it runs, after
/// keeping the processor busy for `busy`.
struct Recorded {
    index: usize,
    busy: Duration,
    log: Log,
}

impl AutotuneOperation for Recorded {
    fn execute(self) {
        let start = Instant::now();
        while start.elapsed() < self.busy {}
        self.log.borrow_mut().push(self.index);
    }

    fn name(&self) -> String {
        format!("candidate-{}", self.index)
    }

    fn clone(&self) -> Self {
        Recorded { index: self.index, busy: self.busy, log: self.log.clone() }
    }
}

/// A set whose throwaway candidates write into `timed` and whose real
/// operations write into `executed`.
struct RecordedSet {
    key: AutotuneKey,
    busy: Vec<Duration>,
    timed: Log,
    executed: Log,
}

impl RecordedSet {
    fn new(key: AutotuneKey, candidates: usize, timed: &Log, executed: &Log) -> Self {
        RecordedSet {
            key,
            busy: vec![Duration::ZERO; candidates],
            timed: timed.clone(),
            executed: executed.clone(),
        }
    }
}

impl AutotuneOperationSet for RecordedSet {
    type Operation = Recorded;

    fn key(&self) -> AutotuneKey {
        self.key
    }

    fn autotunables(&self) -> Vec<Recorded> {
        let mut operations = Vec::new();
        for index in 0..self.busy.len() {
            operations.push(Recorded { index, busy: self.busy[index], log: self.timed.clone() });
        }
        operations
    }

    fn fastest(self, fastest_index: usize) -> Recorded {
        Recorded { index: fastest_index, busy: Duration::ZERO, log: self.executed.clone() }
    }
}

/// The chosen index and the report of a call that timed its candidates.
fn timed_report(result: Result<AutotuneRun, AutotuneError>) -> (usize, TuneReport) {
    match result {
        Ok(AutotuneRun { fastest_index, report: Some(report) }) => (fastest_index, report),
        Ok(AutotuneRun { report: None, .. }) => panic!("the call replayed a cached winner"),
        Err(error) => panic!("the call failed: {:?}", error),
    }
}

/// What a call returns that replays candidate `fastest_index` without timing.
fn replay(fastest_index: usize) -> Result<AutotuneRun, AutotuneError> {
    Ok(AutotuneRun { fastest_index, report: None })
}

fn millis(ms: u32) -> Elapsed {
    Elapsed { secs: 0, subsec_nanos: ms * 1_000_000 }
}

/// One result whose only sample, and so whose median, is `ms` milliseconds.
fn result_of(ms: u32) -> BenchmarkDurations {
    BenchmarkDurations::new(vec![millis(ms)]).unwrap()
}

fn results_of(medians: &[u32]) -> Vec<BenchmarkDurations> {
    let mut results = Vec::new();
    for ms in medians {
        results.push(result_of(*ms));
    }
    results
}

#[test]
fn find_fastest_picks_the_smallest_median() {
    let tuner = Tuner::new();
    assert_eq!(tuner.find_fastest(&results_of(&[12, 5, 9])), Ok(1));
    assert_eq!(tuner.find_fastest(&results_of(&[3, 5, 9])), Ok(0));
    assert_eq!(tuner.find_fastest(&results_of(&[12, 5, 2])), Ok(2));
    assert_eq!(tuner.find_fastest(&results_of(&[4])), Ok(0));
}

#[test]
fn find_fastest_breaks_ties_by_lowest_index() {
    let tuner = Tuner::new();
    assert_eq!(tuner.find_fastest(&results_of(&[7, 7, 7])), Ok(0));
    assert_eq!(tuner.find_fastest(&results_of(&[9, 4, 4, 8])), Ok(1));
    assert_eq!(tuner.find_fastest(&results_of(&[9, 4, 8, 4])), Ok(1));
}

#[test]
fn find_fastest_uses_the_median_of_each_result() {
    let tuner = Tuner::new();
    // Medians 9 ms and 6 ms: the second wins although it holds the largest sample.
    let first = BenchmarkDurations::new(vec![millis(1), millis(9), millis(10)]).unwrap();
    let second = BenchmarkDurations::new(vec![millis(50), millis(6), millis(2)]).unwrap();
    assert_eq!(tuner.find_fastest(&vec![first, second]), Ok(1));
}

#[test]
fn find_fastest_accepts_the_longest_durations() {
    let tuner = Tuner::new();
    let longest = Elapsed { secs: u64::MAX, subsec_nanos: 999_999_999 };
    let first = BenchmarkDurations::new(vec![longest]).unwrap();
    let second = BenchmarkDurations::new(vec![longest]).unwrap();
    assert_eq!(tuner.find_fastest(&vec![first, second]), Ok(0));
}

#[test]
fn find_fastest_without_results_fails() {
    let tuner = Tuner::new();
    assert_eq!(tuner.find_fastest(&Vec::new()), Err(AutotuneError::NoCandidates));
}

#[test]
fn stored_winner_is_replayed_without_timing() {
    let (client, syncs) = counting_client();
    let (timed, executed) = (new_log(), new_log());
    let mut tuner = Tuner::new();

    assert_eq!(tuner.store_fastest(42, &results_of(&[12, 5, 9])), Ok(1));

    let set = RecordedSet::new(42, 3, &timed, &executed);
    assert_eq!(tuner.execute_autotune(set, &client), replay(1));
    assert_eq!(*executed.borrow(), vec![1]);
    assert!(timed.borrow().is_empty());
    assert_eq!(*syncs.borrow(), 0);
}

#[test]
fn store_fastest_without_results_stores_nothing() {
    let (client, _) = counting_client();
    let (timed, executed) = (new_log(), new_log());
    let mut tuner = Tuner::new();

    assert_eq!(tuner.store_fastest(42, &Vec::new()), Err(AutotuneError::NoCandidates));

    // The key is still unseen: a call for it times the candidates.
    let set = RecordedSet::new(42, 1, &timed, &executed);
    let (fastest_index, _) = timed_report(tuner.execute_autotune(set, &client));
    assert_eq!(fastest_index, 0);
    assert_eq!(timed.borrow().len(), 1 + NUM_SAMPLES);
}

#[test]
fn store_fastest_replaces_an_earlier_winner() {
    let (client, _) = counting_client();
    let (timed, executed) = (new_log(), new_log());
    let mut tuner = Tuner::new();

    assert_eq!(tuner.store_fastest(42, &results_of(&[12, 5, 9])), Ok(1));
    assert_eq!(tuner.store_fastest(42, &results_of(&[12, 5, 3])), Ok(2));

    let set = RecordedSet::new(42, 3, &timed, &executed);
    assert_eq!(tuner.execute_autotune(set, &client), replay(2));
    assert_eq!(*executed.borrow(), vec![2]);
}

#[test]
fn first_call_times_every_candidate_in_order() {
    let (client, syncs) = counting_client();
    let (timed, executed) = (new_log(), new_log());
    let mut tuner = Tuner::new();

    let set = RecordedSet::new(1, 3, &timed, &executed);
    let (fastest_index, report) = timed_report(tuner.execute_autotune(set, &client));

    // Each candidate runs once to warm up and once per sample, one candidate after the other.
    let runs = 1 + NUM_SAMPLES;
    let mut expected = Vec::new();
    for index in 0..3 {
        for _ in 0..runs {
            expected.push(index);
        }
    }
    assert_eq!(*timed.borrow(), expected);
    // The harness waits once after the warm-up run and twice around each timed run.
    assert_eq!(*syncs.borrow(), 3 * (1 + 2 * NUM_SAMPLES));
    // The winner is then run exactly once.
    assert_eq!(*executed.borrow(), vec![fastest_index]);
    // The report names every candidate and holds the samples of each.
    assert_eq!(report.names, vec!["candidate-0", "candidate-1", "candidate-2"]);
    assert_eq!(report.results.len(), 3);
    for result in report.results.iter() {
        assert_eq!(result.durations().len(), NUM_SAMPLES);
    }
    assert_eq!(tuner.find_fastest(&report.results), Ok(fastest_index));
}

#[test]
fn second_call_with_equal_key_is_a_pure_hit() {
    let (client, syncs) = counting_client();
    let (timed, executed) = (new_log(), new_log());
    let mut tuner = Tuner::new();

    let first = RecordedSet::new(5, 2, &timed, &executed);
    let (winner, _) = timed_report(tuner.execute_autotune(first, &client));
    let timed_after_first = timed.borrow().len();
    let syncs_after_first = *syncs.borrow();
    assert_eq!(timed_after_first, 2 * (1 + NUM_SAMPLES));

    let second = RecordedSet::new(5, 2, &timed, &executed);
    assert_eq!(tuner.execute_autotune(second, &client), replay(winner));
    assert_eq!(timed.borrow().len(), timed_after_first);
    assert_eq!(*syncs.borrow(), syncs_after_first);
    assert_eq!(*executed.borrow(), vec![winner, winner]);
}

#[test]
fn slower_candidate_loses() {
    let (client, _) = counting_client();
    let (timed, executed) = (new_log(), new_log());
    let mut tuner = Tuner::new();

    let mut set = RecordedSet::new(9, 3, &timed, &executed);
    set.busy = vec![Duration::from_millis(4), Duration::ZERO, Duration::from_millis(4)];
    let (fastest_index, report) = timed_report(tuner.execute_autotune(set, &client));
    assert_eq!(fastest_index, 1);
    assert_eq!(*executed.borrow(), vec![1]);
    // Every timed run of a busy candidate took at least as long as it was busy.
    let busy = Elapsed { secs: 0, subsec_nanos: 4_000_000 }.as_nanos();
    assert!(report.results[0].median_duration().as_nanos() >= busy);
    assert!(report.results[2].median_duration().as_nanos() >= busy);
    assert!(report.results[1].median_duration().as_nanos() < busy);
}

#[test]
fn empty_set_is_refused_and_stores_nothing() {
    let (client, syncs) = counting_client();
    let (timed, executed) = (new_log(), new_log());
    let mut tuner = Tuner::new();

    let empty = RecordedSet::new(7, 0, &timed, &executed);
    assert_eq!(tuner.execute_autotune(empty, &client), Err(AutotuneError::NoCandidates));
    assert!(timed.borrow().is_empty());
    assert!(executed.borrow().is_empty());
    assert_eq!(*syncs.borrow(), 0);

    // Nothing was stored for the key: the next set with it is timed.
    let set = RecordedSet::new(7, 2, &timed, &executed);
    let (fastest_index, _) = timed_report(tuner.execute_autotune(set, &client));
    assert_eq!(timed.borrow().len(), 2 * (1 + NUM_SAMPLES));
    assert_eq!(*executed.borrow(), vec![fastest_index]);
}

#[test]
fn empty_set_with_cached_key_replays_the_winner() {
    let (client, _) = counting_client();
    let (timed, executed) = (new_log(), new_log());
    let mut tuner = Tuner::new();

    assert_eq!(tuner.store_fastest(7, &results_of(&[2, 1])), Ok(1));
    let empty = RecordedSet::new(7, 0, &timed, &executed);
    assert_eq!(tuner.execute_autotune(empty, &client), replay(1));
    assert_eq!(*executed.borrow(), vec![1]);
}

#[test]
fn timing_one_key_leaves_another_key_alone() {
    let (client, _) = counting_client();
    let (timed, executed) = (new_log(), new_log());
    let mut tuner = Tuner::new();

    assert_eq!(tuner.store_fastest(1, &results_of(&[12, 5, 9])), Ok(1));
    let (fastest_index, _) =
        timed_report(tuner.execute_autotune(RecordedSet::new(2, 2, &timed, &executed), &client));
    assert_eq!(tuner.execute_autotune(RecordedSet::new(1, 3, &timed, &executed), &client), replay(1));
    assert_eq!(*executed.borrow(), vec![fastest_index, 1]);
}

#[test]
fn different_keys_keep_independent_winners() {
    let (client, _) = counting_client();
    let (timed, executed) = (new_log(), new_log());
    let mut tuner = Tuner::new();

    assert_eq!(tuner.store_fastest(1, &results_of(&[12, 5, 9])), Ok(1));
    assert_eq!(tuner.store_fastest(2, &results_of(&[3, 5, 1])), Ok(2));

    assert_eq!(tuner.execute_autotune(RecordedSet::new(1, 3, &timed, &executed), &client), replay(1));
    assert_eq!(tuner.execute_autotune(RecordedSet::new(2, 3, &timed, &executed), &client), replay(2));
    assert_eq!(tuner.execute_autotune(RecordedSet::new(1, 3, &timed, &executed), &client), replay(1));
    assert_eq!(*executed.borrow(), vec![1, 2, 1]);
    assert!(timed.borrow().is_empty());
}

#[test]
fn default_tuner_has_an_empty_cache() {
    let (client, _) = counting_client();
    let (timed, executed) = (new_log(), new_log());
    let mut tuner = Tuner::default();

    let set = RecordedSet::new(0, 1, &timed, &executed);
    let (fastest_index, _) = timed_report(tuner.execute_autotune(set, &client));
    assert_eq!(fastest_index, 0);
    assert_eq!(timed.borrow().len(), 1 + NUM_SAMPLES);
    assert_eq!(*executed.borrow(), vec![0]);
}

#[test]
fn cache_tells_the_winner_of_a_key() {
    let mut cache = TuneCache::new();
    assert_eq!(cache.fastest_index(3), None);
    cache.cache_insert(3, 1);
    assert_eq!(cache.fastest_index(3), Some(1));
    assert_eq!(cache.fastest_index(4), None);
    cache.cache_insert(3, 0);
    assert_eq!(cache.fastest_index(3), Some(0));
}

#[test]
fn new_cache_misses_and_returns_the_set() {
    let (timed, executed) = (new_log(), new_log());
    let cache = TuneCache::new();
    match cache.try_cache(RecordedSet::new(3, 2, &timed, &executed)) {
        TuneCacheResult::Hit(_) => panic!("an empty cache cannot hit"),
        TuneCacheResult::Miss(set) => {
            assert_eq!(set.key, 3);
            assert_eq!(set.busy.len(), 2);
        },
    }
}

#[test]
fn inserted_key_never_misses() {
    let (timed, executed) = (new_log(), new_log());
    let mut cache = TuneCache::new();
    cache.cache_insert(3, 1);
    match cache.try_cache(RecordedSet::new(3, 2, &timed, &executed)) {
        TuneCacheResult::Hit(operation) => assert_eq!(operation.index, 1),
        TuneCacheResult::Miss(_) => panic!("the key was just inserted"),
    }
    // The index is replayed as stored, whatever the set offers.
    cache.cache_insert(4, 17);
    match cache.try_cache(RecordedSet::new(4, 2, &timed, &executed)) {
        TuneCacheResult::Hit(operation) => assert_eq!(operation.index, 17),
        TuneCacheResult::Miss(_) => panic!("the key was just inserted"),
    }
}

#[test]
fn cache_insert_overwrites() {
    let (timed, executed) = (new_log(), new_log());
    let mut cache = TuneCache::new();
    cache.cache_insert(3, 1);
    cache.cache_insert(3, 0);
    match cache.try_cache(RecordedSet::new(3, 2, &timed, &executed)) {
        TuneCacheResult::Hit(operation) => assert_eq!(operation.index, 0),
        TuneCacheResult::Miss(_) => panic!("the key was just inserted"),
    }
}

#[test]
fn insert_for_one_key_leaves_other_keys_alone() {
    let (timed, executed) = (new_log(), new_log());
    let mut cache = TuneCache::new();
    cache.cache_insert(1, 2);
    assert!(matches!(
        cache.try_cache(RecordedSet::new(2, 3, &timed, &executed)),
        TuneCacheResult::Miss(_)
    ));
    cache.cache_insert(2, 0);
    match cache.try_cache(RecordedSet::new(1, 3, &timed, &executed)) {
        TuneCacheResult::Hit(operation) => assert_eq!(operation.index, 2),
        TuneCacheResult::Miss(_) => panic!("the first key was inserted"),
    }
    match cache.try_cache(RecordedSet::new(2, 3, &timed, &executed)) {
        TuneCacheResult::Hit(operation) => assert_eq!(operation.index, 0),
        TuneCacheResult::Miss(_) => panic!("the second key was inserted"),
    }
}

#[test]
fn lookup_does_not_run_anything() {
    let (timed, executed) = (new_log(), new_log());
    let mut cache = TuneCache::new();
    cache.cache_insert(1, 0);
    let _ = cache.try_cache(RecordedSet::new(1, 1, &timed, &executed));
    assert!(timed.borrow().is_empty());
    assert!(executed.borrow().is_empty());
}
