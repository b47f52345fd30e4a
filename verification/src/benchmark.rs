//! Timing samples of one candidate operation and their median.

use crate::client::{ComputeChannel, ComputeClient};
use crate::operation::AutotuneOperation;
use burn_common::benchmark::Benchmark;
use core::time::Duration;
use vstd::prelude::*;

verus! {

/// Nanoseconds in one second.
pub const NANOS_PER_SEC: u32 = 1_000_000_000;

/// A span of wall-clock time, held as whole seconds and the nanoseconds beyond them.
#[derive(Clone, Copy, Debug, PartialEq, Eq, Structural)]
pub struct Elapsed {
    pub secs: u64,
    pub subsec_nanos: u32,
}

impl Elapsed {
    /// The nanosecond part stays below one second.
    pub open spec fn wf(self) -> bool {
        self.subsec_nanos < NANOS_PER_SEC
    }

    /// The whole span in nanoseconds.
    pub open spec fn nanos(self) -> nat {
        (self.secs * NANOS_PER_SEC + self.subsec_nanos) as nat
    }

    /// The whole span in nanoseconds.
    pub fn as_nanos(&self) -> (n: u128)
        ensures
            n == self.nanos(),
    {
        let secs: u128 = self.secs as u128;
        assert(secs * 1_000_000_000 <= 0xffff_ffff_ffff_ffff * 1_000_000_000) by (nonlinear_arith)
            requires
                secs <= 0xffff_ffff_ffff_ffff,
        ;
        secs * 1_000_000_000 + self.subsec_nanos as u128
    }
}

/// The nanosecond values of a run of samples, in the same order.
pub open spec fn nanos_of(samples: Seq<Elapsed>) -> Seq<nat> {
    samples.map_values(|e: Elapsed| e.nanos())
}

/// The values of `s` in ascending order.
pub open spec fn ascending(s: Seq<nat>) -> Seq<nat> {
    s.sort_by(|a: nat, b: nat| a <= b)
}

/// The middle value of `s` once it is put in ascending order; with an even
/// number of values, the upper of the two middle ones.
pub open spec fn median(s: Seq<nat>) -> nat {
    ascending(s)[s.len() as int / 2]
}

/// A run of samples that has a median: it is not empty and every sample is well formed.
pub open spec fn valid_samples(samples: Seq<Elapsed>) -> bool {
    &&& samples.len() > 0
    &&& forall|i: int| 0 <= i < samples.len() ==> (#[trigger] samples[i]).wf()
}

/// The ascending order puts the same values in the same number of places, and
/// no value comes before a smaller one.
pub proof fn lemma_ascending_is_sorted(s: Seq<nat>)
    ensures
        ascending(s).len() == s.len(),
        ascending(s).to_multiset() == s.to_multiset(),
        forall|i: int, j: int| 0 <= i <= j < s.len() ==> ascending(s)[i] <= ascending(s)[j],
        forall|x: nat| ascending(s).contains(x) ==> s.contains(x),
{
    let leq = |a: nat, b: nat| a <= b;
    assert(vstd::relations::total_ordering(leq));
    s.lemma_sort_by_ensures(leq);
    vstd::seq_lib::to_multiset_len(s);
    vstd::seq_lib::to_multiset_len(ascending(s));
    assert forall|i: int, j: int| 0 <= i <= j < s.len() implies ascending(s)[i] <= ascending(
        s,
    )[j] by {
        if i < j {
            assert(leq(ascending(s)[i], ascending(s)[j]));
        }
    }
}

/// There is only one ascending order: a sequence that holds the values of `s`,
/// each as often as `s` does, with no value before a smaller one, is
/// `ascending(s)`. So the median of `s` is found at the middle of any such
/// sequence.
pub proof fn lemma_ascending_is_unique(s: Seq<nat>, sorted: Seq<nat>)
    requires
        sorted.to_multiset() == s.to_multiset(),
        forall|i: int, j: int| 0 <= i <= j < sorted.len() ==> sorted[i] <= sorted[j],
    ensures
        ascending(s) == sorted,
        median(s) == sorted[s.len() as int / 2],
{
    let leq = |a: nat, b: nat| a <= b;
    assert(vstd::relations::total_ordering(leq));
    s.lemma_sort_by_ensures(leq);
    assert(vstd::relations::sorted_by(sorted, leq));
    vstd::seq_lib::lemma_sorted_unique(ascending(s), sorted, leq);
}

/// The median of a run of well-formed samples is the length of one of them.
pub proof fn lemma_median_is_a_sample(samples: Seq<Elapsed>)
    requires
        valid_samples(samples),
    ensures
        exists|i: int|
            0 <= i < samples.len() && (#[trigger] samples[i]).nanos() == median(nanos_of(samples)),
{
    let values = nanos_of(samples);
    lemma_ascending_is_sorted(values);
    let middle = values.len() as int / 2;
    assert(ascending(values).contains(ascending(values)[middle]));
    assert(values.contains(median(values)));
    let i = choose|i: int| 0 <= i < values.len() && values[i] == median(values);
    assert(samples[i].nanos() == median(values));
}

/// Two well-formed spans of the same length in nanoseconds are the same span.
pub proof fn lemma_nanos_determine_elapsed(a: Elapsed, b: Elapsed)
    requires
        a.wf(),
        b.wf(),
        a.nanos() == b.nanos(),
    ensures
        a == b,
{
    assert(a.secs == b.secs) by (nonlinear_arith)
        requires
            a.subsec_nanos < 1_000_000_000,
            b.subsec_nanos < 1_000_000_000,
            a.secs * 1_000_000_000 + a.subsec_nanos == b.secs * 1_000_000_000 + b.subsec_nanos,
    ;
}

/// The median of `durations`, as `burn_common` computes it
/// (`BenchmarkDurations::median_duration`): the samples are sorted in ascending
/// order and the one at position `len / 2` is returned. Each sample goes in as
/// the `Duration` of its seconds and nanoseconds and the result comes back the
/// same way. An empty run is left out because the outside function panics on
/// it, and a sample whose nanoseconds reach a full second because
/// `Duration::new` would carry them over and may overflow.
#[verifier::external_body]
fn median_of(durations: &Vec<Elapsed>) -> (m: Elapsed)
    requires
        valid_samples(durations@),
    ensures
        m.wf(),
        m.nanos() == median(nanos_of(durations@)),
{
    let durations = durations.iter().map(|d| Duration::new(d.secs, d.subsec_nanos)).collect();
    let median = burn_common::benchmark::BenchmarkDurations { durations }.median_duration();
    Elapsed { secs: median.as_secs(), subsec_nanos: median.subsec_nanos() }
}

/// The wall-clock samples measured for one candidate: never empty, every sample well formed.
#[derive(Debug, PartialEq, Eq)]
pub struct BenchmarkDurations {
    durations: Vec<Elapsed>,
}

impl View for BenchmarkDurations {
    type V = Seq<Elapsed>;

    closed spec fn view(&self) -> Seq<Elapsed> {
        self.durations@
    }
}

impl BenchmarkDurations {
    #[verifier::type_invariant]
    spec fn inv(self) -> bool {
        valid_samples(self.durations@)
    }

    /// The median of the samples, in nanoseconds.
    pub open spec fn median_nanos(&self) -> nat {
        median(nanos_of(self@))
    }

    /// Keeps `durations` as the samples of one candidate, in the order given.
    /// Returns `None` when there is no sample or one of them is not well formed.
    pub fn new(durations: Vec<Elapsed>) -> (r: Option<Self>)
        ensures
            r is Some <==> valid_samples(durations@),
            r matches Some(b) ==> b@ == durations@,
    {
        if durations.len() == 0 {
            return None;
        }
        let mut i: usize = 0;
        while i < durations.len()
            invariant
                i <= durations.len(),
                forall|j: int| 0 <= j < i ==> (#[trigger] durations@[j]).wf(),
            decreases durations.len() - i,
        {
            if durations[i].subsec_nanos >= NANOS_PER_SEC {
                return None;
            }
            i += 1;
        }
        Some(BenchmarkDurations { durations })
    }

    /// The samples, in the order they were taken.
    pub fn durations(&self) -> (durations: &Vec<Elapsed>)
        ensures
            durations@ == self@,
    {
        &self.durations
    }

    /// The median sample.
    pub fn median_duration(&self) -> (m: Elapsed)
        ensures
            m.wf(),
            m.nanos() == self.median_nanos(),
            self@.contains(m),
    {
        proof {
            use_type_invariant(self);
        }
        let m = median_of(&self.durations);
        proof {
            lemma_median_is_a_sample(self@);
            let i = choose|i: int|
                0 <= i < self@.len() && (#[trigger] self@[i]).nanos() == m.nanos();
            lemma_nanos_determine_elapsed(self@[i], m);
        }
        m
    }
}

/// How many timed runs make up the samples of one candidate.
pub const NUM_SAMPLES: usize = 10;

/// Times one candidate operation through a client.
pub struct TuneBenchmark<O: AutotuneOperation, C: ComputeChannel> {
    pub operation: O,
    pub client: ComputeClient<C>,
}

impl<O: AutotuneOperation, C: ComputeChannel> Benchmark for TuneBenchmark<O, C> {
    type Args = O;

    /// A fresh copy of the operation, made by the operation's own `clone`.
    fn prepare(&self) -> (operation: O)
        ensures
            call_ensures(O::clone, (&self.operation,), operation),
    {
        self.operation.clone()
    }

    /// Every candidate is timed `NUM_SAMPLES` times.
    fn num_samples(&self) -> (samples: usize)
        ensures
            samples == NUM_SAMPLES,
    {
        NUM_SAMPLES
    }

    fn execute(&self, operation: O) {
        operation.execute();
    }

    /// The harness goes by the same name whatever it times.
    fn name(&self) -> (name: String)
        ensures
            name@ == "Autotune"@,
    {
        "Autotune".to_string()
    }

    fn sync(&self) {
        self.client.sync();
    }
}

impl<O: AutotuneOperation, C: ComputeChannel> TuneBenchmark<O, C> {
    /// A harness that times `operation` and waits for completion through `client`.
    pub fn new(operation: O, client: ComputeClient<C>) -> (benchmark: Self)
        ensures
            benchmark.operation == operation,
            benchmark.client == client,
    {
        TuneBenchmark { operation, client }
    }

    /// Runs the harness with `burn_common` (`Benchmark::run`): one warm-up run,
    /// then `NUM_SAMPLES` runs of a fresh copy of the operation, each timed from
    /// its start until the client has synchronized. The measured durations come
    /// back in the order taken, each as its whole seconds and the nanoseconds
    /// beyond them. What they are depends on the machine, so only their number
    /// and form are stated.
    #[verifier::external_body]
    pub(crate) fn measure(&self) -> (samples: BenchmarkDurations)
        ensures
            samples@.len() == NUM_SAMPLES,
            valid_samples(samples@),
    {
        let measured = Benchmark::run(self);
        let mut durations = Vec::new();
        for d in measured.durations.iter() {
            durations.push(Elapsed { secs: d.as_secs(), subsec_nanos: d.subsec_nanos() });
        }
        BenchmarkDurations { durations }
    }
}

} // verus!
