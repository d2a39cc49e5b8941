//! Times each candidate over a range of numbers and collects the samples.

use vstd::prelude::*;
use std::time::{Duration, Instant};
use crate::registry::Candidate;

verus! {

/// `std::time::Instant`, a reading of the monotonic clock. Nothing is known
/// of what a value holds.
#[verifier::external_type_specification]
#[verifier::external_body]
pub struct ExInstant(Instant);

/// `Instant::now` reads the clock. Nothing is claimed of the reading.
pub assume_specification[ Instant::now ]() -> (start: Instant)
;

/// `Instant::elapsed` gives the time that has passed since the reading was
/// taken. Nothing is claimed of its length.
pub assume_specification[ Instant::elapsed ](start: &Instant) -> (elapsed: Duration)
;

/// `Duration::as_nanos` gives the whole length of a duration in
/// nanoseconds. Nothing is claimed of the number.
pub assume_specification[ Duration::as_nanos ](elapsed: &Duration) -> (nanos: u128)
;

/// The first number of a sweep, unless another is asked for.
pub const DEFAULT_LOWER_BOUND: u32 = 0;

/// The number at which a sweep stops, unless another is asked for.
pub const DEFAULT_UPPER_BOUND: u32 = 10_000_000;

/// The number of rounds of a run that takes one sample of each candidate.
pub const SINGLE_ROUND: usize = 1;

/// The number of rounds of a run that takes samples to compare.
pub const REPEATED_ROUNDS: usize = 100;

/// The samples of a run: for each candidate, by its place in the list, the
/// times of its rounds in nanoseconds, in the order in which they were
/// taken.
pub struct ResultSet {
    samples: Vec<Vec<u128>>,
}

impl View for ResultSet {
    type V = Seq<Seq<u128>>;

    closed spec fn view(&self) -> Seq<Seq<u128>> {
        Seq::new(self.samples@.len(), |i: int| self.samples@[i]@)
    }
}

/// Whether every candidate of `results` has exactly `rounds` samples.
pub open spec fn is_complete(results: Seq<Seq<u128>>, rounds: nat) -> bool {
    forall|i: int| 0 <= i < results.len() ==> (#[trigger] results[i]).len() == rounds
}

impl ResultSet {
    /// A result set for `candidates` candidates, each without samples.
    pub fn new(candidates: usize) -> (results: ResultSet)
        ensures
            results@ == Seq::new(candidates as nat, |i: int| Seq::<u128>::empty()),
    {
        let mut samples: Vec<Vec<u128>> = Vec::new();
        let mut done: usize = 0;
        while done < candidates
            invariant
                done <= candidates,
                samples@.len() == done,
                forall|i: int| 0 <= i < done ==> (#[trigger] samples@[i])@ == Seq::<u128>::empty(),
            decreases candidates - done,
        {
            samples.push(Vec::new());
            done += 1;
        }
        let results = ResultSet { samples };
        assert(results@ =~= Seq::new(candidates as nat, |i: int| Seq::<u128>::empty()));
        results
    }

    /// The number of candidates.
    pub fn len(&self) -> (n: usize)
        ensures
            n == self@.len(),
    {
        self.samples.len()
    }

    /// The samples of the candidate at `idx`, in the order of the rounds.
    pub fn samples(&self, idx: usize) -> (taken: &Vec<u128>)
        requires
            idx < self@.len(),
        ensures
            taken@ == self@[idx as int],
    {
        &self.samples[idx]
    }

    /// Appends one sample to those of the candidate at `idx`.
    pub fn record(&mut self, idx: usize, sample: u128)
        requires
            idx < old(self)@.len(),
        ensures
            final(self)@ == old(self)@.update(idx as int, old(self)@[idx as int].push(sample)),
    {
        self.samples[idx].push(sample);
        assert(self@ =~= old(self)@.update(idx as int, old(self)@[idx as int].push(sample)));
    }
}

/// How many numbers the range from `lower` up to, but not including,
/// `upper` holds.
pub open spec fn sweep_length(lower: u32, upper: u32) -> nat {
    if lower <= upper {
        (upper - lower) as nat
    } else {
        0
    }
}

/// One sweep: runs the candidate on every number from `lower` up to, but
/// not including, `upper`, in ascending order, and drops what it returns.
/// Gives the number of calls made.
pub fn sweep(candidate: Candidate, lower: u32, upper: u32) -> (calls: u32)
    ensures
        calls == sweep_length(lower, upper),
{
    let mut num: u32 = lower;
    let mut calls: u32 = 0;
    while num < upper
        invariant
            lower <= upper ==> lower <= num <= upper,
            lower > upper ==> num == lower,
            calls == sweep_length(lower, num),
        decreases upper - num,
    {
        let _ = candidate.classify(num);
        num += 1;
        calls += 1;
    }
    calls
}

/// Times one sweep of the candidate, in nanoseconds.
fn time_sweep(candidate: Candidate, lower: u32, upper: u32) -> (sample: u128) {
    let start = Instant::now();
    sweep(candidate, lower, upper);
    let elapsed = start.elapsed();
    elapsed.as_nanos()
}

/// The whole run: for every candidate of the list, in order, `rounds`
/// timed sweeps over the range from `lower` up to, but not including,
/// `upper`. With no rounds, every candidate ends without samples; with an
/// empty list, the result is empty.
pub fn run(list: &Vec<Candidate>, rounds: usize, lower: u32, upper: u32) -> (results: ResultSet)
    ensures
        results@.len() == list@.len(),
        is_complete(results@, rounds as nat),
{
    let mut results = ResultSet::new(list.len());
    let mut idx: usize = 0;
    while idx < list.len()
        invariant
            idx <= list@.len(),
            results@.len() == list@.len(),
            forall|i: int| 0 <= i < idx ==> (#[trigger] results@[i]).len() == rounds,
            forall|i: int| idx <= i < list@.len() ==> (#[trigger] results@[i]).len() == 0,
        decreases list@.len() - idx,
    {
        let candidate = list[idx];
        let mut round: usize = 0;
        while round < rounds
            invariant
                idx < list@.len(),
                round <= rounds,
                results@.len() == list@.len(),
                results@[idx as int].len() == round,
                forall|i: int| 0 <= i < idx ==> (#[trigger] results@[i]).len() == rounds,
                forall|i: int| idx < i < list@.len() ==> (#[trigger] results@[i]).len() == 0,
            decreases rounds - round,
        {
            let sample = time_sweep(candidate, lower, upper);
            results.record(idx, sample);
            round += 1;
        }
        idx += 1;
    }
    results
}

} // verus!
