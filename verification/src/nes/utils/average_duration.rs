//! A moving average over the last 60 durations (a second of frames at
//! 60 Hz), kept in nanoseconds.

use vstd::prelude::*;
use super::spec_sum;

verus! {

/// A typical frame rate averages over one second.
pub const SAMPLE_SIZE: usize = 60;

/// The sum of `s` with entry `i` replaced by `v`.
proof fn lemma_sum_update(s: Seq<u64>, i: int, v: u64)
    requires
        0 <= i < s.len(),
    ensures
        spec_sum(s.update(i, v)) == spec_sum(s) - s[i] + v,
    decreases s.len(),
{
    if i == s.len() - 1 {
        assert(s.update(i, v).drop_last() =~= s.drop_last());
    } else {
        lemma_sum_update(s.drop_last(), i, v);
        assert(s.update(i, v).drop_last() =~= s.drop_last().update(i, v));
    }
}

/// An entry is at most the sum; the sum is at most `len` times the largest
/// `u64`.
proof fn lemma_sum_bounds(s: Seq<u64>, i: int)
    requires
        0 <= i < s.len(),
    ensures
        s[i] <= spec_sum(s) <= s.len() * 0xFFFF_FFFF_FFFF_FFFF,
    decreases s.len(),
{
    super::lemma_sum_push_front(0, s);
    super::lemma_sum_push_front(0, s.drop_last());
    if i < s.len() - 1 {
        lemma_sum_bounds(s.drop_last(), i);
        assert(s.drop_last()[i] == s[i]);
    }
}

fn zero_durations() -> (r: Vec<u64>)
    ensures
        r@ == Seq::new(SAMPLE_SIZE as nat, |i: int| 0u64),
{
    let mut v: Vec<u64> = Vec::new();
    while v.len() < SAMPLE_SIZE
        invariant
            v.len() <= SAMPLE_SIZE,
            v@ == Seq::new(v.len() as nat, |i: int| 0u64),
        decreases SAMPLE_SIZE - v.len(),
    {
        v.push(0);
        assert(v@ =~= Seq::new(v.len() as nat, |i: int| 0u64));
    }
    v
}

/// The mean of the last 60 durations given to `update`, in nanoseconds.
#[derive(Debug)]
pub struct AverageDuration {
    samples: Vec<u64>,
    sample_sum: u128,
    cur_index: usize,
}

impl AverageDuration {
    /// The 60 sample slots; `update` overwrites them in turn.
    pub closed spec fn spec_samples(&self) -> Seq<u64> {
        self.samples@
    }

    /// The running sum.
    pub closed spec fn spec_sum(&self) -> int {
        self.sample_sum as int
    }

    /// The slot the next sample goes to.
    pub closed spec fn spec_index(&self) -> int {
        self.cur_index as int
    }

    /// 60 slots, the index in range, and the running sum at least the sum of
    /// the slots (equal to it unless `reset` cleared the slots).
    pub closed spec fn wf(&self) -> bool {
        &&& self.samples@.len() == SAMPLE_SIZE
        &&& self.cur_index < SAMPLE_SIZE
        &&& self.sample_sum >= spec_sum(self.samples@)
    }

    pub fn new() -> (r: AverageDuration)
        ensures
            r.wf(),
            r.spec_samples() == Seq::new(SAMPLE_SIZE as nat, |i: int| 0u64),
            r.spec_sum() == 0,
            r.spec_index() == 0,
    {
        proof {
            super::lemma_sum_zeros(SAMPLE_SIZE as nat);
        }
        AverageDuration { samples: zero_durations(), sample_sum: 0, cur_index: 0 }
    }

    /// Clears the 60 slots; the running sum and the index stay as they are.
    pub fn reset(&mut self)
        requires
            old(self).wf(),
        ensures
            final(self).wf(),
            final(self).spec_samples() == Seq::new(SAMPLE_SIZE as nat, |i: int| 0u64),
            final(self).spec_sum() == old(self).spec_sum(),
            final(self).spec_index() == old(self).spec_index(),
    {
        proof {
            super::lemma_sum_zeros(SAMPLE_SIZE as nat);
            lemma_sum_bounds(self.samples@, 0);
        }
        self.samples = zero_durations();
    }

    /// Whether `update(duration)` keeps the running sum within range.
    pub fn can_update(&self, duration: u64) -> (r: bool)
        requires
            self.wf(),
        ensures
            r == (self.spec_sum() - self.spec_samples()[self.spec_index()] + duration <= u128::MAX),
    {
        let i = self.cur_index;
        proof {
            lemma_sum_bounds(self.samples@, i as int);
        }
        let rest = self.sample_sum - self.samples[i] as u128;
        rest <= u128::MAX - duration as u128
    }

    /// Replaces the oldest slot by `duration` (nanoseconds) and moves on.
    pub fn update(&mut self, duration: u64)
        requires
            old(self).wf(),
            old(self).spec_sum() - old(self).spec_samples()[old(self).spec_index()] + duration <= u128::MAX,
        ensures
            final(self).wf(),
            final(self).spec_samples() == old(self).spec_samples().update(old(self).spec_index(), duration),
            final(self).spec_sum() == old(self).spec_sum() - old(self).spec_samples()[old(self).spec_index()] + duration,
            final(self).spec_index() == (old(self).spec_index() + 1) % (SAMPLE_SIZE as int),
    {
        let i = self.cur_index;
        proof {
            lemma_sum_bounds(self.samples@, i as int);
            lemma_sum_update(self.samples@, i as int, duration);
        }
        self.sample_sum = self.sample_sum - self.samples[i] as u128;
        self.samples.set(i, duration);
        self.sample_sum = self.sample_sum + duration as u128;
        self.cur_index = (self.cur_index + 1) % SAMPLE_SIZE;
    }

    /// The running sum over 60, in whole nanoseconds.
    pub fn get_average_duration(&self) -> (r: u128)
        ensures
            r == self.spec_sum() / (SAMPLE_SIZE as int),
    {
        self.sample_sum / (SAMPLE_SIZE as u128)
    }
}

} // verus!
