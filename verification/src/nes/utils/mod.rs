//! Frame timing and tracing helpers: a moving average of frame times, frame
//! rate limits, and logs of CPU and PPU cycles.
//!
//! The clock is read through `std::time`; what a reading gives is not
//! claimed, only what the helpers compute from it.

use vstd::prelude::*;
use std::time::{Duration, Instant};

pub mod average_duration;
pub mod frame_limiter;
pub mod trace_logger;
pub mod ppu_trace_logger;

verus! {

pub const MAX_SAMPLES: usize = 100;
pub const US_PER_SEC: u64 = 1000000;

#[verifier::external_type_specification]
#[verifier::external_body]
pub struct ExInstant(std::time::Instant);

/// `std::time::Instant::now`: the time of the call. Nothing is claimed of
/// the value.
#[verifier::external_body]
pub(crate) fn instant_now() -> (r: Instant) {
    Instant::now()
}

/// `std::time::Instant::elapsed`: the time since `start`. Nothing is claimed
/// of the value.
#[verifier::external_body]
pub(crate) fn elapsed_since(start: &Instant) -> (r: Duration) {
    start.elapsed()
}

/// `std::time::Duration::as_micros`: whole microseconds of `d`. `Duration`
/// is opaque here, so nothing is claimed of the value.
#[verifier::external_body]
pub(crate) fn duration_as_micros(d: &Duration) -> (r: u128) {
    d.as_micros()
}

/// The span of `us` microseconds, as `std::time::Duration::from_micros`
/// builds it.
pub uninterp spec fn duration_of_micros(us: u64) -> Duration;

/// The span of `ns` nanoseconds, as `std::time::Duration::from_nanos`
/// builds it.
pub uninterp spec fn duration_of_nanos(ns: u64) -> Duration;

/// `std::time::Duration::from_micros`: the span of `us` microseconds, a
/// function of `us` alone.
#[verifier::external_body]
pub(crate) fn duration_from_micros(us: u64) -> (r: Duration)
    ensures
        r == duration_of_micros(us),
{
    Duration::from_micros(us)
}

/// `std::time::Duration::from_nanos`: the span of `ns` nanoseconds, a
/// function of `ns` alone.
#[verifier::external_body]
pub(crate) fn duration_from_nanos(ns: u64) -> (r: Duration)
    ensures
        r == duration_of_nanos(ns),
{
    Duration::from_nanos(ns)
}

/// The sum of a sequence of samples.
pub open spec fn spec_sum(s: Seq<u64>) -> int
    decreases s.len(),
{
    if s.len() == 0 { 0 } else { spec_sum(s.drop_last()) + s.last() }
}

/// Adding a sample in front adds it to the sum; the sum of `n` samples is
/// at most `n` times the largest `u64`.
pub proof fn lemma_sum_push_front(x: u64, s: Seq<u64>)
    ensures
        spec_sum(seq![x] + s) == x + spec_sum(s),
        0 <= spec_sum(s) <= s.len() * 0xFFFF_FFFF_FFFF_FFFF,
    decreases s.len(),
{
    if s.len() == 0 {
        assert(seq![x] + s =~= seq![x]);
        assert(seq![x].drop_last() =~= Seq::<u64>::empty());
        assert(spec_sum(Seq::<u64>::empty()) == 0);
        assert(spec_sum(seq![x]) == spec_sum(seq![x].drop_last()) + x);
    } else {
        lemma_sum_push_front(x, s.drop_last());
        assert((seq![x] + s).drop_last() =~= seq![x] + s.drop_last());
        assert((seq![x] + s).last() == s.last());
        assert(spec_sum(seq![x] + s) == spec_sum((seq![x] + s).drop_last()) + (seq![x] + s).last());
    }
}

/// `n` zeros add up to zero.
pub proof fn lemma_sum_zeros(n: nat)
    ensures
        spec_sum(Seq::new(n, |i: int| 0u64)) == 0,
    decreases n,
{
    if n > 0 {
        lemma_sum_zeros((n - 1) as nat);
        assert(Seq::new(n, |i: int| 0u64).drop_last() =~= Seq::new((n - 1) as nat, |i: int| 0u64));
    }
}

fn zero_samples(n: usize) -> (r: std::collections::VecDeque<u64>)
    ensures
        r@ == Seq::new(n as nat, |i: int| 0u64),
{
    let mut samples: std::collections::VecDeque<u64> = std::collections::VecDeque::with_capacity(n);
    let mut i: usize = 0;
    while i < n
        invariant
            i <= n,
            samples@ == Seq::new(i as nat, |j: int| 0u64),
        decreases n - i,
    {
        samples.push_front(0);
        assert(seq![0u64] + Seq::new(i as nat, |j: int| 0u64) =~= Seq::new((i + 1) as nat, |j: int| 0u64));
        i = i + 1;
    }
    samples
}

/// The mean of the last 100 frame times, in microseconds.
pub struct AvgDuration {
    samples: std::collections::VecDeque<u64>,
    sample_sum: u128,
    cur_sample: u64,
    now: Instant,
}

impl AvgDuration {
    /// The last 100 samples, newest first.
    pub closed spec fn spec_samples(&self) -> Seq<u64> {
        self.samples@
    }

    /// The newest sample.
    pub closed spec fn spec_current(&self) -> u64 {
        self.cur_sample
    }

    /// 100 samples, and the running sum is their sum.
    pub closed spec fn wf(&self) -> bool {
        &&& self.samples@.len() == MAX_SAMPLES
        &&& self.sample_sum == spec_sum(self.samples@)
    }

    /// 100 zero samples; the clock starts now.
    pub fn new() -> (r: Self)
        ensures
            r.wf(),
            r.spec_samples() == Seq::new(MAX_SAMPLES as nat, |i: int| 0u64),
            r.spec_current() == 0,
    {
        proof {
            lemma_sum_zeros(MAX_SAMPLES as nat);
        }
        AvgDuration {
            samples: zero_samples(MAX_SAMPLES),
            sample_sum: 0,
            cur_sample: 0,
            now: instant_now(),
        }
    }

    /// Starts timing a frame.
    pub fn begin(&mut self)
        requires
            old(self).wf(),
        ensures
            final(self).wf(),
            final(self).spec_samples() == old(self).spec_samples(),
            final(self).spec_current() == old(self).spec_current(),
    {
        self.now = instant_now();
    }

    /// Adds the time since `begin`, in whole microseconds (truncated to 64
    /// bits), as the newest sample; the oldest is dropped.
    pub fn end(&mut self)
        requires
            old(self).wf(),
        ensures
            final(self).wf(),
            final(self).spec_samples() == seq![final(self).spec_current()] + old(self).spec_samples().drop_last(),
    {
        let elapsed = elapsed_since(&self.now);
        let us = duration_as_micros(&elapsed);
        self.record(us as u64);
    }

    /// Adds `sample` (microseconds) as the newest sample and drops the
    /// oldest.
    pub fn record(&mut self, sample: u64)
        requires
            old(self).wf(),
        ensures
            final(self).wf(),
            final(self).spec_current() == sample,
            final(self).spec_samples() == seq![sample] + old(self).spec_samples().drop_last(),
    {
        let ghost s = self.samples@;
        let oldest = match self.samples.pop_back() {
            Some(v) => v,
            None => 0,
        };
        proof {
            lemma_sum_push_front(sample, s.drop_last());
        }
        self.cur_sample = sample;
        self.sample_sum = self.sample_sum - oldest as u128;
        self.sample_sum = self.sample_sum + sample as u128;
        self.samples.push_front(sample);
    }

    /// All samples back to zero; the clock restarts.
    pub fn reset(&mut self)
        requires
            old(self).wf(),
        ensures
            final(self).wf(),
            final(self).spec_samples() == Seq::new(MAX_SAMPLES as nat, |i: int| 0u64),
            final(self).spec_current() == 0,
    {
        proof {
            lemma_sum_zeros(MAX_SAMPLES as nat);
        }
        self.samples = zero_samples(MAX_SAMPLES);
        self.sample_sum = 0;
        self.cur_sample = 0;
        self.now = instant_now();
    }

    /// The mean of the samples, in whole microseconds.
    pub fn average_micros(&self) -> (r: u64)
        requires
            self.wf(),
        ensures
            r == spec_sum(self.spec_samples()) / (MAX_SAMPLES as int),
    {
        proof {
            lemma_sum_push_front(0, self.samples@);
        }
        (self.sample_sum / (MAX_SAMPLES as u128)) as u64
    }

    /// The mean of the samples.
    pub fn get_average_duration(&self) -> (r: Duration)
        requires
            self.wf(),
        ensures
            r == duration_of_micros((spec_sum(self.spec_samples()) / (MAX_SAMPLES as int)) as u64),
    {
        duration_from_micros(self.average_micros())
    }

    /// The newest sample.
    pub fn get_current_duration(&self) -> (r: Duration)
        ensures
            r == duration_of_micros(self.spec_current()),
    {
        duration_from_micros(self.cur_sample)
    }

    /// The newest sample, in microseconds.
    pub fn current_micros(&self) -> (r: u64)
        ensures
            r == self.spec_current(),
    {
        self.cur_sample
    }
}

/// A target frame rate, for a busy-wait at the end of each frame.
#[derive(Debug, Clone, Copy)]
pub struct FrameLimit {
    pub target_fps: u64,
    pub target_frame_us: u64,
}

impl FrameLimit {
    pub fn new(fps: u64) -> (r: Self)
        requires
            fps > 0,
        ensures
            r.target_fps == fps,
            r.target_frame_us == US_PER_SEC / fps,
    {
        FrameLimit { target_fps: fps, target_frame_us: US_PER_SEC / fps }
    }

    /// How long to wait after a frame that took `frame_us` microseconds:
    /// what is left of the frame time, or nothing.
    pub fn remaining_micros(&self, frame_us: u64) -> (r: u64)
        ensures
            r == (if frame_us < self.target_frame_us { (self.target_frame_us - frame_us) as u64 } else { 0 }),
    {
        self.target_frame_us.saturating_sub(frame_us)
    }
}

} // verus!
