//! Holds each frame to a fixed rate: the frame time is one second divided
//! by the rate, measured from `start`.

use vstd::prelude::*;
use std::time::{Duration, Instant};
use super::{instant_now, elapsed_since, duration_from_nanos};

verus! {

pub const NANOS_PER_SEC: u64 = 1_000_000_000;

#[derive(Debug)]
pub struct FrameLimiter {
    frame_nanos: u64,
    start_instant: Instant,
}

impl FrameLimiter {
    /// The frame time in nanoseconds.
    pub closed spec fn spec_frame_nanos(&self) -> u64 {
        self.frame_nanos
    }

    pub fn new(fps: u32) -> (r: FrameLimiter)
        requires
            fps > 0,
        ensures
            r.spec_frame_nanos() == NANOS_PER_SEC / (fps as u64),
    {
        let mut f = FrameLimiter { frame_nanos: 0, start_instant: instant_now() };
        f.set_rate(fps);
        f
    }

    /// One second divided by `fps`.
    pub fn set_rate(&mut self, fps: u32)
        requires
            fps > 0,
        ensures
            final(self).spec_frame_nanos() == NANOS_PER_SEC / (fps as u64),
    {
        self.frame_nanos = NANOS_PER_SEC / (fps as u64);
    }

    /// Must be called at the start of a frame, or the frame may run long.
    pub fn start(&mut self)
        ensures
            final(self).spec_frame_nanos() == old(self).spec_frame_nanos(),
    {
        self.start_instant = instant_now();
    }

    /// The frame time in nanoseconds.
    pub fn frame_nanos(&self) -> (r: u64)
        ensures
            r == self.spec_frame_nanos(),
    {
        self.frame_nanos
    }

    /// The frame time.
    pub fn frame_duration(&self) -> (r: Duration)
        ensures
            r == super::duration_of_nanos(self.spec_frame_nanos()),
    {
        duration_from_nanos(self.frame_nanos)
    }

    /// The time since `start`.
    pub fn elapsed(&self) -> (r: Duration) {
        elapsed_since(&self.start_instant)
    }
}

} // verus!
