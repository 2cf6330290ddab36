//! Frame-rate measurement over half-second windows.
//!
//! Time is a count of nanoseconds since an origin the caller picks; the
//! caller reads the clock, this module only compares and subtracts.

use vstd::prelude::*;

verus! {

/// Length of a measurement window: half a second.
pub const RATE_WINDOW_NANOS: u64 = 500_000_000;

/// The outcome of one closed window: `frames` frames were drawn in
/// `elapsed_nanos` nanoseconds. The rate to display is their quotient.
#[derive(Clone, Copy, Debug, PartialEq, Eq, Structural)]
pub struct RateReading {
    pub frames: usize,
    pub elapsed_nanos: u64,
}

/// The running measurement: frames drawn since the window opened, and when
/// it opened.
#[derive(Clone, Copy, Debug, PartialEq, Eq, Structural)]
pub struct FrameRateSample {
    pub accumulated_frames: usize,
    pub window_start: u64,
}

impl RateReading {
    /// A reading always spans at least a full window, so the rate is defined.
    pub open spec fn wf(self) -> bool {
        self.elapsed_nanos >= RATE_WINDOW_NANOS
    }
}

impl FrameRateSample {
    /// A fresh window opened at `now` with no frames in it.
    pub open spec fn opened_at(now: u64) -> FrameRateSample {
        FrameRateSample { accumulated_frames: 0, window_start: now }
    }

    /// Time since the window opened; zero if the clock reads earlier than that.
    pub open spec fn elapsed(self, now: u64) -> u64 {
        if now >= self.window_start {
            (now - self.window_start) as u64
        } else {
            0
        }
    }

    /// Whether the window is full at `now`.
    pub open spec fn due(self, now: u64) -> bool {
        self.elapsed(now) >= RATE_WINDOW_NANOS
    }

    /// What a poll at `now` reports.
    pub open spec fn reading(self, now: u64) -> Option<RateReading> {
        if self.due(now) {
            Some(RateReading { frames: self.accumulated_frames, elapsed_nanos: self.elapsed(now) })
        } else {
            None
        }
    }

    /// The sample after a poll at `now`.
    pub open spec fn polled(self, now: u64) -> FrameRateSample {
        if self.due(now) {
            FrameRateSample::opened_at(now)
        } else {
            self
        }
    }

    /// The sample after one more frame. The count stops at `usize::MAX`.
    pub open spec fn counted(self) -> FrameRateSample {
        FrameRateSample {
            accumulated_frames: if self.accumulated_frames == usize::MAX {
                usize::MAX
            } else {
                (self.accumulated_frames + 1) as usize
            },
            window_start: self.window_start,
        }
    }

    /// The sample after `n` more frames.
    pub open spec fn counted_times(self, n: nat) -> FrameRateSample
        decreases n,
    {
        if n == 0 {
            self
        } else {
            self.counted_times((n - 1) as nat).counted()
        }
    }

    /// Opens the first window at `now`.
    pub fn new(now: u64) -> (sample: FrameRateSample)
        ensures
            sample == FrameRateSample::opened_at(now),
    {
        FrameRateSample { accumulated_frames: 0, window_start: now }
    }

    /// Checks the window at `now`. Once half a second or more has passed since
    /// it opened, reports the frames counted and the time they took, and opens
    /// a new, empty window at `now`. Before that, reports nothing and changes
    /// nothing.
    pub fn poll(&mut self, now: u64) -> (reading: Option<RateReading>)
        ensures
            reading == old(self).reading(now),
            *final(self) == old(self).polled(now),
            reading matches Some(r) ==> r.wf(),
    {
        let elapsed: u64 = if now >= self.window_start {
            now - self.window_start
        } else {
            0
        };
        if elapsed >= RATE_WINDOW_NANOS {
            let reading = RateReading { frames: self.accumulated_frames, elapsed_nanos: elapsed };
            self.accumulated_frames = 0;
            self.window_start = now;
            Some(reading)
        } else {
            None
        }
    }

    /// Counts one drawn frame.
    pub fn count_frame(&mut self)
        ensures
            *final(self) == old(self).counted(),
    {
        self.accumulated_frames = self.accumulated_frames.saturating_add(1);
    }
}

/// Counting `n` frames adds `n` to the count, up to the largest count, and
/// leaves the window where it was.
pub proof fn lemma_counted_times(sample: FrameRateSample, n: nat)
    ensures
        sample.counted_times(n).window_start == sample.window_start,
        sample.counted_times(n).accumulated_frames == if sample.accumulated_frames + n
            <= usize::MAX {
            sample.accumulated_frames + n
        } else {
            usize::MAX as int
        },
    decreases n,
{
    if n > 0 {
        lemma_counted_times(sample, (n - 1) as nat);
    }
}

/// A window that saw exactly `k` frames reports `k` frames over the time
/// that passed, and the window that follows starts empty at `now`.
pub proof fn lemma_window_reports_its_frames(start: u64, k: usize, now: u64)
    requires
        now >= start,
        now - start >= RATE_WINDOW_NANOS,
    ensures
        FrameRateSample::opened_at(start).counted_times(k as nat).reading(now) == Some(
            RateReading { frames: k, elapsed_nanos: (now - start) as u64 },
        ),
        FrameRateSample::opened_at(start).counted_times(k as nat).polled(now)
            == FrameRateSample::opened_at(now),
{
    lemma_counted_times(FrameRateSample::opened_at(start), k as nat);
}

/// Before the window is full a poll reports nothing and keeps the count.
pub proof fn lemma_open_window_is_silent(sample: FrameRateSample, now: u64)
    requires
        sample.elapsed(now) < RATE_WINDOW_NANOS,
    ensures
        sample.reading(now) is None,
        sample.polled(now) == sample,
{
}

} // verus!
