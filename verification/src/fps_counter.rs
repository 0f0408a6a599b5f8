//! A frame-rate counter that averages over a sliding window of time.
//!
//! The counter reads no clock. Each tick brings the reading of a clock that
//! the caller owns, as a count of whatever unit that clock has; the rate
//! comes back as a count of frames and the time they took, in the same unit,
//! and the caller divides.

use std::collections::VecDeque;
use vstd::prelude::*;

verus! {

/// A rate: so many frames in so much time.
#[derive(Debug, Clone, Copy, PartialEq, Eq, Structural)]
pub struct FrameRate {
    /// The number of frames that were completed.
    pub frames: u64,
    /// The time that they took, in the unit of the clock.
    pub elapsed: u64,
}

/// The predicate that holds of the ticks that are not older than the window
/// at the time `now`.
pub open spec fn in_window(now: u64, window: u64) -> spec_fn(u64) -> bool {
    |tick: u64| tick + window >= now
}

/// The time between the oldest and the newest of the ticks. A clock that
/// went backwards counts as no time at all.
pub open spec fn span(ticks: Seq<u64>) -> u64 {
    if ticks.len() > 0 && ticks.last() >= ticks.first() {
        (ticks.last() - ticks.first()) as u64
    } else {
        0
    }
}

/// What a tick reports for the ticks recorded up to and including it: with
/// fewer than two of them there is no rate; otherwise one frame less than
/// there are ticks, over the time between the oldest and the newest.
pub open spec fn rate_of(recorded: Seq<u64>) -> Option<FrameRate> {
    if recorded.len() < 2 {
        None
    } else {
        Some(FrameRate { frames: (recorded.len() - 1) as u64, elapsed: span(recorded) })
    }
}

/// Counts frames over a sliding window.
#[derive(Debug)]
pub struct AveragingFpsCounter {
    frames: VecDeque<u64>,
    duration: u64,
}

impl AveragingFpsCounter {
    /// The ticks that the counter holds, oldest first.
    pub closed spec fn frames(self) -> Seq<u64> {
        self.frames@
    }

    /// The length of the window.
    pub closed spec fn window(self) -> u64 {
        self.duration
    }

    /// A counter without ticks, for a window of `duration`.
    pub fn new(duration: u64) -> (counter: Self)
        ensures
            counter.frames() == Seq::<u64>::empty(),
            counter.window() == duration,
    {
        Self { frames: VecDeque::new(), duration }
    }

    /// Records a tick at the time `now` and reports the rate over the ticks
    /// recorded so far, this one included. After that the ticks that are
    /// older than the window are dropped; the others stay in their order.
    pub fn tick(&mut self, now: u64) -> (rate: Option<FrameRate>)
        ensures
            rate == rate_of(old(self).frames().push(now)),
            final(self).frames() == old(self).frames().push(now).filter(
                in_window(now, old(self).window()),
            ),
            final(self).window() == old(self).window(),
    {
        let ghost recorded = self.frames@.push(now);
        let ghost keep = in_window(now, self.duration);
        self.frames.push_back(now);
        let earlier: u64 = if now >= self.duration {
            now - self.duration
        } else {
            0
        };
        let num_frames = self.frames.len();
        if num_frames < 2 {
            proof {
                reveal(Seq::filter);
                assert(recorded.drop_last() =~= Seq::<u64>::empty());
                assert(recorded.filter(keep) =~= recorded);
            }
            return None;
        }
        let oldest = self.frames[0];
        let newest = self.frames[num_frames - 1];
        let elapsed: u64 = if newest >= oldest {
            newest - oldest
        } else {
            0
        };
        let rate = FrameRate { frames: (num_frames - 1) as u64, elapsed };

        let mut seen: usize = 0;
        proof {
            reveal(Seq::filter);
            assert(recorded.skip(0) =~= recorded);
            assert(recorded.take(0).filter(keep) =~= Seq::<u64>::empty());
        }
        while seen < num_frames
            invariant
                seen <= num_frames == recorded.len(),
                keep == in_window(now, self.duration),
                earlier == if now >= self.duration {
                    now - self.duration
                } else {
                    0
                },
                self.duration == old(self).duration,
                self.frames@ == recorded.skip(seen as int) + recorded.take(seen as int).filter(
                    keep,
                ),
            decreases num_frames - seen,
        {
            let ghost kept = recorded.take(seen as int).filter(keep);
            let frame = self.frames.pop_front().unwrap();
            assert(frame == recorded[seen as int]);
            if frame >= earlier {
                self.frames.push_back(frame);
            }
            proof {
                reveal(Seq::filter);
                assert(recorded.take(seen + 1).drop_last() =~= recorded.take(seen as int));
                assert(keep(frame) == (frame >= earlier));
                assert(self.frames@ =~= recorded.skip(seen + 1) + recorded.take(seen + 1).filter(
                    keep,
                ));
            }
            seen += 1;
        }
        proof {
            assert(recorded.take(num_frames as int) =~= recorded);
            assert(self.frames@ =~= recorded.filter(keep));
        }
        Some(rate)
    }
}

} // verus!
