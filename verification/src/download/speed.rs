//! Speed sampling and throttling.

use vstd::prelude::*;

verus! {

/// How many samples the rolling window holds: 40 seconds at one sample
/// every two seconds.
pub open spec fn window_len() -> int {
    20
}

/// The sum of a sequence of samples.
pub open spec fn sum_of(samples: Seq<u64>) -> nat
    decreases samples.len(),
{
    if samples.len() == 0 {
        0
    } else {
        sum_of(samples.drop_last()) + samples.last() as nat
    }
}

/// The window after one more sample: the sample joins at the end, and only
/// the latest twenty stay.
pub open spec fn window_after(samples: Seq<u64>, sample: u64) -> Seq<u64> {
    let all = samples.push(sample);
    if all.len() > window_len() {
        all.skip(all.len() - window_len())
    } else {
        all
    }
}

/// The bytes counted in each of the latest sampling intervals.
#[derive(Debug)]
pub struct SpeedWindow {
    pub samples: Vec<u64>,
}

impl SpeedWindow {
    /// A window without samples.
    pub fn new() -> (r: SpeedWindow)
        ensures
            r.samples@.len() == 0,
    {
        SpeedWindow { samples: Vec::new() }
    }

    /// Takes in the bytes counted since the last sample and returns the
    /// rolling sum over the window, capped at the largest number.
    pub fn record(&mut self, sample: u64) -> (speed: u64)
        ensures
            final(self).samples@ == window_after(old(self).samples@, sample),
            final(self).samples@.len() <= window_len(),
            speed as nat == (if sum_of(final(self).samples@) > u64::MAX {
                u64::MAX as nat
            } else {
                sum_of(final(self).samples@)
            }),
    {
        self.samples.push(sample);
        let ghost all = self.samples@;
        proof {
            assert(all.skip(0) =~= all);
        }
        while self.samples.len() > 20
            invariant
                self.samples@.len() <= all.len(),
                self.samples@.len() >= 20 || self.samples@.len() == all.len(),
                self.samples@ == all.skip(all.len() - self.samples@.len()),
            decreases self.samples@.len(),
        {
            let ghost before = self.samples@;
            self.samples.remove(0);
            proof {
                assert(self.samples@ =~= all.skip(all.len() - before.len() + 1));
            }
        }
        let mut total: u64 = 0;
        let mut i: usize = 0;
        while i < self.samples.len()
            invariant
                i <= self.samples@.len(),
                total as nat == (if sum_of(self.samples@.take(i as int)) > u64::MAX {
                    u64::MAX as nat
                } else {
                    sum_of(self.samples@.take(i as int))
                }),
            decreases self.samples@.len() - i,
        {
            proof {
                assert(self.samples@.take(i + 1).drop_last() == self.samples@.take(i as int));
                assert(self.samples@.take(i + 1).last() == self.samples@[i as int]);
            }
            let x = self.samples[i];
            total = if total > u64::MAX - x {
                u64::MAX
            } else {
                total + x
            };
            i += 1;
        }
        proof {
            assert(self.samples@.take(self.samples@.len() as int) == self.samples@);
        }
        total
    }
}

/// Whether a transfer has to pause: a limit above 1024 bytes per second is
/// set, and the current speed is above it.
pub fn should_throttle(current_speed: u64, max_download_speed: u64) -> (r: bool)
    ensures
        r == (current_speed > max_download_speed && max_download_speed > 1024),
{
    current_speed > max_download_speed && max_download_speed > 1024
}

/// For how many milliseconds a throttled transfer pauses before it looks
/// at the speed again.
pub fn throttle_pause_millis() -> (r: u64)
    ensures
        r == 100,
{
    100
}

/// How many milliseconds lie between two speed samples.
pub fn sample_interval_millis() -> (r: u64)
    ensures
        r == 2000,
{
    2000
}

} // verus!
