//! Tone sequences, which the platform synthesizes. There are no audio files.

use vstd::prelude::*;

use crate::time::{Duration, NANOS_PER_MILLI};

verus! {

/// One note: a pitch held for a time.
#[derive(Clone, Copy, Debug, PartialEq, Eq, Structural, Hash)]
pub struct Tone {
    /// Pitch in hertz.
    pub hz: u16,
    pub duration: Duration,
}

impl Tone {
    /// `hz` held for `ms` milliseconds.
    pub fn new(hz: u16, ms: u64) -> (t: Tone)
        ensures
            t.hz == hz,
            t.duration@ == ms * NANOS_PER_MILLI,
    {
        Tone { hz, duration: Duration::from_millis(ms) }
    }
}

/// How many samples at `rate` per second a tone of `duration` lasts: whole
/// microseconds times the rate, in millionths, rounded down, saturating at
/// `u64::MAX`.
pub open spec fn samples_spec(duration: Duration, rate: u32) -> nat {
    let n = (duration@ / 1_000) * rate as nat / 1_000_000;
    if n > u64::MAX {
        u64::MAX as nat
    } else {
        n
    }
}

impl Tone {
    /// How many samples at `rate` per second this tone lasts.
    pub fn sample_count(&self, rate: u32) -> (n: u64)
        ensures
            n == samples_spec(self.duration, rate),
    {
        let micros = self.duration.as_nanos() / 1_000;
        proof {
            assert(micros * rate as nat <= u128::MAX) by (nonlinear_arith)
                requires
                    micros <= crate::time::max_nanos() / 1_000,
                    rate <= u32::MAX,
            ;
        }
        let n = micros * rate as u128 / 1_000_000;
        if n > u64::MAX as u128 {
            u64::MAX
        } else {
            n as u64
        }
    }
}

/// The timer-finished chime: a quick rising C major arpeggio (G5, C6, E6)
/// that lands on a held top note (G6), bright and a little pleased with
/// itself.
pub fn chime() -> (tones: [Tone; 4])
    ensures
        tones[0].hz == 784 && tones[0].duration@ == 110 * NANOS_PER_MILLI,
        tones[1].hz == 1047 && tones[1].duration@ == 110 * NANOS_PER_MILLI,
        tones[2].hz == 1319 && tones[2].duration@ == 110 * NANOS_PER_MILLI,
        tones[3].hz == 1568 && tones[3].duration@ == 420 * NANOS_PER_MILLI,
{
    [Tone::new(784, 110), Tone::new(1047, 110), Tone::new(1319, 110), Tone::new(1568, 420)]
}

} // verus!
