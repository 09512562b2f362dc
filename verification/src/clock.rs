//! The monotonic clock, built from the 32-bit cycle counter.
//!
//! At the 80 MHz system clock the raw counter ticks every 12.5 ns and
//! wraps about every 53.7 s. The clock widens it to 64 bits: it keeps the
//! last raw sample and counts completed wraps, so `now` never decreases as
//! long as the counter is sampled at least once per wrap. Reading the
//! hardware counter is the harness's job; this type turns the raw samples
//! into a monotonic time.

use vstd::prelude::*;

verus! {

/// The system clock frequency the init task freezes, in hertz.
pub const SYSCLK_HZ: u32 = 80_000_000;

/// Raw counter ticks per millisecond at the frozen system clock.
pub const TICKS_PER_MS: u32 = 80_000;

/// Period of the raw 32-bit counter.
pub const RAW_PERIOD: u64 = 0x1_0000_0000;

/// Monotonic time source: completed wraps of the raw counter, and the raw
/// value seen at the last sample.
pub struct Monotonic {
    /// How many times the raw counter has wrapped since the clock started.
    pub epochs: u32,
    /// The raw counter value at the most recent sample.
    pub last_raw: u32,
}

impl Monotonic {
    /// The instant of the last sample, in ticks since the clock started.
    pub open spec fn now_spec(&self) -> int {
        self.epochs * RAW_PERIOD + self.last_raw
    }

    /// Start the clock at the current raw counter value.
    pub fn start(raw: u32) -> (clock: Monotonic)
        ensures
            clock.now_spec() == raw,
    {
        Monotonic { epochs: 0, last_raw: raw }
    }

    /// Fold in a fresh raw sample and return the widened instant. A raw
    /// value below the previous one is a wrap, so the epoch advances; the
    /// instant never decreases. The epoch bound asks only what the 64-bit
    /// result forces, and is reached after some seven thousand years.
    pub fn sample(&mut self, raw: u32) -> (now: u64)
        requires
            old(self).epochs < u32::MAX,
        ensures
            now == final(self).now_spec(),
            final(self).now_spec() >= old(self).now_spec(),
            final(self).last_raw == raw,
            raw >= old(self).last_raw ==> final(self).epochs == old(self).epochs,
            raw < old(self).last_raw ==> final(self).epochs == old(self).epochs + 1,
    {
        if raw < self.last_raw {
            self.epochs = self.epochs + 1;
        }
        self.last_raw = raw;
        (self.epochs as u64) * RAW_PERIOD + (raw as u64)
    }

    /// The instant of the last sample, in ticks since the clock started.
    pub fn now(&self) -> (now: u64)
        ensures
            now == self.now_spec(),
    {
        (self.epochs as u64) * RAW_PERIOD + (self.last_raw as u64)
    }
}

/// Ticks of the raw counter in a duration of whole milliseconds: what a
/// "spawn after duration" request arms the timer with.
pub fn ticks_of_millis(ms: u32) -> (ticks: u64)
    ensures
        ticks == ms * TICKS_PER_MS,
{
    proof {
        assert((ms as u64) * (TICKS_PER_MS as u64) <= 0xffff_ffffu64 * 80_000u64)
            by (nonlinear_arith)
            requires
                ms as u64 <= 0xffff_ffffu64,
                TICKS_PER_MS == 80_000u32,
        ;
    }
    (ms as u64) * (TICKS_PER_MS as u64)
}

} // verus!
