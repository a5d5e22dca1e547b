//! A non-negative span of time.
//!
//! A [`Duration`] is kept in canonical form as whole seconds plus a
//! nanosecond remainder below one second.  Its view is its total length
//! in nanoseconds, so every contract over durations is stated over one
//! plain integer.

use vstd::arithmetic::div_mod::lemma_fundamental_div_mod;
use vstd::arithmetic::div_mod::lemma_hoist_over_denominator;
use vstd::prelude::*;

verus! {

/// A non-negative span of time: whole seconds plus a sub-second
/// nanosecond remainder.  The view of a value is its total length in
/// nanoseconds.
#[derive(Clone, Copy, Debug, PartialEq, Eq, Structural)]
pub struct Duration {
    secs: u64,
    nanos: u32,
}

impl View for Duration {
    type V = int;

    closed spec fn view(&self) -> int {
        self.secs * 1_000_000_000 + self.nanos
    }
}

impl Duration {
    /// Canonical form: the nanosecond remainder stays below one second.
    pub closed spec fn wf(&self) -> bool {
        self.nanos < 1_000_000_000
    }

    /// The value a 32-bit register receives when the whole-microsecond
    /// count (truncated toward zero) is cut down to its low 32 bits.
    pub open spec fn micros_low32(&self) -> u32 {
        ((self@ / 1000) % 0x1_0000_0000) as u32
    }

    /// A duration of `secs` whole seconds.
    pub fn from_secs(secs: u64) -> (r: Duration)
        ensures
            r@ == secs * 1_000_000_000,
            r.wf(),
    {
        Duration { secs, nanos: 0 }
    }

    /// A duration of `ms` milliseconds.
    pub fn from_millis(ms: u64) -> (r: Duration)
        ensures
            r@ == ms * 1_000_000,
            r.wf(),
    {
        let secs: u64 = ms / 1000;
        let nanos: u32 = ((ms % 1000) as u32) * 1_000_000;
        proof {
            lemma_fundamental_div_mod(ms as int, 1000);
        }
        Duration { secs, nanos }
    }

    /// A duration of `us` microseconds.
    pub fn from_micros(us: u64) -> (r: Duration)
        ensures
            r@ == us * 1000,
            r.wf(),
    {
        let secs: u64 = us / 1_000_000;
        let nanos: u32 = ((us % 1_000_000) as u32) * 1000;
        proof {
            lemma_fundamental_div_mod(us as int, 1_000_000);
        }
        Duration { secs, nanos }
    }

    /// A duration of `ns` nanoseconds.
    pub fn from_nanos(ns: u64) -> (r: Duration)
        ensures
            r@ == ns,
            r.wf(),
    {
        let secs: u64 = ns / 1_000_000_000;
        let nanos: u32 = (ns % 1_000_000_000) as u32;
        proof {
            lemma_fundamental_div_mod(ns as int, 1_000_000_000);
        }
        Duration { secs, nanos }
    }

    /// Total length in whole microseconds, truncated toward zero.
    pub fn as_micros(&self) -> (r: u128)
        ensures
            r == self@ / 1000,
    {
        let sec_part: u128 = (self.secs as u128) * 1_000_000;
        let sub_part: u128 = (self.nanos / 1000) as u128;
        proof {
            lemma_hoist_over_denominator(
                self.nanos as int,
                self.secs as int * 1_000_000,
                1000nat,
            );
        }
        sec_part + sub_part
    }

    /// The whole-microsecond count truncated to 32 bits, exactly as a
    /// cast of the full count to `u32` would truncate it.
    pub fn micros_as_u32(&self) -> (r: u32)
        ensures
            r == self.micros_low32(),
    {
        (self.as_micros() % 0x1_0000_0000) as u32
    }
}

} // verus!
