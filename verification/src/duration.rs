//! A wall-clock duration as whole seconds plus a sub-second nanosecond
//! remainder, the representation every timing contract in this crate is
//! stated over.

use vstd::prelude::*;

verus! {

/// Nanoseconds in one second.
pub const NANOS_PER_SEC: u32 = 1_000_000_000;

/// A non-negative span of time: `secs` whole seconds plus `nanos`
/// nanoseconds, kept normalised so that `nanos < NANOS_PER_SEC`.
#[derive(Copy, Clone, Debug, PartialEq, Eq, Structural)]
pub struct PlayDuration {
    pub secs: u64,
    pub nanos: u32,
}

impl PlayDuration {
    /// The representation is normalised.
    pub open spec fn wf(&self) -> bool {
        self.nanos < NANOS_PER_SEC
    }

    /// The whole span in nanoseconds; the value every contract speaks of.
    pub open spec fn as_nanos(&self) -> int {
        self.secs * (NANOS_PER_SEC as int) + self.nanos
    }

    /// The zero duration.
    pub fn zero() -> (d: PlayDuration)
        ensures
            d.wf(),
            d.as_nanos() == 0,
    {
        PlayDuration { secs: 0, nanos: 0 }
    }

    /// Builds a duration from seconds and nanoseconds, carrying surplus
    /// nanoseconds into the seconds, as a wall-clock duration does.
    pub fn new(secs: u64, nanos: u32) -> (d: PlayDuration)
        requires
            secs + (nanos as int) / (NANOS_PER_SEC as int) <= u64::MAX,
        ensures
            d.wf(),
            d.as_nanos() == secs * (NANOS_PER_SEC as int) + nanos,
    {
        let carry: u64 = (nanos / NANOS_PER_SEC) as u64;
        let rem: u32 = nanos % NANOS_PER_SEC;
        let d = PlayDuration { secs: secs + carry, nanos: rem };
        proof {
            assert(nanos == carry * (NANOS_PER_SEC as int) + rem) by {
                vstd::arithmetic::div_mod::lemma_fundamental_div_mod(
                    nanos as int,
                    NANOS_PER_SEC as int,
                );
            }
        }
        d
    }

    /// The difference of two durations, floored at zero.
    pub fn saturating_sub(&self, other: &PlayDuration) -> (d: PlayDuration)
        requires
            self.wf(),
            other.wf(),
        ensures
            d.wf(),
            d.as_nanos() == if self.as_nanos() >= other.as_nanos() {
                self.as_nanos() - other.as_nanos()
            } else {
                0
            },
    {
        if self.secs > other.secs {
            if self.nanos >= other.nanos {
                PlayDuration { secs: self.secs - other.secs, nanos: self.nanos - other.nanos }
            } else {
                PlayDuration {
                    secs: self.secs - other.secs - 1,
                    nanos: (NANOS_PER_SEC - other.nanos) + self.nanos,
                }
            }
        } else if self.secs == other.secs && self.nanos > other.nanos {
            PlayDuration { secs: 0, nanos: self.nanos - other.nanos }
        } else {
            PlayDuration { secs: 0, nanos: 0 }
        }
    }
}

/// The normalised duration whose total is `n` nanoseconds; the spec-level
/// counterpart of `PlayDuration::new`.
pub open spec fn spec_duration(n: int) -> PlayDuration {
    PlayDuration {
        secs: (n / (NANOS_PER_SEC as int)) as u64,
        nanos: (n % (NANOS_PER_SEC as int)) as u32,
    }
}

/// A well-formed duration is determined by its total nanosecond count.
pub proof fn lemma_duration_unique(d: PlayDuration, n: int)
    requires
        d.wf(),
        d.as_nanos() == n,
    ensures
        d == spec_duration(n),
{
    vstd::arithmetic::div_mod::lemma_fundamental_div_mod_converse(
        n,
        NANOS_PER_SEC as int,
        d.secs as int,
        d.nanos as int,
    );
}

} // verus!
