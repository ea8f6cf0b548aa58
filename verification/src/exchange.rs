//! The cyclic exchange engine's decision half: round-trip timing and
//! working-counter validation.
//!
//! The network stack performs the actual send and bounded receive; this
//! module turns its raw results — two monotonic timestamps and the raw
//! working counter — into the session's telemetry and a verdict on the
//! cycle.  It takes no state decisions itself: callers route on the
//! verdict.

use vstd::prelude::*;
use crate::errors::FieldbusError;

verus! {

/// Bounded wait for the return frame of one cyclic exchange, in
/// microseconds: the frame is expected back within one cycle.
pub const RETURN_TIMEOUT_US: u32 = 2_000;

/// Baseline bounded wait for a requested state change to be confirmed, in
/// microseconds.
pub const STATE_TIMEOUT_US: u32 = 2_000_000;

/// A reading of the monotonic clock, split as the network stack reports
/// it.
#[derive(Clone, Copy, PartialEq, Eq, Structural, Debug)]
pub struct Timestamp {
    pub sec: u64,
    pub nanos: u32,
}

impl Timestamp {
    pub open spec fn wf(self) -> bool {
        self.nanos < 1_000_000_000
    }

    pub open spec fn as_nanos(self) -> int {
        self.sec * 1_000_000_000 + self.nanos
    }
}

/// Microseconds between two clock readings, exactly as integer division of
/// the nanosecond difference.
pub open spec fn spec_elapsed_micros(start: Timestamp, end: Timestamp) -> int {
    (end.as_nanos() - start.as_nanos()) / 1000
}

/// Round-trip time of one exchange, in whole microseconds.
pub fn elapsed_micros(start: &Timestamp, end: &Timestamp) -> (r: u32)
    requires
        start.wf(),
        end.wf(),
        start.as_nanos() <= end.as_nanos(),
        spec_elapsed_micros(*start, *end) <= u32::MAX,
    ensures
        r == spec_elapsed_micros(*start, *end),
{
    proof {
        if end.sec < start.sec {
            assert(end.as_nanos() < start.as_nanos());
        }
    }
    let (dsec, dnanos): (u64, u32) = if end.nanos >= start.nanos {
        (end.sec - start.sec, end.nanos - start.nanos)
    } else {
        proof {
            if end.sec == start.sec {
                assert(end.as_nanos() < start.as_nanos());
            }
        }
        (end.sec - start.sec - 1, (1_000_000_000 - start.nanos) + end.nanos)
    };
    assert(dsec * 1_000_000_000 + dnanos == end.as_nanos() - start.as_nanos());
    proof {
        let diff = end.as_nanos() - start.as_nanos();
        assert(dsec as int * 1_000_000 * 1000 == dsec as int * 1_000_000_000)
            by (nonlinear_arith);
        // dnanos / 1000 + dsec * 1_000_000 == (dnanos + dsec * 1_000_000_000) / 1000
        vstd::arithmetic::div_mod::lemma_hoist_over_denominator(
            dnanos as int,
            dsec as int * 1_000_000,
            1000nat,
        );
        // dsec * 1_000_000_000 / 1000 == dsec * 1_000_000
        vstd::arithmetic::div_mod::lemma_hoist_over_denominator(
            0int,
            dsec as int * 1_000_000,
            1000nat,
        );
        vstd::arithmetic::div_mod::lemma_div_of0(1000);
        // the whole difference dominates its seconds part, so the bound on
        // the result bounds dsec as well
        vstd::arithmetic::div_mod::lemma_div_is_ordered(
            dsec as int * 1_000_000_000,
            diff,
            1000,
        );
        assert(dsec as int * 1_000_000 <= u32::MAX);
        vstd::arithmetic::div_mod::lemma_div_nonincreasing(dnanos as int, 1000);
        vstd::arithmetic::div_mod::lemma_div_pos_is_pos(dnanos as int, 1000);
    }
    let micros: u64 = dsec * 1_000_000 + (dnanos / 1000) as u64;
    micros as u32
}

/// Running minimum and maximum round-trip time over the cycles of a
/// session: advisory telemetry for jitter detection, not a correctness
/// gate.
#[derive(Clone, Copy, PartialEq, Eq, Structural, Debug)]
pub struct RoundtripStats {
    /// False until the first cycle is recorded.
    pub recorded: bool,
    pub min_us: u32,
    pub max_us: u32,
}

impl RoundtripStats {
    pub open spec fn wf(self) -> bool {
        self.recorded ==> self.min_us <= self.max_us
    }

    pub fn new() -> (r: RoundtripStats)
        ensures
            r.wf(),
            !r.recorded,
    {
        RoundtripStats { recorded: false, min_us: 0, max_us: 0 }
    }

    /// Fold one cycle's round-trip time into the running extremes.
    pub fn record(&mut self, micros: u32)
        requires
            old(self).wf(),
        ensures
            final(self).wf(),
            final(self).recorded,
            final(self).min_us == if old(self).recorded {
                if micros < old(self).min_us { micros } else { old(self).min_us }
            } else {
                micros
            },
            final(self).max_us == if old(self).recorded {
                if micros > old(self).max_us { micros } else { old(self).max_us }
            } else {
                micros
            },
    {
        if !self.recorded {
            self.recorded = true;
            self.min_us = micros;
            self.max_us = micros;
        } else {
            if micros < self.min_us {
                self.min_us = micros;
            }
            if micros > self.max_us {
                self.max_us = micros;
            }
        }
    }
}

/// Verdict of one cyclic exchange: the raw counter the bounded receive
/// reported, held against the group's expected counter.  A negative raw
/// counter is the stack's "no frame came back" report; a counter below the
/// expected value signals partial frame loss.  Valid if and only if a
/// frame returned and every expected acknowledgment is present.
pub open spec fn spec_classify(raw_wkc: i32, expected: int) -> Result<u32, FieldbusError> {
    if raw_wkc < 0 {
        Err(FieldbusError::ExchangeTimeout)
    } else if (raw_wkc as int) < expected {
        Err(FieldbusError::WkcMismatch)
    } else {
        Ok(raw_wkc as u32)
    }
}

pub fn classify_cycle(raw_wkc: i32, expected: u32) -> (r: Result<u32, FieldbusError>)
    ensures
        r == spec_classify(raw_wkc, expected as int),
{
    if raw_wkc < 0 {
        Err(FieldbusError::ExchangeTimeout)
    } else if (raw_wkc as u32) < expected {
        Err(FieldbusError::WkcMismatch)
    } else {
        Ok(raw_wkc as u32)
    }
}

} // verus!
