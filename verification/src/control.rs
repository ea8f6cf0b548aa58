//! The control loop's decisions: where a finished cycle routes, and when
//! the fixed-period loop keeps running.
//!
//! The loop itself — performing the exchange, sleeping the cycle period,
//! observing an external stop request — belongs to the caller driving the
//! network stack; this module decides, it does not wait.

use vstd::prelude::*;
use crate::errors::FieldbusError;

verus! {

/// Target period of the cyclic loop, microseconds: the only intentional
/// suspension point between ticks.
pub const CYCLE_PERIOD_US: u32 = 5_000;

/// Default number of ticks a session cycles before shutting down, when no
/// stop request arrives earlier.
pub const DEFAULT_TICKS: u32 = 10_000;

/// Where one finished cycle sends the loop next.
#[derive(Clone, Copy, PartialEq, Eq, Structural, Debug)]
pub enum TickRoute {
    /// The frame was valid: hand the input region to the application
    /// layer.
    ExposeInputs,
    /// The frame was missing or short: run the health monitor this cycle
    /// and do not treat the inputs as valid application data.
    RunHealthCheck,
}

/// Route on what a cycle returned.  Any fault — no frame, or a working
/// counter below expected — diverts the cycle to the health monitor.
pub fn route_cycle(verdict: &Result<u32, FieldbusError>) -> (r: TickRoute)
    ensures
        r == TickRoute::RunHealthCheck <==> verdict is Err,
        r == TickRoute::ExposeInputs <==> verdict is Ok,
{
    match verdict {
        Ok(_) => TickRoute::ExposeInputs,
        Err(_) => TickRoute::RunHealthCheck,
    }
}

/// Tick budget and stop flag of the cyclic loop.  A stop request is
/// observed only between ticks, so shutdown always follows a complete
/// frame round.
#[derive(Clone, Copy, PartialEq, Eq, Structural, Debug)]
pub struct ControlLoop {
    pub remaining: u32,
    pub stop_requested: bool,
}

impl ControlLoop {
    pub open spec fn spec_should_run(self) -> bool {
        self.remaining > 0 && !self.stop_requested
    }

    pub fn new(ticks: u32) -> (r: ControlLoop)
        ensures
            r.remaining == ticks,
            !r.stop_requested,
    {
        ControlLoop { remaining: ticks, stop_requested: false }
    }

    /// Record an external stop request; it takes effect at the next tick
    /// boundary.
    pub fn request_stop(&mut self)
        ensures
            final(self).stop_requested,
            final(self).remaining == old(self).remaining,
    {
        self.stop_requested = true;
    }

    /// Claim one tick.  Returns whether the loop runs this tick; when it
    /// does, the budget shrinks by one, and when it does not, the loop is
    /// over for good and shutdown follows.
    pub fn begin_tick(&mut self) -> (run: bool)
        ensures
            run == old(self).spec_should_run(),
            final(self).stop_requested == old(self).stop_requested,
            final(self).remaining == if run {
                (old(self).remaining - 1) as u32
            } else {
                old(self).remaining
            },
    {
        if self.remaining > 0 && !self.stop_requested {
            self.remaining = self.remaining - 1;
            true
        } else {
            false
        }
    }
}

} // verus!
