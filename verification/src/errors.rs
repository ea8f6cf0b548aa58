//! Fault classification for the master session.

use vstd::prelude::*;

verus! {

/// Everything that can go wrong on the master's side of the bus.
///
/// The first four kinds arise during bring-up and are fatal to the session
/// being built: no partially usable session is ever handed out.
/// `ExchangeTimeout` and `WkcMismatch` arise during steady-state cycling
/// and are recoverable: they route the cycle to the health monitor instead
/// of aborting the loop.  `SlaveLost` and `RecoveryFailed` concern a single
/// slave and are retried on every health pass.
#[derive(Clone, Copy, PartialEq, Eq, Structural, Debug)]
pub enum FieldbusError {
    /// No matching network adapter, or the link could not be opened.
    AdapterUnavailable,
    /// The bus scan reported no slaves.
    NoSlavesFound,
    /// The discovered slaves' process data could not be mapped.
    MappingFailure,
    /// The network did not reach OPERATIONAL within the poll budget.
    OperationalTimeout,
    /// A cyclic exchange received no response within its bounded wait.
    ExchangeTimeout,
    /// The received working counter fell below the group's expected value.
    WkcMismatch,
    /// A slave's state read back as absent across repair attempts.
    SlaveLost,
    /// A reconfigure or recover operation did not restore a slave.
    RecoveryFailed,
}

impl FieldbusError {
    /// Errors that abort a bring-up outright: once one of these is
    /// reported, no session exists and none will be produced from this
    /// attempt.
    pub open spec fn spec_is_session_fatal(self) -> bool {
        ||| self is AdapterUnavailable
        ||| self is NoSlavesFound
        ||| self is MappingFailure
        ||| self is OperationalTimeout
    }

    pub fn is_session_fatal(&self) -> (r: bool)
        ensures
            r == self.spec_is_session_fatal(),
    {
        matches!(
            *self,
            FieldbusError::AdapterUnavailable
                | FieldbusError::NoSlavesFound
                | FieldbusError::MappingFailure
                | FieldbusError::OperationalTimeout
        )
    }

    /// A short stable label for reporting; the library defines no display
    /// machinery of its own.
    pub fn label(&self) -> &'static str {
        match *self {
            FieldbusError::AdapterUnavailable => "adapter unavailable",
            FieldbusError::NoSlavesFound => "no slaves found",
            FieldbusError::MappingFailure => "mapping failure",
            FieldbusError::OperationalTimeout => "operational timeout",
            FieldbusError::ExchangeTimeout => "exchange timeout",
            FieldbusError::WkcMismatch => "working counter mismatch",
            FieldbusError::SlaveLost => "slave lost",
            FieldbusError::RecoveryFailed => "recovery failed",
        }
    }
}

} // verus!
