//! Control plane of an EtherCAT-style fieldbus master.
//!
//! The library models the master's side of the bus: the lifecycle state
//! machine that drives a network of slaves from discovery to OPERATIONAL,
//! the per-cycle working-counter validation, the health monitor that
//! classifies and repairs individual slave faults, and the process image
//! shared between master and slaves.  The raw network stack (frame
//! transmission, state reads and writes on the wire) is an external
//! collaborator: the library emits the operations to perform and consumes
//! their results, so every decision the master takes is verified here.

pub mod state;
pub mod errors;
pub mod image;
pub mod registry;
pub mod group;
pub mod exchange;
pub mod session;
pub mod control;
pub mod health;
pub mod lifecycle;
