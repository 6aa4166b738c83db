//! Simulation: a virtual radio that speaks a protocol, and a virtual
//! amplifier that follows what it is sent.

pub mod radio;
pub mod amplifier;
pub mod amplifier_task;
