//! Verified core of a single-board sensor hub.
//!
//! The hub polls orientation sensors behind an I2C multiplexer and serves the
//! latest readings to one TCP client over a tiny fixed-format binary
//! protocol. This library holds everything with real decisions in it: the
//! protocol codec, the per-cycle polling and calibration-refresh state
//! machine, the one-time bring-up sequence, and the per-request session
//! dispatch. Bus transactions, socket reads and writes, logging and sleeping
//! are capabilities of the surrounding program, which drives the state
//! machines here and performs the actions they hand out.

pub mod array;
pub mod codec;
pub mod delay;
pub mod session;
