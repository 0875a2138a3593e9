//! Telemetry core of an inertial-sensor node.
//!
//! A sampling loop turns sensor readings into an orientation and a
//! spectral magnitude and publishes both as one pair; a periodic report
//! reads the pair and writes it out as a line of text; bytes that arrive on
//! the serial link are answered with a line each. This crate holds the
//! decisions and the bookkeeping of all three: the sample window and the
//! spectral frame, the shared telemetry slot, the state machines of the
//! loop and of the report, and the text of every line. Hardware access and
//! floating-point arithmetic stay with the caller.

pub mod control;
pub mod error;
pub mod extractor;
pub mod input;
pub mod intake;
pub mod report;
pub mod shared;
pub mod spectrum;
pub mod telemetry;
pub mod text;
pub mod window;
