//! Decision logic of a motion-telemetry daemon.
//!
//! The daemon samples an inertial measurement unit through the Linux
//! industrial I/O subsystem, removes gravity from the measured acceleration
//! and streams the result to a collector. Everything that decides something
//! lives here and is verified: device selection, channel calibration, the
//! retry policies around the hardware, gravity sign calibration, the bounded
//! sample queue, the batcher and the connection state of the sender. The
//! program around this library performs the input and output and the
//! floating-point arithmetic, and hands plain values in and out.

pub mod config;
pub mod double;
pub mod error;
pub mod fusion;
pub mod iio;
pub mod queue;
pub mod text;
pub mod ws;
pub mod yure;
