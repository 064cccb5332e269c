//! Verified core of an ultrasonic ranging module.
//!
//! The library covers the pulse-timing acquisition pipeline: trigger pulse
//! configuration, edge-capture timing with a wrap-safe 16-bit tick delta,
//! conversion of elapsed time to a distance reading, fixed-size batch
//! averaging, serial report formatting, and the step functions of the two
//! cooperative tasks (heartbeat and acquisition). Hardware access — timer
//! capture interrupts, the serial port, the display — is platform I/O and
//! stays outside; callers feed tick counts in and take report bytes out.

pub mod aggregate;
pub mod capture;
pub mod distance;
pub mod heartbeat;
pub mod pipeline;
pub mod report;
pub mod timebase;
pub mod trigger;
