//! Verified core of a firmware-flashing driver for Infineon AURIX targets.
//!
//! The library renders the two input artifacts that the vendor's command-line
//! flasher consumes — a device configuration parameterized by a DAS port
//! selector, and a batch script parameterized by the run mode and the firmware
//! path — and models the start/wait lifecycle of a flashing session, including
//! the rule that the temporary workspace is released only after the session
//! has ended.  Actual filesystem writes and the process spawn live outside the
//! library, which hands them exact byte contents, paths and an argument
//! vector.

pub mod batch;
pub mod config;
pub mod session;
