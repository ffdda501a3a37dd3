//! Binary framing for the manipulator control link of a humanoid robot:
//! the command frame sent to the robot and the telemetry frame it sends back.
//!
//! Every 32-bit float on the wire is carried as its IEEE-754 bit pattern
//! (`u32`), and the 64-bit timestamp as a `u64` bit pattern, so that every
//! value round-trips bit-exactly.
pub mod ctrl;
pub mod error;
pub mod param;
pub mod sens;
pub mod wire;
