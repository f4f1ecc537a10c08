//! A fixed-point flight controller for a simulated quadcopter.
//!
//! One cycle of the task graph runs per simulation tick: the cycle clock is
//! set from the physics time, a camera frame is binarised, the marker
//! detections of sufficient confidence are handed to the flight control
//! loop, and the loop answers with an ordered batch of commands.
//!
//! Every real quantity (positions, gains, limits, confidences, voltages) is an
//! integer count of millionths, and every duration is a count of nanoseconds,
//! so that each contract is a statement about integers.

pub mod fixed;
pub mod error;
pub mod messages;
pub mod clock;
pub mod policy;
pub mod threshold;
pub mod vision;
pub mod regulator;
pub mod control;
pub mod msp;
pub mod sink;
pub mod cycle;
