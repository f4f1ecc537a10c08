//! The values that travel between the tasks of one cycle.

use vstd::prelude::*;

verus! {

/// Where and how a marker sits relative to the camera, in millionths.
#[derive(Clone, Copy, Debug, PartialEq, Eq)]
pub struct Pose {
    /// Translation along the camera's x axis.
    pub x: i32,
    /// Translation along the camera's y axis: the lateral offset that the
    /// flight control loop regulates.
    pub y: i32,
    /// Translation along the camera's z axis.
    pub z: i32,
    /// Rotation matrix, row by row.
    pub rotation: [i32; 9],
}

/// One marker found in a frame.
#[derive(Clone, Copy, Debug, PartialEq, Eq)]
pub struct Detection {
    /// The marker's identity within its tag family.
    pub id: u64,
    /// The marker's estimated pose.
    pub pose: Pose,
    /// The detector's decision margin, in millionths.
    pub confidence: i64,
}

/// The time at which a sample was valid, on the cycle clock.
#[derive(Clone, Copy, Debug, PartialEq, Eq, Structural)]
pub enum TimeOfValidity {
    /// No time was recorded.
    Unset,
    /// A single instant, in nanoseconds.
    Instant(u64),
    /// A span between two instants, in nanoseconds.
    Range(u64, u64),
}

/// The detections of one frame with their common time of validity.
#[derive(Clone, Debug)]
pub struct DetectionBatch {
    pub tov: TimeOfValidity,
    pub detections: Vec<Detection>,
}

/// One response received from the airframe.
#[derive(Clone, Copy, Debug, PartialEq, Eq, Structural)]
pub enum TelemetryResponse {
    /// The battery's total voltage and its number of cells.
    BatteryState { total_voltage: u16, cell_count: u8 },
    /// Any response the flight control loop has no use for.
    Other,
}

/// One request sent to the airframe.
#[derive(Clone, Copy, Debug, PartialEq, Eq, Structural)]
pub enum Command {
    /// Set the throttle channel to this raw value.
    SetThrottle(u16),
    /// Ask for the battery state.
    PollBatteryState,
}

} // verus!
