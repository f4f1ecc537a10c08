//! The execution override policy: which task phases the simulation takes over.

use vstd::prelude::*;

verus! {

/// The tasks of the graph.
#[derive(Clone, Copy, Debug, PartialEq, Eq, Structural)]
pub enum TaskId {
    /// Captures raw video from the camera.
    VideoCapture,
    /// Binarises frames and detects markers.
    VisionProcessing,
    /// The flight control loop.
    ControlLoop,
    /// Sends commands to the airframe.
    CommandTransmitter,
    /// Receives telemetry from the airframe.
    TelemetryReceiver,
}

/// The phases of a task's life.
#[derive(Clone, Copy, Debug, PartialEq, Eq, Structural)]
pub enum Phase {
    New,
    Start,
    Preprocess,
    Process,
    Postprocess,
    Stop,
}

/// Who runs a phase.
#[derive(Clone, Copy, Debug, PartialEq, Eq, Structural)]
pub enum OverrideDecision {
    /// The simulation stands in for the task.
    UseSimulation,
    /// The task's own logic runs.
    UseReal,
}

/// Whether a task's own logic talks to physical hardware.
pub open spec fn is_hardware_boundary(task: TaskId) -> bool {
    task is VideoCapture || task is CommandTransmitter || task is TelemetryReceiver
}

/// The policy: the simulation stands in for the tasks at the hardware
/// boundary, in every phase, and for no other task.
pub open spec fn decision_for(task: TaskId, phase: Phase) -> OverrideDecision {
    if is_hardware_boundary(task) {
        OverrideDecision::UseSimulation
    } else {
        OverrideDecision::UseReal
    }
}

/// Tells whether a task's own logic talks to physical hardware.
pub fn talks_to_hardware(task: TaskId) -> (r: bool)
    ensures
        r == is_hardware_boundary(task),
{
    match task {
        TaskId::VideoCapture => true,
        TaskId::CommandTransmitter => true,
        TaskId::TelemetryReceiver => true,
        TaskId::VisionProcessing => false,
        TaskId::ControlLoop => false,
    }
}

/// Decides who runs `phase` of `task`.
pub fn decide(task: TaskId, phase: Phase) -> (r: OverrideDecision)
    ensures
        r == decision_for(task, phase),
{
    if talks_to_hardware(task) {
        OverrideDecision::UseSimulation
    } else {
        OverrideDecision::UseReal
    }
}

} // verus!
