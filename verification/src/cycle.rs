//! One tick of the task graph, from the clock to the sink.
//!
//! The marker detector is not part of this crate, so a tick is made of two
//! calls. [`ExecutionContext::begin_cycle`] sets the clock and prepares the
//! image for the detector; [`ExecutionContext::finish_cycle`] takes what the
//! detector returned, runs the flight control loop and hands the batch to the
//! sink.

use vstd::prelude::*;
use crate::clock::CycleClock;
use crate::control::{
    batch_of,
    cell_voltage_of,
    next_state,
    next_throttle,
    ControlOutput,
    DroneControl,
};
use crate::error::{TaskError, TaskExecutionFailure};
use crate::messages::{Command, Detection, DetectionBatch, TelemetryResponse, TimeOfValidity};
use crate::sink::ActuationSink;
use crate::threshold::thresholded;
use crate::vision::{confident, DetectorOutcome, VisionProcessor};

verus! {

/// The detections that the flight control loop gets to see for a vision step
/// that ended in `vision`, or `None` when the cycle stops there.
///
/// A frame that was too short only costs the cycle its detections. A failed
/// detector, and any other error, stops the cycle.
pub open spec fn detections_for(vision: Result<DetectorOutcome, TaskError>, min_confidence: i64)
    -> Option<Seq<Detection>> {
    match vision {
        Err(TaskError::InvalidFrame) => Some(Seq::empty()),
        Err(_) => None,
        Ok(DetectorOutcome::Failed) => None,
        Ok(DetectorOutcome::Detections(found)) => Some(confident(found@, min_confidence)),
    }
}

/// The error that stops a cycle whose vision step ended in `vision`.
pub open spec fn failure_for(vision: Result<DetectorOutcome, TaskError>) -> TaskError {
    match vision {
        Err(e) => e,
        Ok(_) => TaskError::DetectorFailure,
    }
}

/// Everything one tick needs: the clock, the two tasks that run their own
/// logic, and the sink.
#[derive(Debug)]
pub struct ExecutionContext {
    clock: CycleClock,
    vision: VisionProcessor,
    control: DroneControl,
    sink: ActuationSink,
}

impl ExecutionContext {
    /// The cycle clock.
    pub closed spec fn clock(&self) -> CycleClock {
        self.clock
    }

    /// The vision frame processor.
    pub closed spec fn vision(&self) -> VisionProcessor {
        self.vision
    }

    /// The flight control loop.
    pub closed spec fn control(&self) -> DroneControl {
        self.control
    }

    /// The commands the sink shows.
    pub closed spec fn observed(&self) -> Seq<Command> {
        self.sink.observed()
    }

    /// Both tasks are well-formed.
    pub open spec fn wf(&self) -> bool {
        self.vision().wf() && self.control().wf()
    }

    /// A context around a vision processor and a control loop, with the
    /// clock at zero and an empty sink.
    pub fn new(vision: VisionProcessor, control: DroneControl) -> (r: ExecutionContext)
        requires
            vision.wf(),
            control.wf(),
        ensures
            r.wf(),
            r.clock().now() == 0,
            r.vision() == vision,
            r.control() == control,
            r.observed() == Seq::<Command>::empty(),
    {
        ExecutionContext { clock: CycleClock::new(), vision, control, sink: ActuationSink::new() }
    }

    /// The context of the reference tuning.
    pub fn reference() -> (r: ExecutionContext)
        ensures
            r.wf(),
            r.clock().now() == 0,
            r.control().state() == DroneControl::initial_state(),
            r.control().config() == DroneControl::reference_config_spec(),
            r.control().held_throttle() is None,
            r.observed() == Seq::<Command>::empty(),
    {
        Self::new(VisionProcessor::reference(), DroneControl::new())
    }

    /// Reads the clock.
    pub fn now(&self) -> (r: u64)
        ensures
            r == self.clock().now(),
    {
        self.clock.get_time()
    }

    /// Reads the flight control loop.
    pub fn get_control(&self) -> (r: DroneControl)
        ensures
            r == self.control(),
    {
        self.control
    }

    /// Reads the vision frame processor.
    pub fn get_vision(&self) -> (r: VisionProcessor)
        ensures
            r == self.vision(),
    {
        self.vision
    }

    /// Reads the command at `index` of what the sink shows.
    pub fn observed_command(&self, index: usize) -> (r: Option<Command>)
        ensures
            r == if index < self.observed().len() {
                Some(self.observed()[index as int])
            } else {
                None
            },
    {
        self.sink.get(index)
    }

    /// Starts a tick: sets the clock to `now_ns`, then binarises `frame`.
    ///
    /// The result is the image for the marker detector, or `InvalidFrame`
    /// when the frame is too short. Neither task nor the sink changes.
    pub fn begin_cycle(&mut self, now_ns: u64, frame: &Vec<u8>) -> (r: Result<Vec<u8>, TaskError>)
        requires
            old(self).wf(),
        ensures
            final(self).wf(),
            final(self).clock().now() == now_ns,
            final(self).vision() == old(self).vision(),
            final(self).control() == old(self).control(),
            final(self).observed() == old(self).observed(),
            r is Ok <==> frame.len() >= old(self).vision().width() * old(self).vision().height(),
            r is Err ==> r->Err_0 == TaskError::InvalidFrame,
            r is Ok ==> r->Ok_0@ == thresholded(
                frame@.take(old(self).vision().width() * old(self).vision().height()),
                old(self).vision().width() as int,
                old(self).vision().height() as int,
                old(self).vision().radius() as int,
            ),
    {
        self.clock.set_time(now_ns);
        self.vision.binarize(frame)
    }

    /// Ends a tick with the outcome of its vision step: `Err` with the error
    /// of [`ExecutionContext::begin_cycle`], or `Ok` with what the detector
    /// returned for the image.
    ///
    /// Where [`detections_for`] gives no detections the cycle stops: the
    /// result is the failure, and nothing changes. Otherwise the flight
    /// control loop runs on them, with the clock's time as their time of
    /// validity, and the sink shows the batch that is returned.
    pub fn finish_cycle(
        &mut self,
        vision: &Result<DetectorOutcome, TaskError>,
        telemetry: &Vec<TelemetryResponse>,
    ) -> (r: Result<ControlOutput, TaskExecutionFailure>)
        requires
            old(self).wf(),
        ensures
            final(self).wf(),
            final(self).clock() == old(self).clock(),
            final(self).vision() == old(self).vision(),
            final(self).control().config() == old(self).control().config(),
            r is Err <==> detections_for(*vision, old(self).vision().min_confidence()) is None,
            r is Err ==> {
                &&& r->Err_0.cause == failure_for(*vision)
                &&& final(self).control() == old(self).control()
                &&& final(self).observed() == old(self).observed()
            },
            r is Ok ==> ({
                let seen = detections_for(*vision, old(self).vision().min_confidence())->0;
                let tov = TimeOfValidity::Instant(old(self).clock().now());
                let before = old(self).control();
                &&& final(self).control().state() == next_state(
                    before.config(),
                    before.state(),
                    tov,
                    seen,
                )
                &&& final(self).control().held_throttle() == next_throttle(
                    before.config(),
                    before.state(),
                    before.held_throttle(),
                    tov,
                    seen,
                )
                &&& r->Ok_0.batch@ == batch_of(final(self).control().held_throttle())
                &&& r->Ok_0.batch@.last() == Command::PollBatteryState
                &&& r->Ok_0.cell_voltage == cell_voltage_of(telemetry@)
                &&& final(self).observed() == r->Ok_0.batch@
            }),
    {
        let found: Vec<Detection> = match vision {
            Err(TaskError::InvalidFrame) => Vec::new(),
            Err(e) => {
                return Err(TaskExecutionFailure::new(*e));
            },
            Ok(outcome) => match self.vision.accept(outcome) {
                Err(e) => {
                    return Err(TaskExecutionFailure::new(e));
                },
                Ok(kept) => kept,
            },
        };
        let batch = DetectionBatch {
            tov: TimeOfValidity::Instant(self.clock.get_time()),
            detections: found,
        };
        match self.control.process(telemetry, &batch) {
            Err(e) => Err(e),
            Ok(out) => {
                self.sink.consume(&out.batch);
                Ok(out)
            },
        }
    }
}

} // verus!
