use flight_control::clock::CycleClock;
use flight_control::control::{ControlState, DroneControl};
use flight_control::cycle::ExecutionContext;
use flight_control::error::{TaskError, TaskExecutionFailure};
use flight_control::messages::{Command, Detection, Pose, TelemetryResponse};
use flight_control::policy::{decide, talks_to_hardware, OverrideDecision, Phase, TaskId};
use flight_control::sink::ActuationSink;
use flight_control::vision::{DetectorOutcome, VisionProcessor, FRAME_HEIGHT, FRAME_WIDTH};

const MS: u64 = 1_000_000;

fn target(y: i32, confidence: i64) -> Detection {
    Detection { id: 4, pose: Pose { x: 0, y, z: 0, rotation: [0; 9] }, confidence }
}

fn small_context() -> ExecutionContext {
    ExecutionContext::new(VisionProcessor::new(4, 4, 2, 200_000_000).unwrap(), DroneControl::new())
}

fn observed(context: &ExecutionContext) -> Vec<Command> {
    let mut commands = Vec::new();
    let mut i = 0;
    while let Some(command) = context.observed_command(i) {
        commands.push(command);
        i += 1;
    }
    commands
}

#[test]
fn clock_shows_what_was_set() {
    let mut clock = CycleClock::new();
    assert_eq!(clock.get_time(), 0);
    clock.set_time(50 * MS);
    assert_eq!(clock.get_time(), 50 * MS);
    clock.set_time(7);
    assert_eq!(clock.get_time(), 7);
    clock.set_time(u64::MAX);
    assert_eq!(clock.get_time(), u64::MAX);
}

#[test]
fn hardware_tasks_are_simulated_in_every_phase() {
    let phases = [
        Phase::New,
        Phase::Start,
        Phase::Preprocess,
        Phase::Process,
        Phase::Postprocess,
        Phase::Stop,
    ];
    for phase in phases {
        assert_eq!(decide(TaskId::VideoCapture, phase), OverrideDecision::UseSimulation);
        assert_eq!(decide(TaskId::CommandTransmitter, phase), OverrideDecision::UseSimulation);
        assert_eq!(decide(TaskId::TelemetryReceiver, phase), OverrideDecision::UseSimulation);
        assert_eq!(decide(TaskId::VisionProcessing, phase), OverrideDecision::UseReal);
        assert_eq!(decide(TaskId::ControlLoop, phase), OverrideDecision::UseReal);
    }
    assert!(talks_to_hardware(TaskId::VideoCapture));
    assert!(talks_to_hardware(TaskId::CommandTransmitter));
    assert!(talks_to_hardware(TaskId::TelemetryReceiver));
    assert!(!talks_to_hardware(TaskId::VisionProcessing));
    assert!(!talks_to_hardware(TaskId::ControlLoop));
}

#[test]
fn sink_shows_the_latest_batch_in_order() {
    let mut sink = ActuationSink::new();
    assert_eq!(sink.len(), 0);
    assert_eq!(sink.get(0), None);
    sink.consume(&vec![Command::SetThrottle(1300), Command::PollBatteryState]);
    assert_eq!(sink.len(), 2);
    assert_eq!(sink.get(0), Some(Command::SetThrottle(1300)));
    assert_eq!(sink.get(1), Some(Command::PollBatteryState));
    assert_eq!(sink.get(2), None);
    sink.consume(&vec![Command::PollBatteryState]);
    assert_eq!(sink.len(), 1);
    assert_eq!(sink.get(0), Some(Command::PollBatteryState));
    sink.consume(&vec![
        Command::PollBatteryState,
        Command::SetThrottle(2),
        Command::SetThrottle(1),
        Command::PollBatteryState,
    ]);
    assert_eq!(sink.get(1), Some(Command::SetThrottle(2)));
    assert_eq!(sink.get(2), Some(Command::SetThrottle(1)));
}

#[test]
fn failure_wraps_its_cause() {
    assert_eq!(
        TaskExecutionFailure::new(TaskError::DetectorFailure),
        TaskExecutionFailure { cause: TaskError::DetectorFailure }
    );
    assert_ne!(
        TaskExecutionFailure::new(TaskError::InvalidFrame),
        TaskExecutionFailure::new(TaskError::UnsupportedTimeRepresentation)
    );
}

#[test]
fn errors_describe_themselves() {
    assert_eq!(
        TaskError::InvalidFrame.message(),
        "frame buffer shorter than its resolution requires"
    );
    assert_eq!(TaskError::DetectorFailure.message(), "marker detector failed");
    assert_eq!(
        TaskError::UnsupportedTimeRepresentation.message(),
        "time of validity is not a single instant"
    );
}

#[test]
fn reference_context_starts_empty() {
    let context = ExecutionContext::reference();
    assert_eq!(context.now(), 0);
    assert_eq!(context.get_control().get_state(), DroneControl::new().get_state());
    assert_eq!(context.get_control().get_held_throttle(), None);
    assert_eq!(context.get_vision().get_width(), FRAME_WIDTH);
    assert_eq!(context.observed_command(0), None);
}

#[test]
fn two_ticks_track_the_target() {
    let mut context = small_context();
    let frame = vec![100u8; 16];

    let image = context.begin_cycle(50 * MS, &frame).unwrap();
    assert_eq!(image, vec![0u8; 16]);
    assert_eq!(context.now(), 50 * MS);
    let found = DetectorOutcome::Detections(vec![target(100_000, 250_000_000)]);
    let out = context.finish_cycle(&Ok(found), &vec![]).unwrap();
    assert_eq!(out.batch, vec![Command::SetThrottle(1280), Command::PollBatteryState]);
    assert_eq!(observed(&context), out.batch);

    context.begin_cycle(100 * MS, &frame).unwrap();
    let found = DetectorOutcome::Detections(vec![target(50_000, 250_000_000)]);
    let telemetry = vec![TelemetryResponse::BatteryState { total_voltage: 168, cell_count: 4 }];
    let out = context.finish_cycle(&Ok(found), &telemetry).unwrap();
    assert_eq!(out.batch, vec![Command::SetThrottle(1296), Command::PollBatteryState]);
    assert_eq!(out.cell_voltage, Some(4_200_000));
    assert_eq!(observed(&context), out.batch);
    assert_eq!(
        context.get_control().get_state(),
        ControlState {
            initialized: true,
            last_tov: 100 * MS,
            integral: -1_250,
            previous_error: -50_000,
        }
    );
}

#[test]
fn low_confidence_target_never_reaches_the_loop() {
    let mut context = small_context();
    context.begin_cycle(50 * MS, &vec![100u8; 16]).unwrap();
    let found = DetectorOutcome::Detections(vec![target(100_000, 199_999_999)]);
    let out = context.finish_cycle(&Ok(found), &vec![]).unwrap();
    assert_eq!(out.batch, vec![Command::PollBatteryState]);
    assert!(!context.get_control().get_state().initialized);
}

#[test]
fn short_frame_costs_only_the_detections() {
    let mut context = ExecutionContext::reference();
    let frame = vec![0u8; FRAME_WIDTH * FRAME_HEIGHT - 1];
    let vision = context.begin_cycle(50 * MS, &frame);
    assert_eq!(vision, Err(TaskError::InvalidFrame));
    let out = context.finish_cycle(&Err(TaskError::InvalidFrame), &vec![]).unwrap();
    assert_eq!(out.batch, vec![Command::PollBatteryState]);
    assert_eq!(context.get_control().get_state(), DroneControl::new().get_state());
}

#[test]
fn short_frame_leaves_a_tracking_loop_as_it_was() {
    let mut context = small_context();
    context.begin_cycle(50 * MS, &vec![100u8; 16]).unwrap();
    let found = DetectorOutcome::Detections(vec![target(100_000, 250_000_000)]);
    context.finish_cycle(&Ok(found), &vec![]).unwrap();
    let before = context.get_control().get_state();

    let vision = context.begin_cycle(100 * MS, &vec![100u8; 15]);
    assert_eq!(vision, Err(TaskError::InvalidFrame));
    let out = context.finish_cycle(&Err(TaskError::InvalidFrame), &vec![]).unwrap();
    assert_eq!(out.batch, vec![Command::SetThrottle(1280), Command::PollBatteryState]);
    assert_eq!(context.get_control().get_state(), before);
}

#[test]
fn detector_failure_stops_the_cycle() {
    let mut context = small_context();
    context.begin_cycle(50 * MS, &vec![100u8; 16]).unwrap();
    let found = DetectorOutcome::Detections(vec![target(100_000, 250_000_000)]);
    let first = context.finish_cycle(&Ok(found), &vec![]).unwrap();
    let before = context.get_control().get_state();

    context.begin_cycle(100 * MS, &vec![100u8; 16]).unwrap();
    let failure = context.finish_cycle(&Ok(DetectorOutcome::Failed), &vec![]).unwrap_err();
    assert_eq!(failure.cause, TaskError::DetectorFailure);
    assert_eq!(context.get_control().get_state(), before);
    assert_eq!(observed(&context), first.batch);

    let failure = context
        .finish_cycle(&Err(TaskError::UnsupportedTimeRepresentation), &vec![])
        .unwrap_err();
    assert_eq!(failure.cause, TaskError::UnsupportedTimeRepresentation);
    let failure = context.finish_cycle(&Err(TaskError::DetectorFailure), &vec![]).unwrap_err();
    assert_eq!(failure.cause, TaskError::DetectorFailure);
    assert_eq!(context.get_control().get_state(), before);

    context.begin_cycle(150 * MS, &vec![100u8; 16]).unwrap();
    let found = DetectorOutcome::Detections(vec![target(100_000, 250_000_000)]);
    let out = context.finish_cycle(&Ok(found), &vec![]).unwrap();
    assert_eq!(context.get_control().get_state().last_tov, 150 * MS);
    assert_eq!(out.batch.last(), Some(&Command::PollBatteryState));
}
