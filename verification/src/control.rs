//! The flight control loop: from detections and telemetry to a command batch.

use vstd::prelude::*;
use crate::error::{TaskError, TaskExecutionFailure};
use crate::fixed::{div_toward_zero, magnitude, trunc_div, MICRO};
use crate::messages::{Command, Detection, DetectionBatch, TelemetryResponse, TimeOfValidity};
use crate::regulator::{
    correction_of,
    error_of,
    lemma_correction_within_limits,
    Regulator,
    Tuning,
};

verus! {

/// What the loop is configured with.
#[derive(Clone, Copy, Debug, PartialEq, Eq, Structural)]
pub struct ControlConfig {
    /// The regulator's gains, setpoint and limits.
    pub tuning: Tuning,
    /// The marker to follow.
    pub target_id: u64,
    /// The throttle commanded when no correction applies.
    pub neutral_throttle: u16,
}

/// What the loop remembers from one cycle to the next.
#[derive(Clone, Copy, Debug, PartialEq, Eq, Structural)]
pub struct ControlState {
    /// Whether the target was ever seen.
    pub initialized: bool,
    /// Time of validity of the latest sample taken in, in nanoseconds.
    pub last_tov: u64,
    /// The regulator's integral term, in millionths.
    pub integral: i64,
    /// The error of the latest sample taken in, in millionths.
    pub previous_error: i64,
}

/// What one cycle of the loop hands out.
#[derive(Clone, Debug)]
pub struct ControlOutput {
    /// The requests for the airframe, in the order to send them.
    pub batch: Vec<Command>,
    /// Voltage per cell, in millionths of a volt: zero when no battery state
    /// arrived, `None` when the latest one reports zero cells.
    pub cell_voltage: Option<u64>,
}

/// The first detection of `detections` whose id is `target`.
pub open spec fn select_target(detections: Seq<Detection>, target: u64) -> Option<Detection>
    decreases detections.len(),
{
    if detections.len() == 0 {
        None
    } else if detections[0].id == target {
        Some(detections[0])
    } else {
        select_target(detections.drop_first(), target)
    }
}

/// The latest battery state in `responses`: total voltage and cell count.
pub open spec fn last_battery_state(responses: Seq<TelemetryResponse>) -> Option<(u16, u8)>
    decreases responses.len(),
{
    if responses.len() == 0 {
        None
    } else {
        match responses.last() {
            TelemetryResponse::BatteryState { total_voltage, cell_count } => Some(
                (total_voltage, cell_count),
            ),
            TelemetryResponse::Other => last_battery_state(responses.drop_last()),
        }
    }
}

/// `(total_voltage / cell_count) / 10`, in millionths of a volt.
pub open spec fn cell_voltage_of(responses: Seq<TelemetryResponse>) -> Option<u64> {
    match last_battery_state(responses) {
        None => Some(0),
        Some((total_voltage, cell_count)) => if cell_count == 0 {
            None
        } else {
            Some(((total_voltage * 100_000) / (cell_count as int)) as u64)
        },
    }
}

/// The raw throttle value for `neutral + output`: whole units, rounded toward
/// zero and kept within the range of a channel value.
pub open spec fn throttle_of(neutral: u16, output: int) -> u16 {
    let whole = trunc_div(neutral * MICRO + output, MICRO as int);
    if whole < 0 {
        0
    } else if whole > u16::MAX {
        u16::MAX
    } else {
        whole as u16
    }
}

/// The batch for a cycle: the throttle command, if there is a throttle value,
/// and then always the battery poll.
pub open spec fn batch_of(throttle: Option<u16>) -> Seq<Command> {
    match throttle {
        Some(value) => seq![Command::SetThrottle(value), Command::PollBatteryState],
        None => seq![Command::PollBatteryState],
    }
}

/// Whether a cycle fails: the target is in the batch, and the batch's time of
/// validity is not a single instant.
pub open spec fn cycle_fails(
    config: ControlConfig,
    tov: TimeOfValidity,
    detections: Seq<Detection>,
) -> bool {
    select_target(detections, config.target_id) is Some && !(tov is Instant)
}

/// The state after a cycle that does not fail.
pub open spec fn next_state(
    config: ControlConfig,
    state: ControlState,
    tov: TimeOfValidity,
    detections: Seq<Detection>,
) -> ControlState {
    match (select_target(detections, config.target_id), tov) {
        (Some(target), TimeOfValidity::Instant(tov)) => {
            let error = error_of(config.tuning, target.pose.y as int);
            if !state.initialized {
                ControlState {
                    initialized: true,
                    last_tov: tov,
                    integral: state.integral,
                    previous_error: error as i64,
                }
            } else if tov <= state.last_tov {
                state
            } else {
                let c = correction_of(
                    config.tuning,
                    state.integral as int,
                    state.previous_error as int,
                    target.pose.y as int,
                    tov - state.last_tov,
                );
                ControlState {
                    initialized: true,
                    last_tov: tov,
                    integral: c.1 as i64,
                    previous_error: error as i64,
                }
            }
        },
        _ => state,
    }
}

/// The throttle value commanded by a cycle that does not fail, given the value
/// `held` from the cycle before.
pub open spec fn next_throttle(
    config: ControlConfig,
    state: ControlState,
    held: Option<u16>,
    tov: TimeOfValidity,
    detections: Seq<Detection>,
) -> Option<u16> {
    match (select_target(detections, config.target_id), tov) {
        (Some(target), TimeOfValidity::Instant(tov)) => {
            if !state.initialized {
                Some(config.neutral_throttle)
            } else if tov <= state.last_tov {
                held
            } else {
                let c = correction_of(
                    config.tuning,
                    state.integral as int,
                    state.previous_error as int,
                    target.pose.y as int,
                    tov - state.last_tov,
                );
                Some(throttle_of(config.neutral_throttle, c.3))
            }
        },
        _ => held,
    }
}

/// Finds the first detection whose id is `target`.
pub fn find_target(detections: &Vec<Detection>, target: u64) -> (r: Option<Detection>)
    ensures
        r == select_target(detections@, target),
{
    let mut i: usize = 0;
    assert(detections@.skip(0) =~= detections@);
    while i < detections.len()
        invariant
            i <= detections.len(),
            select_target(detections@, target) == select_target(detections@.skip(i as int), target),
        decreases detections.len() - i,
    {
        if detections[i].id == target {
            assert(detections@.skip(i as int)[0] == detections@[i as int]);
            return Some(detections[i]);
        }
        assert(detections@.skip(i as int).drop_first() =~= detections@.skip(i as int + 1));
        i += 1;
    }
    None
}

/// Computes the voltage per cell from the latest battery state of a batch.
pub fn cell_voltage(responses: &Vec<TelemetryResponse>) -> (r: Option<u64>)
    ensures
        r == cell_voltage_of(responses@),
{
    let mut latest: Option<(u16, u8)> = None;
    let mut i: usize = 0;
    while i < responses.len()
        invariant
            i <= responses.len(),
            latest == last_battery_state(responses@.take(i as int)),
        decreases responses.len() - i,
    {
        assert(responses@.take(i as int + 1).drop_last() =~= responses@.take(i as int));
        match responses[i] {
            TelemetryResponse::BatteryState { total_voltage, cell_count } => {
                latest = Some((total_voltage, cell_count));
            },
            TelemetryResponse::Other => {},
        }
        i += 1;
    }
    assert(responses@.take(i as int) =~= responses@);
    match latest {
        None => Some(0),
        Some((total_voltage, cell_count)) => {
            if cell_count == 0 {
                None
            } else {
                Some(total_voltage as u64 * 100_000 / cell_count as u64)
            }
        },
    }
}

/// Computes [`throttle_of`].
pub fn throttle_value(neutral: u16, output: i64) -> (r: u16)
    ensures
        r == throttle_of(neutral, output as int),
{
    let base: i128 = neutral as i128;
    assert(0 <= base * 1_000_000 <= 65_535_000_000) by (nonlinear_arith)
        requires
            0 <= base <= 65_535,
    ;
    let sum: i128 = base * MICRO as i128 + output as i128;
    let whole: i128 = div_toward_zero(sum, MICRO as i128);
    if whole < 0 {
        0
    } else if whole > u16::MAX as i128 {
        u16::MAX
    } else {
        whole as u16
    }
}

/// Builds the batch of a cycle.
pub fn build_batch(throttle: Option<u16>) -> (batch: Vec<Command>)
    ensures
        batch@ == batch_of(throttle),
{
    let mut batch: Vec<Command> = Vec::new();
    match throttle {
        Some(value) => {
            batch.push(Command::SetThrottle(value));
        },
        None => {},
    }
    batch.push(Command::PollBatteryState);
    assert(batch@ =~= batch_of(throttle));
    batch
}

/// The flight control loop.
#[derive(Clone, Copy, Debug)]
pub struct DroneControl {
    regulator: Regulator,
    target_id: u64,
    neutral_throttle: u16,
    initialized: bool,
    last_tov: u64,
    held: Option<u16>,
}

impl DroneControl {
    /// The configuration the loop was made with.
    pub closed spec fn config(&self) -> ControlConfig {
        ControlConfig {
            tuning: self.regulator.tuning(),
            target_id: self.target_id,
            neutral_throttle: self.neutral_throttle,
        }
    }

    /// What the loop remembers.
    pub closed spec fn state(&self) -> ControlState {
        ControlState {
            initialized: self.initialized,
            last_tov: self.last_tov,
            integral: self.regulator.integral() as i64,
            previous_error: self.regulator.previous_error() as i64,
        }
    }

    /// The throttle value of the latest command, if there was one.
    pub closed spec fn held_throttle(&self) -> Option<u16> {
        self.held
    }

    /// The regulator's memory is within its bounds, and a loop that tracks
    /// has commanded a throttle.
    pub closed spec fn wf(&self) -> bool {
        &&& self.regulator.wf()
        &&& self.initialized ==> self.held is Some
    }

    /// In a well-formed loop the integral term is within its limit, and a
    /// loop that tracks has commanded a throttle.
    pub proof fn lemma_wf_bounds(&self)
        requires
            self.wf(),
        ensures
            magnitude(self.state().integral as int) <= self.config().tuning.i_limit,
            self.state().initialized ==> self.held_throttle() is Some,
    {
    }

    /// The configuration of the reference airframe: gains 70, 0.5 and 20
    /// toward a zero offset, limits 10, 20 and 40, marker 4, neutral throttle
    /// 1280.
    pub open spec fn reference_config_spec() -> ControlConfig {
        ControlConfig {
            tuning: Tuning {
                kp: 70_000_000,
                ki: 500_000,
                kd: 20_000_000,
                setpoint: 0,
                i_limit: 10_000_000,
                d_limit: 20_000_000,
                output_limit: 40_000_000,
            },
            target_id: 4,
            neutral_throttle: 1280,
        }
    }

    /// Computes [`DroneControl::reference_config_spec`].
    pub fn reference_config() -> (r: ControlConfig)
        ensures
            r == Self::reference_config_spec(),
    {
        ControlConfig {
            tuning: Tuning {
                kp: 70_000_000,
                ki: 500_000,
                kd: 20_000_000,
                setpoint: 0,
                i_limit: 10_000_000,
                d_limit: 20_000_000,
                output_limit: 40_000_000,
            },
            target_id: 4,
            neutral_throttle: 1280,
        }
    }

    /// A loop with the reference tuning that has seen nothing yet.
    pub fn new() -> (r: DroneControl)
        ensures
            r.wf(),
            r.config() == Self::reference_config_spec(),
            r.state() == Self::initial_state(),
            r.held_throttle() is None,
    {
        Self::with_config(Self::reference_config())
    }

    /// The state of a loop that has seen nothing yet.
    pub open spec fn initial_state() -> ControlState {
        ControlState { initialized: false, last_tov: 0, integral: 0, previous_error: 0 }
    }

    /// A loop with the given configuration that has seen nothing yet.
    pub fn with_config(config: ControlConfig) -> (r: DroneControl)
        ensures
            r.wf(),
            r.config() == config,
            r.state() == Self::initial_state(),
            r.held_throttle() is None,
    {
        DroneControl {
            regulator: Regulator::new(config.tuning),
            target_id: config.target_id,
            neutral_throttle: config.neutral_throttle,
            initialized: false,
            last_tov: 0,
            held: None,
        }
    }

    /// Reads what the loop remembers.
    pub fn get_state(&self) -> (r: ControlState)
        ensures
            r == self.state(),
    {
        ControlState {
            initialized: self.initialized,
            last_tov: self.last_tov,
            integral: self.regulator.integral_term(),
            previous_error: self.regulator.last_error(),
        }
    }

    /// Reads the configuration.
    pub fn get_config(&self) -> (r: ControlConfig)
        ensures
            r == self.config(),
    {
        ControlConfig {
            tuning: self.regulator.get_tuning(),
            target_id: self.target_id,
            neutral_throttle: self.neutral_throttle,
        }
    }

    /// Reads the throttle value of the latest command.
    pub fn get_held_throttle(&self) -> (r: Option<u16>)
        ensures
            r == self.held_throttle(),
    {
        self.held
    }

    /// Runs one cycle of the loop.
    ///
    /// The cycle fails exactly when the target is among the detections and
    /// the batch's time of validity is not a single instant; the loop is then
    /// left as it was. Otherwise the loop moves to [`next_state`], and the
    /// batch holds the throttle command for [`next_throttle`], if that is a
    /// value, followed by the battery poll.
    pub fn process(&mut self, telemetry: &Vec<TelemetryResponse>, detections: &DetectionBatch) -> (r:
        Result<ControlOutput, TaskExecutionFailure>)
        requires
            old(self).wf(),
        ensures
            final(self).wf(),
            final(self).config() == old(self).config(),
            r is Err <==> cycle_fails(
                old(self).config(),
                detections.tov,
                detections.detections@,
            ),
            r is Err ==> r->Err_0.cause == TaskError::UnsupportedTimeRepresentation
                && *final(self) == *old(self),
            r is Ok ==> {
                &&& final(self).state() == next_state(
                    old(self).config(),
                    old(self).state(),
                    detections.tov,
                    detections.detections@,
                )
                &&& final(self).held_throttle() == next_throttle(
                    old(self).config(),
                    old(self).state(),
                    old(self).held_throttle(),
                    detections.tov,
                    detections.detections@,
                )
                &&& r->Ok_0.batch@ == batch_of(final(self).held_throttle())
                &&& r->Ok_0.batch@.last() == Command::PollBatteryState
                &&& r->Ok_0.cell_voltage == cell_voltage_of(telemetry@)
            },
    {
        let cell_voltage = cell_voltage(telemetry);
        match find_target(&detections.detections, self.target_id) {
            None => {},
            Some(target) => {
                let tov: u64 = match detections.tov {
                    TimeOfValidity::Instant(single) => single,
                    _ => {
                        return Err(
                            TaskExecutionFailure::new(TaskError::UnsupportedTimeRepresentation),
                        );
                    },
                };
                if !self.initialized {
                    self.initialized = true;
                    self.last_tov = tov;
                    self.regulator.init_measurement(target.pose.y);
                    self.held = Some(self.neutral_throttle);
                } else if tov > self.last_tov {
                    let dt: u64 = tov - self.last_tov;
                    match self.regulator.next_control_output(target.pose.y, dt) {
                        Some(correction) => {
                            self.last_tov = tov;
                            self.held = Some(
                                throttle_value(self.neutral_throttle, correction.output),
                            );
                        },
                        None => {},
                    }
                }
            },
        }
        let batch = build_batch(self.held);
        Ok(ControlOutput { batch, cell_voltage })
    }
}

/// Every batch ends with the battery poll, whether or not it holds a
/// throttle command, and holds nothing but these.
pub proof fn lemma_batch_ends_with_poll(throttle: Option<u16>)
    ensures
        batch_of(throttle).len() >= 1,
        batch_of(throttle).last() == Command::PollBatteryState,
        throttle is None ==> batch_of(throttle) == seq![Command::PollBatteryState],
        throttle is Some ==> batch_of(throttle).len() == 2 && batch_of(throttle)[0]
            == Command::SetThrottle(throttle->0),
{
}

/// A cycle without the target changes neither the state nor the throttle.
pub proof fn lemma_no_target_holds(
    config: ControlConfig,
    state: ControlState,
    held: Option<u16>,
    tov: TimeOfValidity,
    detections: Seq<Detection>,
)
    requires
        select_target(detections, config.target_id) is None,
    ensures
        !cycle_fails(config, tov, detections),
        next_state(config, state, tov, detections) == state,
        next_throttle(config, state, held, tov, detections) == held,
{
}

/// The first sight of the target starts the tracking at the neutral
/// throttle, whatever the measurement: no correction is computed from an
/// undefined previous error.
pub proof fn lemma_first_sight_is_neutral(
    config: ControlConfig,
    state: ControlState,
    held: Option<u16>,
    tov: u64,
    detections: Seq<Detection>,
)
    requires
        !state.initialized,
        select_target(detections, config.target_id) is Some,
    ensures
        next_state(config, state, TimeOfValidity::Instant(tov), detections).initialized,
        next_state(config, state, TimeOfValidity::Instant(tov), detections).last_tov == tov,
        next_state(config, state, TimeOfValidity::Instant(tov), detections).integral
            == state.integral,
        next_throttle(config, state, held, TimeOfValidity::Instant(tov), detections) == Some(
            config.neutral_throttle,
        ),
{
}

/// While tracking, a sample that is not later than the last one changes
/// neither the state nor the throttle.
pub proof fn lemma_stale_sample_holds(
    config: ControlConfig,
    state: ControlState,
    held: Option<u16>,
    tov: u64,
    detections: Seq<Detection>,
)
    requires
        state.initialized,
        tov <= state.last_tov,
    ensures
        next_state(config, state, TimeOfValidity::Instant(tov), detections) == state,
        next_throttle(config, state, held, TimeOfValidity::Instant(tov), detections) == held,
{
}

/// Once tracking, always tracking; and the time of the last sample never
/// goes back.
pub proof fn lemma_tracking_is_kept(
    config: ControlConfig,
    state: ControlState,
    tov: TimeOfValidity,
    detections: Seq<Detection>,
)
    ensures
        state.initialized ==> next_state(config, state, tov, detections).initialized,
        state.initialized ==> next_state(config, state, tov, detections).last_tov
            >= state.last_tov,
{
}

/// The integral term stays within its limit from cycle to cycle.
pub proof fn lemma_integral_stays_within_limit(
    config: ControlConfig,
    state: ControlState,
    tov: TimeOfValidity,
    detections: Seq<Detection>,
)
    requires
        magnitude(state.integral as int) <= config.tuning.i_limit,
    ensures
        magnitude(next_state(config, state, tov, detections).integral as int)
            <= config.tuning.i_limit,
{
    match (select_target(detections, config.target_id), tov) {
        (Some(target), TimeOfValidity::Instant(t)) => {
            if state.initialized && t > state.last_tov {
                lemma_correction_within_limits(
                    config.tuning,
                    state.integral as int,
                    state.previous_error as int,
                    target.pose.y as int,
                    t - state.last_tov,
                );
            }
        },
        _ => {},
    }
}

/// A commanded throttle is never further from the neutral throttle than the
/// output limit, rounded up to whole units.
pub proof fn lemma_throttle_near_neutral(neutral: u16, output: int, limit: int)
    requires
        0 <= limit,
        magnitude(output) <= limit,
    ensures
        neutral - (limit / (MICRO as int)) - 1 <= throttle_of(neutral, output) <= neutral + limit
            / (MICRO as int),
{
    let m = MICRO as int;
    let sum = neutral * m + output;
    assert(m == 1_000_000);
    if sum >= 0 {
        assert(sum / m <= neutral + limit / m) by (nonlinear_arith)
            requires
                sum <= neutral * m + limit,
                m == 1_000_000,
                0 <= sum,
                0 <= limit,
        ;
        assert(sum / m >= neutral - limit / m - 1) by (nonlinear_arith)
            requires
                sum >= neutral * m - limit,
                m == 1_000_000,
                0 <= sum,
                0 <= limit,
        ;
    } else {
        assert(neutral - limit / m - 1 <= 0) by (nonlinear_arith)
            requires
                neutral * m - limit <= sum,
                sum < 0,
                m == 1_000_000,
                0 <= limit,
        ;
        assert((-sum) / m >= 0) by (nonlinear_arith)
            requires
                sum < 0,
                m == 1_000_000,
        ;
    }
}

/// A throttle that comes out of a control step is within the output limit of
/// the neutral throttle, rounded up to whole units.
pub proof fn lemma_corrected_throttle_near_neutral(
    config: ControlConfig,
    state: ControlState,
    held: Option<u16>,
    tov: u64,
    detections: Seq<Detection>,
)
    requires
        state.initialized,
        tov > state.last_tov,
        select_target(detections, config.target_id) is Some,
    ensures
        next_throttle(config, state, held, TimeOfValidity::Instant(tov), detections) is Some,
        config.neutral_throttle - (config.tuning.output_limit as int) / (MICRO as int) - 1 <= next_throttle(
            config,
            state,
            held,
            TimeOfValidity::Instant(tov),
            detections,
        )->0 <= config.neutral_throttle + (config.tuning.output_limit as int) / (MICRO as int),
{
    let target = select_target(detections, config.target_id)->0;
    let c = correction_of(
        config.tuning,
        state.integral as int,
        state.previous_error as int,
        target.pose.y as int,
        tov - state.last_tov,
    );
    lemma_correction_within_limits(
        config.tuning,
        state.integral as int,
        state.previous_error as int,
        target.pose.y as int,
        tov - state.last_tov,
    );
    lemma_throttle_near_neutral(config.neutral_throttle, c.3, config.tuning.output_limit as int);
}

} // verus!
