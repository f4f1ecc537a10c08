//! The proportional-integral-derivative regulator of the flight control loop.

use vstd::prelude::*;
use crate::fixed::{
    clamp_sym,
    clamp_to,
    div_toward_zero,
    lemma_clamp_sym_bounds,
    lemma_trunc_div_bounds,
    magnitude,
    trunc_div,
    MICRO,
    MICRO_NANOS,
    NANOS_PER_SECOND,
};

verus! {

/// Gains, setpoint and limits of the regulator, all in millionths: a gain of
/// 70 is stored as 70 000 000.
#[derive(Clone, Copy, Debug, PartialEq, Eq, Structural)]
pub struct Tuning {
    /// Proportional gain.
    pub kp: i32,
    /// Integral gain.
    pub ki: i32,
    /// Derivative gain.
    pub kd: i32,
    /// The measurement the regulator steers toward.
    pub setpoint: i32,
    /// Bound on the magnitude of the integral term.
    pub i_limit: u32,
    /// Bound on the magnitude of the derivative term.
    pub d_limit: u32,
    /// Bound on the magnitude of the output.
    pub output_limit: u32,
}

/// The three terms of one control step and their clamped sum, in millionths.
#[derive(Clone, Copy, Debug, PartialEq, Eq, Structural)]
pub struct Correction {
    pub proportional: i64,
    pub integral: i64,
    pub derivative: i64,
    pub output: i64,
}

/// Largest magnitude of an error: the distance between two `i32` values.
pub open spec fn max_error() -> int {
    0xffff_ffff
}

/// `setpoint - measurement`.
pub open spec fn error_of(tuning: Tuning, measurement: int) -> int {
    tuning.setpoint - measurement
}

/// `kp * error`.
pub open spec fn proportional_of(tuning: Tuning, error: int) -> int {
    trunc_div(tuning.kp * error, MICRO as int)
}

/// `clamp(integral + ki * error * dt, -i_limit, +i_limit)`, with `dt` in nanoseconds.
pub open spec fn integral_of(tuning: Tuning, integral: int, error: int, dt: int) -> int {
    clamp_sym(
        integral + trunc_div(tuning.ki * error * dt, MICRO_NANOS as int),
        tuning.i_limit as int,
    )
}

/// `clamp(kd * (error - previous_error) / dt, -d_limit, +d_limit)`, with `dt` in nanoseconds.
pub open spec fn derivative_of(tuning: Tuning, previous_error: int, error: int, dt: int) -> int {
    clamp_sym(
        trunc_div(tuning.kd * (error - previous_error) * NANOS_PER_SECOND, MICRO * dt),
        tuning.d_limit as int,
    )
}

/// One control step: the three terms and `clamp(p + i + d, -output_limit, +output_limit)`.
pub open spec fn correction_of(
    tuning: Tuning,
    integral: int,
    previous_error: int,
    measurement: int,
    dt: int,
) -> (int, int, int, int) {
    let error = error_of(tuning, measurement);
    let p = proportional_of(tuning, error);
    let i = integral_of(tuning, integral, error, dt);
    let d = derivative_of(tuning, previous_error, error, dt);
    (p, i, d, clamp_sym(p + i + d, tuning.output_limit as int))
}

/// A regulator: its tuning, and what it remembers from one step to the next.
#[derive(Clone, Copy, Debug)]
pub struct Regulator {
    tuning: Tuning,
    integral: i64,
    previous_error: i64,
}

impl Regulator {
    /// The tuning the regulator was made with.
    pub closed spec fn tuning(&self) -> Tuning {
        self.tuning
    }

    /// The accumulated integral term.
    pub closed spec fn integral(&self) -> int {
        self.integral as int
    }

    /// The error of the latest measurement taken in.
    pub closed spec fn previous_error(&self) -> int {
        self.previous_error as int
    }

    /// The integral term is within its limit and the remembered error is the
    /// distance between two representable values.
    pub open spec fn wf(&self) -> bool {
        &&& magnitude(self.integral()) <= self.tuning().i_limit
        &&& magnitude(self.previous_error()) <= max_error()
    }

    /// A regulator with an empty memory.
    pub fn new(tuning: Tuning) -> (r: Regulator)
        ensures
            r.wf(),
            r.tuning() == tuning,
            r.integral() == 0,
            r.previous_error() == 0,
    {
        Regulator { tuning, integral: 0, previous_error: 0 }
    }

    /// Reads the accumulated integral term.
    pub fn integral_term(&self) -> (r: i64)
        ensures
            r == self.integral(),
    {
        self.integral
    }

    /// Reads the remembered error.
    pub fn last_error(&self) -> (r: i64)
        ensures
            r == self.previous_error(),
    {
        self.previous_error
    }

    /// Reads the tuning.
    pub fn get_tuning(&self) -> (r: Tuning)
        ensures
            r == self.tuning(),
    {
        self.tuning
    }

    /// Primes the memory with the error of a first measurement, so that the
    /// first derivative is taken against a defined error.
    pub fn init_measurement(&mut self, measurement: i32)
        requires
            old(self).wf(),
        ensures
            final(self).wf(),
            final(self).tuning() == old(self).tuning(),
            final(self).integral() == old(self).integral(),
            final(self).previous_error() == error_of(old(self).tuning(), measurement as int),
    {
        self.previous_error = self.tuning.setpoint as i64 - measurement as i64;
    }

    /// Takes one measurement `dt` nanoseconds after the previous one.
    ///
    /// With `dt == 0` nothing is computed and nothing changes. Otherwise the
    /// result is the control step of [`correction_of`], and the memory holds
    /// the new integral term and the new error.
    pub fn next_control_output(&mut self, measurement: i32, dt: u64) -> (r: Option<Correction>)
        requires
            old(self).wf(),
        ensures
            final(self).wf(),
            final(self).tuning() == old(self).tuning(),
            dt == 0 ==> r is None && *final(self) == *old(self),
            dt > 0 ==> r is Some && ({
                let c = correction_of(
                    old(self).tuning(),
                    old(self).integral(),
                    old(self).previous_error(),
                    measurement as int,
                    dt as int,
                );
                &&& r->0.proportional == c.0
                &&& r->0.integral == c.1
                &&& r->0.derivative == c.2
                &&& r->0.output == c.3
                &&& final(self).integral() == c.1
                &&& final(self).previous_error() == error_of(old(self).tuning(), measurement as int)
            }),
            r is Some ==> magnitude(r->0.integral as int) <= old(self).tuning().i_limit,
            r is Some ==> magnitude(r->0.derivative as int) <= old(self).tuning().d_limit,
            r is Some ==> magnitude(r->0.output as int) <= old(self).tuning().output_limit,
    {
        if dt == 0 {
            return None;
        }
        let error: i64 = self.tuning.setpoint as i64 - measurement as i64;
        let kp: i128 = self.tuning.kp as i128;
        let ki: i128 = self.tuning.ki as i128;
        let kd: i128 = self.tuning.kd as i128;
        let e: i128 = error as i128;
        let t: i128 = dt as i128;
        let delta: i128 = e - self.previous_error as i128;

        assert(-0x8000_0000_0000_0000 < kp * e < 0x8000_0000_0000_0000) by (nonlinear_arith)
            requires
                -0x8000_0000 <= kp <= 0x7fff_ffff,
                -0xffff_ffff <= e <= 0xffff_ffff,
        ;
        let pe: i128 = kp * e;
        let p: i128 = div_toward_zero(pe, MICRO as i128);
        proof {
            lemma_trunc_div_bounds(pe as int, MICRO as int);
        }

        assert(-0x8000_0000_0000_0000 < ki * e < 0x8000_0000_0000_0000) by (nonlinear_arith)
            requires
                -0x8000_0000 <= ki <= 0x7fff_ffff,
                -0xffff_ffff <= e <= 0xffff_ffff,
        ;
        let ie: i128 = ki * e;
        assert(-0x7fff_ffff_ffff_ffff_ffff_ffff_ffff_ffff <= ie * t
            <= 0x7fff_ffff_ffff_ffff_ffff_ffff_ffff_ffff) by (nonlinear_arith)
            requires
                -0x8000_0000_0000_0000 < ie < 0x8000_0000_0000_0000,
                0 <= t <= 0xffff_ffff_ffff_ffff,
        ;
        let iet: i128 = ie * t;
        assert(ki * e * t == iet);
        let grown: i128 = div_toward_zero(iet, MICRO_NANOS as i128);
        proof {
            lemma_trunc_div_bounds(iet as int, MICRO_NANOS as int);
        }
        let i: i64 = clamp_to(self.integral as i128 + grown, self.tuning.i_limit);

        assert(-0x1_0000_0000_0000_0000 < kd * delta < 0x1_0000_0000_0000_0000) by (nonlinear_arith)
            requires
                -0x8000_0000 <= kd <= 0x7fff_ffff,
                -0x1_ffff_fffe <= delta <= 0x1_ffff_fffe,
        ;
        let de: i128 = kd * delta;
        assert(de * 1_000_000_000 == kd * delta * 1_000_000_000);
        let slope: i128 = div_toward_zero(de * 1_000_000_000, MICRO as i128 * t);
        let d: i64 = clamp_to(slope, self.tuning.d_limit);

        let output: i64 = clamp_to(p + i as i128 + d as i128, self.tuning.output_limit);

        self.integral = i;
        self.previous_error = error;
        Some(Correction { proportional: p as i64, integral: i, derivative: d, output })
    }
}

/// At every control step the integral term, the derivative term and the
/// output are within their limits, whatever the memory, the measurement and
/// the time step.
pub proof fn lemma_correction_within_limits(
    tuning: Tuning,
    integral: int,
    previous_error: int,
    measurement: int,
    dt: int,
)
    ensures
        magnitude(correction_of(tuning, integral, previous_error, measurement, dt).1)
            <= tuning.i_limit,
        magnitude(correction_of(tuning, integral, previous_error, measurement, dt).2)
            <= tuning.d_limit,
        magnitude(correction_of(tuning, integral, previous_error, measurement, dt).3)
            <= tuning.output_limit,
{
    let error = error_of(tuning, measurement);
    let p = proportional_of(tuning, error);
    let i = integral_of(tuning, integral, error, dt);
    let d = derivative_of(tuning, previous_error, error, dt);
    lemma_clamp_sym_bounds(
        integral + trunc_div(tuning.ki * error * dt, MICRO_NANOS as int),
        tuning.i_limit as int,
    );
    lemma_clamp_sym_bounds(
        trunc_div(tuning.kd * (error - previous_error) * NANOS_PER_SECOND, MICRO * dt),
        tuning.d_limit as int,
    );
    lemma_clamp_sym_bounds(p + i + d, tuning.output_limit as int);
}

} // verus!
