//! Closed-loop control law for one axis.
//!
//! An `AxisController` holds the shared per-axis state: the control mode,
//! the active target, the last measured angle, the decoder configuration
//! and the motor model. Each control step decodes a fresh sensor sample,
//! evaluates the control law for the current mode and produces one
//! actuation command.

use crate::actuator::{
    ActuationCommand, MotorActuator, MAX_GEAR_RATIO_MILLI, MAX_SPEED_HZ, MIN_SPEED_HZ,
};
use crate::angle::{
    calculate_degrees, decode_two_point, lemma_decode_reference_range, spec_decode_reference,
    spec_decode_two_point, CalibrationPoint, DomainError, DECODED_ANGLE_LIMIT, MILLIDEG_PER_TURN,
};
use vstd::arithmetic::div_mod::{
    lemma_div_nonincreasing, lemma_div_pos_is_pos, lemma_fundamental_div_mod, lemma_mod_bound,
    lemma_multiply_divide_le,
};
use vstd::prelude::*;

verus! {

/// Error magnitude (millidegrees) at or below which position hold issues no
/// actuation, preventing hunting around the target.
pub const DEAD_ZONE_MILLIDEG: i64 = 1_000;

/// Error magnitude (millidegrees) at or above which position hold commands
/// the maximum speed.
pub const SATURATION_MILLIDEG: i64 = 10_000;

/// Slope of the position-hold speed law: millidegrees of error per hertz of
/// commanded speed between the dead zone and saturation.
pub const MILLIDEG_PER_HZ: i64 = 10;

/// Manual stick deflection (thousandths) at or below which the axis stops.
pub const MANUAL_DEAD_ZONE_MILLI: i32 = 100;

/// Slowest manual speed: milliseconds per revolution at the dead-zone edge.
pub const MANUAL_SLOW_MS_PER_REV: i64 = 10_000;

/// Fastest manual speed: milliseconds per revolution at full deflection.
pub const MANUAL_FAST_MS_PER_REV: i64 = 250;

/// Pulses the motor needs for one full revolution, used to convert a
/// revolution period into a pulse frequency.
pub const PULSES_PER_REV: i64 = 200;

/// Control mode of one axis; transitions are driven only by commands.
#[derive(Clone, Copy, PartialEq, Eq, Structural, Debug)]
pub enum AxisMode {
    /// No actuation; every tick stops the motor.
    Idle,
    /// Closed-loop hold of a target angle.
    PositionHold,
    /// Open-loop drive at a commanded signed speed.
    VelocityHold,
    /// Direct stick control, dead-zoned and mapped to a revolution period.
    Manual,
}

/// How raw samples of this axis decode into angles.
#[derive(Clone, Copy, PartialEq, Eq, Structural, Debug)]
pub enum DecoderConfig {
    /// Wraparound decoding against a reference sample within a sample range.
    Reference { adc_min: u16, adc_max: u16, adc_reference: u16 },
    /// Affine decoding through two calibration points, no wraparound.
    TwoPoint { low: CalibrationPoint, high: CalibrationPoint },
}

impl DecoderConfig {
    /// Calibration angles are normalized; sample ranges carry no constraint.
    pub open spec fn wf(self) -> bool {
        match self {
            DecoderConfig::Reference { .. } => true,
            DecoderConfig::TwoPoint { low, high } => low.wf() && high.wf(),
        }
    }

    /// Whether decoding succeeds: the configuration spans at least two
    /// distinct samples.
    pub open spec fn spec_valid(self) -> bool {
        match self {
            DecoderConfig::Reference { adc_min, adc_max, .. } => adc_min < adc_max,
            DecoderConfig::TwoPoint { low, high } => low.sample != high.sample,
        }
    }

    /// The decoded angle for a sample, meaningful when `spec_valid()`.
    pub open spec fn spec_decoded(self, sample: u16) -> int {
        match self {
            DecoderConfig::Reference { adc_min, adc_max, adc_reference } => spec_decode_reference(
                adc_min,
                adc_max,
                sample,
                adc_reference,
            ),
            DecoderConfig::TwoPoint { low, high } => spec_decode_two_point(low, high, sample),
        }
    }

    /// The error reported when the configuration is not valid.
    pub open spec fn spec_decode_error(self) -> DomainError {
        match self {
            DecoderConfig::Reference { .. } => DomainError::EmptySpan,
            DecoderConfig::TwoPoint { .. } => DomainError::EqualCalibrationSamples,
        }
    }

    /// Decodes one raw sample, failing exactly when the configuration is
    /// degenerate.
    pub fn decode(&self, sample: u16) -> (r: Result<i64, DomainError>)
        requires
            self.wf(),
        ensures
            r is Ok <==> self.spec_valid(),
            r matches Ok(a) ==> a == self.spec_decoded(sample) && -DECODED_ANGLE_LIMIT < a
                < DECODED_ANGLE_LIMIT,
            r matches Err(e) ==> e == self.spec_decode_error(),
    {
        match self {
            DecoderConfig::Reference { adc_min, adc_max, adc_reference } => {
                proof {
                    if *adc_min < *adc_max {
                        lemma_decode_reference_range(*adc_min, *adc_max, sample, *adc_reference);
                    }
                }
                calculate_degrees(*adc_min, *adc_max, sample, *adc_reference)
            },
            DecoderConfig::TwoPoint { low, high } => decode_two_point(*low, *high, sample),
        }
    }
}

/// Gear-corrected measured angle: the motor-shaft angle scaled by the gear
/// ratio into the output-shaft frame the targets are expressed in.
pub open spec fn spec_gear_corrected(measured_millideg: int, gear_ratio_milli: int) -> int {
    measured_millideg * gear_ratio_milli / 1000
}

/// Wraps an angle difference into `(-180, 180]` degrees so the controller
/// always turns the short way.
pub open spec fn spec_wrap_error(e: int) -> int {
    let m = e % (MILLIDEG_PER_TURN as int);
    if m > 180_000 {
        m - MILLIDEG_PER_TURN
    } else {
        m
    }
}

/// Position-hold error: target minus gear-corrected measured angle, wrapped
/// the short way.
pub open spec fn spec_position_error(
    target_millideg: int,
    measured_millideg: int,
    gear_ratio_milli: int,
) -> int {
    spec_wrap_error(target_millideg - spec_gear_corrected(measured_millideg, gear_ratio_milli))
}

/// The error-to-speed law: zero inside the dead zone, the maximum speed at
/// or beyond saturation, and a linear ramp between the two.
pub open spec fn spec_error_to_speed(err_abs_millideg: int) -> int {
    if err_abs_millideg <= DEAD_ZONE_MILLIDEG {
        0
    } else if err_abs_millideg >= SATURATION_MILLIDEG {
        MAX_SPEED_HZ as int
    } else {
        MIN_SPEED_HZ + (err_abs_millideg - DEAD_ZONE_MILLIDEG) / (MILLIDEG_PER_HZ as int)
    }
}

/// Magnitude of a commanded velocity clamped into the device speed limits;
/// meaningful for a nonzero commanded velocity.
pub open spec fn spec_clamp_velocity_magnitude(velocity_hz: int) -> int {
    let m = if velocity_hz >= 0 {
        velocity_hz
    } else {
        -velocity_hz
    };
    if m < MIN_SPEED_HZ {
        MIN_SPEED_HZ as int
    } else if m > MAX_SPEED_HZ {
        MAX_SPEED_HZ as int
    } else {
        m
    }
}

/// Manual-mode revolution period in milliseconds for a stick magnitude in
/// thousandths, linearly interpolated from slow at the dead-zone edge to
/// fast at full deflection.
pub open spec fn spec_manual_ms_per_rev(mag_milli: int) -> int {
    MANUAL_SLOW_MS_PER_REV - (MANUAL_SLOW_MS_PER_REV - MANUAL_FAST_MS_PER_REV) * (mag_milli
        - MANUAL_DEAD_ZONE_MILLI) / (1000 - MANUAL_DEAD_ZONE_MILLI)
}

/// Manual-mode pulse frequency: pulses per revolution over the revolution
/// period.
pub open spec fn spec_manual_speed_hz(mag_milli: int) -> int {
    PULSES_PER_REV * 1000 / spec_manual_ms_per_rev(mag_milli)
}

/// Shared state of one axis: mode, targets, last measurement, decoder
/// configuration and motor model.
#[derive(Clone, Copy, PartialEq, Eq, Structural, Debug)]
pub struct AxisController {
    pub mode: AxisMode,
    /// Position-hold target, normalized to `[0, 360)` degrees.
    pub target_angle_millideg: i64,
    /// Velocity-hold signed target in hertz.
    pub target_velocity_hz: i64,
    /// Manual stick deflection in thousandths of full scale.
    pub manual_input_milli: i32,
    /// Last successfully decoded angle; held across failed decodes.
    pub measured_angle_millideg: i64,
    pub config: DecoderConfig,
    pub actuator: MotorActuator,
}

impl AxisController {
    /// Internal invariant: every field stays inside the range the control
    /// law computes with.
    pub open spec fn wf(self) -> bool {
        &&& 0 <= self.target_angle_millideg < MILLIDEG_PER_TURN
        &&& -1000 <= self.manual_input_milli <= 1000
        &&& -DECODED_ANGLE_LIMIT < self.measured_angle_millideg < DECODED_ANGLE_LIMIT
        &&& self.config.wf()
        &&& self.actuator.wf()
    }

    /// The wrapped position-hold error of this state.
    pub open spec fn spec_error(self) -> int {
        spec_position_error(
            self.target_angle_millideg as int,
            self.measured_angle_millideg as int,
            self.actuator.gear_ratio_milli as int,
        )
    }

    /// The actuation command the control law issues for this state.
    pub open spec fn spec_control_action(self) -> ActuationCommand {
        match self.mode {
            AxisMode::Idle => ActuationCommand::Stop,
            AxisMode::PositionHold => {
                let e = self.spec_error();
                let speed = spec_error_to_speed(
                    if e >= 0 {
                        e
                    } else {
                        -e
                    },
                );
                if speed == 0 {
                    ActuationCommand::Stop
                } else {
                    ActuationCommand::Run { forward: e > 0, speed_hz: speed as u32 }
                }
            },
            AxisMode::VelocityHold => {
                if self.target_velocity_hz == 0 {
                    ActuationCommand::Stop
                } else {
                    ActuationCommand::Run {
                        forward: self.target_velocity_hz > 0,
                        speed_hz: spec_clamp_velocity_magnitude(
                            self.target_velocity_hz as int,
                        ) as u32,
                    }
                }
            },
            AxisMode::Manual => {
                let i = self.manual_input_milli;
                if -MANUAL_DEAD_ZONE_MILLI <= i <= MANUAL_DEAD_ZONE_MILLI {
                    ActuationCommand::Stop
                } else {
                    ActuationCommand::Run {
                        forward: i > 0,
                        speed_hz: spec_manual_speed_hz(
                            if i >= 0 {
                                i as int
                            } else {
                                -i as int
                            },
                        ) as u32,
                    }
                }
            },
        }
    }

    /// This state retargeted to position hold, the target normalized into
    /// one turn.
    pub open spec fn spec_with_position_target(self, target_millideg: int) -> AxisController {
        AxisController {
            mode: AxisMode::PositionHold,
            target_angle_millideg: (target_millideg % (MILLIDEG_PER_TURN as int)) as i64,
            ..self
        }
    }

    /// This state retargeted to velocity hold.
    pub open spec fn spec_with_velocity_target(self, velocity_hz: i64) -> AxisController {
        AxisController { mode: AxisMode::VelocityHold, target_velocity_hz: velocity_hz, ..self }
    }

    /// This state switched to manual control.
    pub open spec fn spec_with_manual_input(self, input_milli: i32) -> AxisController {
        AxisController { mode: AxisMode::Manual, manual_input_milli: input_milli, ..self }
    }

    /// This state forced to idle with the motor model halted.
    pub open spec fn spec_idled(self) -> AxisController {
        AxisController {
            mode: AxisMode::Idle,
            actuator: self.actuator.spec_apply(ActuationCommand::Stop),
            ..self
        }
    }

    /// This state with a two-point calibration installed.
    pub open spec fn spec_with_calibration(
        self,
        low: CalibrationPoint,
        high: CalibrationPoint,
    ) -> AxisController {
        AxisController { config: DecoderConfig::TwoPoint { low, high }, ..self }
    }

    /// The state and result of one control step on a fresh sample: a valid
    /// decode updates the measurement, runs the control law and applies the
    /// command to the motor model; a failed decode leaves everything as it
    /// was and reports the error.
    pub open spec fn spec_step(self, sample: u16) -> (AxisController, Result<
        ActuationCommand,
        DomainError,
    >) {
        if self.config.spec_valid() {
            let updated = AxisController {
                measured_angle_millideg: self.config.spec_decoded(sample) as i64,
                ..self
            };
            let cmd = updated.spec_control_action();
            (AxisController { actuator: updated.actuator.spec_apply(cmd), ..updated }, Ok(cmd))
        } else {
            (self, Err(self.config.spec_decode_error()))
        }
    }

    /// A fresh axis: idle, zero targets, measurement at zero, motor halted.
    pub fn new(config: DecoderConfig, gear_ratio_milli: u32) -> (c: AxisController)
        requires
            config.wf(),
            1 <= gear_ratio_milli <= MAX_GEAR_RATIO_MILLI,
        ensures
            c == (AxisController {
                mode: AxisMode::Idle,
                target_angle_millideg: 0,
                target_velocity_hz: 0,
                manual_input_milli: 0,
                measured_angle_millideg: 0,
                config,
                actuator: MotorActuator {
                    forward: true,
                    running: false,
                    speed_hz: 0,
                    gear_ratio_milli,
                },
            }),
            c.wf(),
    {
        AxisController {
            mode: AxisMode::Idle,
            target_angle_millideg: 0,
            target_velocity_hz: 0,
            manual_input_milli: 0,
            measured_angle_millideg: 0,
            config,
            actuator: MotorActuator::new(gear_ratio_milli),
        }
    }

    /// Switches to position hold with the target normalized into one turn.
    pub fn set_position_target(&mut self, target_millideg: i64)
        requires
            old(self).wf(),
        ensures
            *final(self) == old(self).spec_with_position_target(target_millideg as int),
            final(self).wf(),
    {
        proof {
            lemma_mod_bound(target_millideg as int, MILLIDEG_PER_TURN as int);
        }
        self.mode = AxisMode::PositionHold;
        self.target_angle_millideg = target_millideg.checked_rem_euclid(MILLIDEG_PER_TURN).unwrap();
    }

    /// Switches to velocity hold at the commanded signed speed.
    pub fn set_velocity_target(&mut self, velocity_hz: i64)
        requires
            old(self).wf(),
        ensures
            *final(self) == old(self).spec_with_velocity_target(velocity_hz),
            final(self).wf(),
    {
        self.mode = AxisMode::VelocityHold;
        self.target_velocity_hz = velocity_hz;
    }

    /// Switches to manual control at the given stick deflection.
    pub fn set_manual_input(&mut self, input_milli: i32)
        requires
            old(self).wf(),
            -1000 <= input_milli <= 1000,
        ensures
            *final(self) == old(self).spec_with_manual_input(input_milli),
            final(self).wf(),
    {
        self.mode = AxisMode::Manual;
        self.manual_input_milli = input_milli;
    }

    /// Forces the axis to idle and halts the motor model; the fail-safe
    /// reaction to an actuation fault, and the explicit-stop transition.
    pub fn make_idle(&mut self)
        requires
            old(self).wf(),
        ensures
            *final(self) == old(self).spec_idled(),
            final(self).wf(),
    {
        self.mode = AxisMode::Idle;
        self.actuator.apply(ActuationCommand::Stop);
    }

    /// Replaces the decoder configuration with a two-point calibration.
    pub fn set_calibration(&mut self, low: CalibrationPoint, high: CalibrationPoint)
        requires
            old(self).wf(),
            low.wf(),
            high.wf(),
        ensures
            *final(self) == old(self).spec_with_calibration(low, high),
            final(self).wf(),
    {
        self.config = DecoderConfig::TwoPoint { low, high };
    }

    /// Computes the control law's actuation command for the current state.
    pub fn control_action(&self) -> (cmd: ActuationCommand)
        requires
            self.wf(),
        ensures
            cmd == self.spec_control_action(),
    {
        match self.mode {
            AxisMode::Idle => ActuationCommand::Stop,
            AxisMode::PositionHold => {
                let e = self.position_error();
                let e_abs: i64 = if e >= 0 {
                    e
                } else {
                    -e
                };
                let speed = error_to_speed(e_abs);
                if speed == 0 {
                    ActuationCommand::Stop
                } else {
                    ActuationCommand::Run { forward: e > 0, speed_hz: speed }
                }
            },
            AxisMode::VelocityHold => {
                let v = self.target_velocity_hz;
                if v == 0 {
                    ActuationCommand::Stop
                } else if v > 0 {
                    let m: u32 = if v > MAX_SPEED_HZ as i64 {
                        MAX_SPEED_HZ
                    } else if v < MIN_SPEED_HZ as i64 {
                        MIN_SPEED_HZ
                    } else {
                        v as u32
                    };
                    ActuationCommand::Run { forward: true, speed_hz: m }
                } else {
                    let m: u32 = if v < -(MAX_SPEED_HZ as i64) {
                        MAX_SPEED_HZ
                    } else if v > -(MIN_SPEED_HZ as i64) {
                        MIN_SPEED_HZ
                    } else {
                        (-v) as u32
                    };
                    ActuationCommand::Run { forward: false, speed_hz: m }
                }
            },
            AxisMode::Manual => {
                let i = self.manual_input_milli;
                if -MANUAL_DEAD_ZONE_MILLI <= i && i <= MANUAL_DEAD_ZONE_MILLI {
                    ActuationCommand::Stop
                } else {
                    let mag: i64 = if i >= 0 {
                        i as i64
                    } else {
                        -(i as i64)
                    };
                    ActuationCommand::Run { forward: i > 0, speed_hz: manual_speed_hz(mag) }
                }
            },
        }
    }

    /// One control step: decode the sample, update the measurement, run the
    /// control law and apply the command to the motor model. A failed
    /// decode changes nothing and reports the error, so the previous
    /// actuation is held.
    pub fn step(&mut self, sample: u16) -> (r: Result<ActuationCommand, DomainError>)
        requires
            old(self).wf(),
        ensures
            final(self).wf(),
            *final(self) == old(self).spec_step(sample).0,
            r == old(self).spec_step(sample).1,
    {
        match self.config.decode(sample) {
            Err(e) => Err(e),
            Ok(angle) => {
                self.measured_angle_millideg = angle;
                let cmd = self.control_action();
                self.actuator.apply(cmd);
                Ok(cmd)
            },
        }
    }

    /// The wrapped position-hold error for the current target and
    /// measurement.
    pub fn position_error(&self) -> (e: i64)
        requires
            self.wf(),
        ensures
            e == self.spec_error(),
            -180_000 < e <= 180_000,
    {
        proof {
            let measured = self.measured_angle_millideg as int;
            let gear = self.actuator.gear_ratio_milli as int;
            assert(-30_000_000_000_000_000 <= measured * gear <= 30_000_000_000_000_000)
                by (nonlinear_arith)
                requires
                    -30_000_000_000 < measured < 30_000_000_000,
                    1 <= gear <= 1_000_000,
            ;
        }
        let corrected_scaled: i64 = self.measured_angle_millideg
            * self.actuator.gear_ratio_milli as i64;
        proof {
            lemma_div_bound_wide(corrected_scaled as int);
        }
        let corrected: i64 = corrected_scaled.checked_div_euclid(1000).unwrap();
        let raw: i64 = self.target_angle_millideg - corrected;
        proof {
            lemma_mod_bound(raw as int, MILLIDEG_PER_TURN as int);
        }
        let m: i64 = raw.checked_rem_euclid(MILLIDEG_PER_TURN).unwrap();
        if m > 180_000 {
            m - MILLIDEG_PER_TURN
        } else {
            m
        }
    }
}

/// Bound on the gear division: a product of a decoded angle and a gear
/// ratio keeps a manageable magnitude after division by 1000.
proof fn lemma_div_bound_wide(x: int)
    requires
        -30_000_000_000_000_000 <= x <= 30_000_000_000_000_000,
    ensures
        -30_000_000_000_000_001 <= x / 1000 <= 30_000_000_000_000_000,
{
    lemma_fundamental_div_mod(x, 1000);
    lemma_mod_bound(x, 1000);
    let q = x / 1000;
    let r = x % 1000;
    assert(-30_000_000_000_000_001 <= q <= 30_000_000_000_000_000) by (nonlinear_arith)
        requires
            x == 1000 * q + r,
            0 <= r < 1000,
            -30_000_000_000_000_000 <= x <= 30_000_000_000_000_000,
    ;
}

/// The error-to-speed law on a nonnegative error magnitude.
pub fn error_to_speed(err_abs_millideg: i64) -> (speed: u32)
    requires
        0 <= err_abs_millideg,
    ensures
        speed == spec_error_to_speed(err_abs_millideg as int),
        speed == 0 || MIN_SPEED_HZ <= speed <= MAX_SPEED_HZ,
{
    if err_abs_millideg <= DEAD_ZONE_MILLIDEG {
        0
    } else if err_abs_millideg >= SATURATION_MILLIDEG {
        MAX_SPEED_HZ
    } else {
        proof {
            lemma_div_pos_is_pos(err_abs_millideg - DEAD_ZONE_MILLIDEG, MILLIDEG_PER_HZ as int);
            lemma_multiply_divide_le(
                err_abs_millideg - DEAD_ZONE_MILLIDEG,
                MILLIDEG_PER_HZ as int,
                900,
            );
        }
        let ramp: i64 = (err_abs_millideg - DEAD_ZONE_MILLIDEG).checked_div_euclid(
            MILLIDEG_PER_HZ,
        ).unwrap();
        MIN_SPEED_HZ + ramp as u32
    }
}

/// Manual-mode pulse frequency for a stick magnitude in thousandths.
pub fn manual_speed_hz(mag_milli: i64) -> (speed: u32)
    requires
        MANUAL_DEAD_ZONE_MILLI < mag_milli <= 1000,
    ensures
        speed == spec_manual_speed_hz(mag_milli as int),
        1 <= speed,
{
    let slope: i64 = MANUAL_SLOW_MS_PER_REV - MANUAL_FAST_MS_PER_REV;
    let denom: i64 = 1000 - MANUAL_DEAD_ZONE_MILLI as i64;
    proof {
        lemma_div_pos_is_pos(slope * (mag_milli - MANUAL_DEAD_ZONE_MILLI), denom as int);
        assert(slope * (mag_milli - MANUAL_DEAD_ZONE_MILLI) <= denom * slope) by (nonlinear_arith)
            requires
                slope == 9_750,
                denom == 900,
                MANUAL_DEAD_ZONE_MILLI < mag_milli <= 1000,
        ;
        lemma_multiply_divide_le(slope * (mag_milli - MANUAL_DEAD_ZONE_MILLI), denom as int, slope as int);
    }
    let reduction: i64 = (slope * (mag_milli - MANUAL_DEAD_ZONE_MILLI as i64)).checked_div_euclid(
        denom,
    ).unwrap();
    let ms_per_rev: i64 = MANUAL_SLOW_MS_PER_REV - reduction;
    proof {
        lemma_div_pos_is_pos(PULSES_PER_REV as int * 1000, ms_per_rev as int);
        lemma_div_nonincreasing(PULSES_PER_REV as int * 1000, ms_per_rev as int);
        vstd::arithmetic::div_mod::lemma_div_non_zero(
            PULSES_PER_REV as int * 1000,
            ms_per_rev as int,
        );
    }
    let speed: i64 = (PULSES_PER_REV * 1000).checked_div_euclid(ms_per_rev).unwrap();
    speed as u32
}

/// The wrapped error always turns the short way: it lands in
/// `(-180, 180]` degrees and differs from the raw angle difference by a
/// whole number of turns.
pub proof fn lemma_wrap_error_short_way(e: int)
    ensures
        -180_000 < spec_wrap_error(e) <= 180_000,
        (e - spec_wrap_error(e)) % (MILLIDEG_PER_TURN as int) == 0,
{
    let turn = MILLIDEG_PER_TURN as int;
    lemma_mod_bound(e, turn);
    lemma_fundamental_div_mod(e, turn);
    let q = e / turn;
    let m = e % turn;
    if m > 180_000 {
        assert(e - (m - turn) == turn * (q + 1)) by (nonlinear_arith)
            requires
                e == turn * q + m,
        ;
        vstd::arithmetic::div_mod::lemma_mod_multiples_basic(q + 1, turn);
    } else {
        assert(e - m == turn * q);
        vstd::arithmetic::div_mod::lemma_mod_multiples_basic(q, turn);
    }
}

/// Dead zone of the position-hold law: whenever the wrapped error has
/// magnitude at most one degree, the control law commands a stop, never a
/// pulse train.
pub proof fn lemma_position_dead_zone(c: AxisController)
    requires
        c.mode == AxisMode::PositionHold,
        -DEAD_ZONE_MILLIDEG <= c.spec_error() <= DEAD_ZONE_MILLIDEG,
    ensures
        c.spec_control_action() == ActuationCommand::Stop,
{
}

/// Saturation of the position-hold law: whenever the wrapped error has
/// magnitude at least ten degrees, the control law commands exactly the
/// maximum speed, however large the error grows.
pub proof fn lemma_position_saturation(c: AxisController)
    requires
        c.mode == AxisMode::PositionHold,
        c.spec_error() >= SATURATION_MILLIDEG || c.spec_error() <= -SATURATION_MILLIDEG,
    ensures
        c.spec_control_action() == (ActuationCommand::Run {
            forward: c.spec_error() > 0,
            speed_hz: MAX_SPEED_HZ,
        }),
{
}

} // verus!
