//! Per-axis motor actuation model.
//!
//! A motor is driven by a direction line and a continuous pulse train whose
//! frequency sets the speed. The library computes the desired actuator state
//! and hands out `ActuationCommand` values; the embedding translates them
//! into hardware pulse-generator calls. `MotorActuator` mirrors the logical
//! state of that pulse generator so the control law can be verified against
//! it.

use vstd::prelude::*;

verus! {

/// Lowest pulse frequency the control law commands, in hertz.
pub const MIN_SPEED_HZ: u32 = 100;

/// Highest pulse frequency the control law commands, in hertz.
pub const MAX_SPEED_HZ: u32 = 1000;

/// Largest gear ratio accepted at construction, in thousandths.
pub const MAX_GEAR_RATIO_MILLI: u32 = 1_000_000;

/// Hardware-level actuation failure reported by the motor driver.
#[derive(Clone, Copy, PartialEq, Eq, Structural, Debug)]
pub enum ActuationError {
    /// The direction line or the pulse generator rejected a command.
    HardwareFault,
}

/// One actuation request, produced by a control tick and consumed by the
/// hardware layer; transient, never stored.
#[derive(Clone, Copy, PartialEq, Eq, Structural, Debug)]
pub enum ActuationCommand {
    /// Halt pulsing.
    Stop,
    /// Pulse at `speed_hz` in the given rotation sense.
    Run { forward: bool, speed_hz: u32 },
}

/// Logical state of one motor: rotation sense, whether a pulse train is
/// active, its frequency, and the fixed gear ratio between the motor shaft
/// and the sensed output shaft (in thousandths).
#[derive(Clone, Copy, PartialEq, Eq, Structural, Debug)]
pub struct MotorActuator {
    pub forward: bool,
    pub running: bool,
    pub speed_hz: u32,
    pub gear_ratio_milli: u32,
}

impl MotorActuator {
    /// The gear ratio is positive and bounded; it is fixed at construction.
    pub open spec fn wf(self) -> bool {
        1 <= self.gear_ratio_milli <= MAX_GEAR_RATIO_MILLI
    }

    /// The actuator state after an actuation command is performed.
    pub open spec fn spec_apply(self, cmd: ActuationCommand) -> MotorActuator {
        match cmd {
            ActuationCommand::Stop => MotorActuator { running: false, speed_hz: 0, ..self },
            ActuationCommand::Run { forward, speed_hz } => MotorActuator {
                forward,
                running: true,
                speed_hz,
                ..self
            },
        }
    }

    /// The last commanded velocity, signed by rotation sense; zero when halted.
    pub open spec fn spec_signed_velocity(self) -> int {
        if self.running {
            if self.forward {
                self.speed_hz as int
            } else {
                -(self.speed_hz as int)
            }
        } else {
            0
        }
    }

    /// A new motor is halted, facing forward, with the given gear ratio.
    pub fn new(gear_ratio_milli: u32) -> (m: MotorActuator)
        requires
            1 <= gear_ratio_milli <= MAX_GEAR_RATIO_MILLI,
        ensures
            m == (MotorActuator { forward: true, running: false, speed_hz: 0, gear_ratio_milli }),
    {
        MotorActuator { forward: true, running: false, speed_hz: 0, gear_ratio_milli }
    }

    /// Sets the rotation sense; no implicit motion.
    pub fn set_direction(&mut self, forward: bool)
        ensures
            *final(self) == (MotorActuator { forward, ..*old(self) }),
    {
        self.forward = forward;
    }

    /// Begins or retunes continuous pulsing at the given frequency; callable
    /// while already running.
    pub fn start(&mut self, speed_hz: u32)
        requires
            speed_hz >= 1,
        ensures
            *final(self) == (MotorActuator { running: true, speed_hz, ..*old(self) }),
    {
        self.running = true;
        self.speed_hz = speed_hz;
    }

    /// Halts pulsing; idempotent.
    pub fn stop(&mut self)
        ensures
            *final(self) == (MotorActuator { running: false, speed_hz: 0, ..*old(self) }),
    {
        self.running = false;
        self.speed_hz = 0;
    }

    /// Performs one actuation command on the model.
    pub fn apply(&mut self, cmd: ActuationCommand)
        ensures
            *final(self) == old(self).spec_apply(cmd),
    {
        match cmd {
            ActuationCommand::Stop => self.stop(),
            ActuationCommand::Run { forward, speed_hz } => {
                self.set_direction(forward);
                self.running = true;
                self.speed_hz = speed_hz;
            },
        }
    }

    /// Read-only gear ratio in thousandths, fixed at construction.
    pub fn gear_ratio_milli(&self) -> (g: u32)
        ensures
            g == self.gear_ratio_milli,
    {
        self.gear_ratio_milli
    }

    /// The last commanded velocity, signed by rotation sense; zero when halted.
    pub fn signed_velocity(&self) -> (v: i64)
        ensures
            v == self.spec_signed_velocity(),
    {
        if self.running {
            if self.forward {
                self.speed_hz as i64
            } else {
                -(self.speed_hz as i64)
            }
        } else {
            0
        }
    }
}

/// Half-period of a square pulse train at the given frequency, in
/// microseconds: the hardware pulse generator is programmed with one high
/// and one low pulse of this duration per cycle.
pub fn pulse_half_period_micros(frequency_hz: u64) -> (half_period: u64)
    requires
        1 <= frequency_hz <= 500_000,
    ensures
        half_period == 1_000_000int / (2 * frequency_hz),
        half_period >= 1,
{
    proof {
        vstd::arithmetic::div_mod::lemma_div_non_zero(1_000_000, 2 * frequency_hz);
    }
    1_000_000 / (2 * frequency_hz)
}

} // verus!
