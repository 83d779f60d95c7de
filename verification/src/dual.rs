//! The dual-axis controller: owns the azimuth and elevation axes, exposes
//! the command-side entry points that retarget them, and runs the periodic
//! control tick that decodes both sensors and issues one actuation command
//! per axis.
//!
//! Faults are isolated between axes: each axis's tick outcome is a function
//! of that axis's own state and sample alone, and idling one axis after a
//! hardware fault leaves the other untouched.

use crate::actuator::ActuationCommand;
use crate::angle::{CalibrationPoint, DomainError};
use crate::axis::AxisController;
use vstd::prelude::*;

verus! {

/// Selects one of the two axes.
#[derive(Clone, Copy, PartialEq, Eq, Structural, Debug)]
pub enum Axis {
    Azimuth,
    Elevation,
}

/// What one control tick produced for each axis: an actuation command to
/// perform, or the decode error that made the axis hold its previous
/// command.
#[derive(Clone, Copy, Debug)]
pub struct TickOutcome {
    pub azimuth: Result<ActuationCommand, DomainError>,
    pub elevation: Result<ActuationCommand, DomainError>,
}

/// Both axes of the turret drive.
#[derive(Clone, Copy, PartialEq, Eq, Structural, Debug)]
pub struct DualAxisController {
    pub azimuth: AxisController,
    pub elevation: AxisController,
}

impl DualAxisController {
    /// Both axes keep their internal invariants.
    pub open spec fn wf(self) -> bool {
        self.azimuth.wf() && self.elevation.wf()
    }

    /// Builds the controller from two configured axes.
    pub fn new(azimuth: AxisController, elevation: AxisController) -> (c: DualAxisController)
        requires
            azimuth.wf(),
            elevation.wf(),
        ensures
            c == (DualAxisController { azimuth, elevation }),
    {
        DualAxisController { azimuth, elevation }
    }

    /// Puts both axes in position hold at the given targets; targets are
    /// normalized into one turn, and otherwise accepted as given.
    pub fn set_position_targets(&mut self, azimuth_millideg: i64, elevation_millideg: i64)
        requires
            old(self).wf(),
        ensures
            final(self).wf(),
            *final(self) == (DualAxisController {
                azimuth: old(self).azimuth.spec_with_position_target(azimuth_millideg as int),
                elevation: old(self).elevation.spec_with_position_target(
                    elevation_millideg as int,
                ),
            }),
    {
        self.azimuth.set_position_target(azimuth_millideg);
        self.elevation.set_position_target(elevation_millideg);
    }

    /// Puts both axes in open-loop velocity hold at the given signed speeds.
    pub fn set_velocity_targets(&mut self, azimuth_velocity_hz: i64, elevation_velocity_hz: i64)
        requires
            old(self).wf(),
        ensures
            final(self).wf(),
            *final(self) == (DualAxisController {
                azimuth: old(self).azimuth.spec_with_velocity_target(azimuth_velocity_hz),
                elevation: old(self).elevation.spec_with_velocity_target(elevation_velocity_hz),
            }),
    {
        self.azimuth.set_velocity_target(azimuth_velocity_hz);
        self.elevation.set_velocity_target(elevation_velocity_hz);
    }

    /// Puts both axes under manual stick control.
    pub fn manual_control(&mut self, azimuth_input_milli: i32, elevation_input_milli: i32)
        requires
            old(self).wf(),
            -1000 <= azimuth_input_milli <= 1000,
            -1000 <= elevation_input_milli <= 1000,
        ensures
            final(self).wf(),
            *final(self) == (DualAxisController {
                azimuth: old(self).azimuth.spec_with_manual_input(azimuth_input_milli),
                elevation: old(self).elevation.spec_with_manual_input(elevation_input_milli),
            }),
    {
        self.azimuth.set_manual_input(azimuth_input_milli);
        self.elevation.set_manual_input(elevation_input_milli);
    }

    /// The last decoded measured angle of each axis, in millidegrees; reads
    /// the most recent tick's values without forcing a sensor read.
    pub fn get_position(&self) -> (r: (i64, i64))
        ensures
            r.0 == self.azimuth.measured_angle_millideg,
            r.1 == self.elevation.measured_angle_millideg,
    {
        (self.azimuth.measured_angle_millideg, self.elevation.measured_angle_millideg)
    }

    /// The last commanded signed velocity of each axis, in hertz; zero for
    /// a halted axis.
    pub fn get_velocity(&self) -> (r: (i64, i64))
        ensures
            r.0 == self.azimuth.actuator.spec_signed_velocity(),
            r.1 == self.elevation.actuator.spec_signed_velocity(),
    {
        (self.azimuth.actuator.signed_velocity(), self.elevation.actuator.signed_velocity())
    }

    /// Installs a two-point calibration on one axis, switching it out of
    /// reference mode; the other axis is untouched.
    pub fn set_calibration(&mut self, axis: Axis, low: CalibrationPoint, high: CalibrationPoint)
        requires
            old(self).wf(),
            low.wf(),
            high.wf(),
        ensures
            final(self).wf(),
            axis == Axis::Azimuth ==> *final(self) == (DualAxisController {
                azimuth: old(self).azimuth.spec_with_calibration(low, high),
                ..*old(self)
            }),
            axis == Axis::Elevation ==> *final(self) == (DualAxisController {
                elevation: old(self).elevation.spec_with_calibration(low, high),
                ..*old(self)
            }),
    {
        match axis {
            Axis::Azimuth => self.azimuth.set_calibration(low, high),
            Axis::Elevation => self.elevation.set_calibration(low, high),
        }
    }

    /// One control iteration: decodes both sensor samples (azimuth first),
    /// runs each axis's control law and applies the commands to the motor
    /// models. Each axis's outcome is a function of that axis's own state
    /// and sample alone, so a failure on one axis never withholds the other
    /// axis's command.
    pub fn tick(&mut self, azimuth_sample: u16, elevation_sample: u16) -> (outcome: TickOutcome)
        requires
            old(self).wf(),
        ensures
            final(self).wf(),
            final(self).azimuth == old(self).azimuth.spec_step(azimuth_sample).0,
            outcome.azimuth == old(self).azimuth.spec_step(azimuth_sample).1,
            final(self).elevation == old(self).elevation.spec_step(elevation_sample).0,
            outcome.elevation == old(self).elevation.spec_step(elevation_sample).1,
    {
        let azimuth = self.azimuth.step(azimuth_sample);
        let elevation = self.elevation.step(elevation_sample);
        TickOutcome { azimuth, elevation }
    }

    /// Forces both axes to idle and halts both motor models; the control
    /// loops keep running.
    pub fn stop_all(&mut self)
        requires
            old(self).wf(),
        ensures
            final(self).wf(),
            *final(self) == (DualAxisController {
                azimuth: old(self).azimuth.spec_idled(),
                elevation: old(self).elevation.spec_idled(),
            }),
    {
        self.azimuth.make_idle();
        self.elevation.make_idle();
    }

    /// Fail-safe reaction to a hardware actuation fault on one axis: that
    /// axis is forced to idle and not retried until a new command re-arms
    /// it; the other axis is exactly unchanged.
    pub fn actuation_failed(&mut self, axis: Axis)
        requires
            old(self).wf(),
        ensures
            final(self).wf(),
            axis == Axis::Azimuth ==> *final(self) == (DualAxisController {
                azimuth: old(self).azimuth.spec_idled(),
                ..*old(self)
            }),
            axis == Axis::Elevation ==> *final(self) == (DualAxisController {
                elevation: old(self).elevation.spec_idled(),
                ..*old(self)
            }),
    {
        match axis {
            Axis::Azimuth => self.azimuth.make_idle(),
            Axis::Elevation => self.elevation.make_idle(),
        }
    }
}

/// Fault isolation between axes: an axis's tick outcome depends only on
/// that axis's own state and sample. Two controllers that agree on the
/// elevation axis — however their azimuth axes differ, including one whose
/// azimuth was idled by an injected actuation fault — produce the same
/// elevation state and the same elevation actuation command in the same
/// tick; symmetrically for azimuth.
pub proof fn lemma_axis_fault_isolation(
    c1: DualAxisController,
    c2: DualAxisController,
    azimuth_sample: u16,
    elevation_sample: u16,
)
    ensures
        c1.elevation == c2.elevation ==> c1.elevation.spec_step(elevation_sample)
            == c2.elevation.spec_step(elevation_sample),
        c1.azimuth == c2.azimuth ==> c1.azimuth.spec_step(azimuth_sample) == c2.azimuth.spec_step(
            azimuth_sample,
        ),
{
}

} // verus!
