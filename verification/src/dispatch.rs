//! Command dispatch: routes one decoded command to the dual-axis
//! controller.
//!
//! The wire encoding of commands is an external collaborator: the transport
//! layer decodes a frame payload into a `Command` (or fails) before calling
//! in. A failed decode, or a command carrying values the model rejects,
//! yields `ProtocolError::Malformed`, changes nothing, and never stops the
//! ingest loop.

use crate::angle::CalibrationPoint;
use crate::dual::{Axis, DualAxisController};
use vstd::prelude::*;

verus! {

/// A typed remote command, decoded from one frame payload.
#[derive(Clone, Copy, PartialEq, Eq, Structural, Debug)]
pub enum Command {
    /// Put both axes in position hold at the given targets (millidegrees).
    SetPosition { azimuth_millideg: i64, elevation_millideg: i64 },
    /// Put both axes in velocity hold at the given signed speeds (hertz).
    SetVelocity { azimuth_velocity_hz: i64, elevation_velocity_hz: i64 },
    /// Query the last measured angles.
    GetPosition,
    /// Query the last commanded velocities.
    GetVelocity,
    /// Switch one axis to a two-point calibration.
    SetCalibration { axis: Axis, low: CalibrationPoint, high: CalibrationPoint },
}

/// Protocol-level failure; never fatal to the ingest loop.
#[derive(Clone, Copy, PartialEq, Eq, Structural, Debug)]
pub enum ProtocolError {
    /// The payload did not decode to a command, or carried values outside
    /// the model (a calibration angle not in `[0, 360)` degrees).
    Malformed,
}

/// The answer to a query command, to be written back on the transport.
#[derive(Clone, Copy, PartialEq, Eq, Structural, Debug)]
pub enum QueryResponse {
    /// Last measured angles, millidegrees per axis.
    Position { azimuth_millideg: i64, elevation_millideg: i64 },
    /// Last commanded signed velocities, hertz per axis.
    Velocity { azimuth_hz: i64, elevation_hz: i64 },
}

/// Whether a decoded command carries values the model accepts: calibration
/// points must hold normalized angles; every other command is total.
pub open spec fn spec_command_valid(cmd: Command) -> bool {
    match cmd {
        Command::SetCalibration { axis, low, high } => low.wf() && high.wf(),
        _ => true,
    }
}

/// Routes one decoded command to the controller.
///
/// `decoded` is `None` when the external payload decoder failed; that and a
/// command with out-of-model values yield `ProtocolError::Malformed` and
/// leave the controller untouched. A set-command retargets the controller
/// and answers nothing; a query leaves it untouched and answers with the
/// matching response.
pub fn dispatch(decoded: Option<Command>, controller: &mut DualAxisController) -> (r: Result<
    Option<QueryResponse>,
    ProtocolError,
>)
    requires
        old(controller).wf(),
    ensures
        final(controller).wf(),
        r is Ok <==> (decoded matches Some(cmd) && spec_command_valid(cmd)),
        r is Err ==> r == Err::<Option<QueryResponse>, ProtocolError>(ProtocolError::Malformed)
            && *final(controller) == *old(controller),
        decoded matches Some(cmd) ==> spec_command_valid(cmd) ==> match cmd {
            Command::SetPosition { azimuth_millideg, elevation_millideg } => {
                &&& *final(controller) == (DualAxisController {
                    azimuth: old(controller).azimuth.spec_with_position_target(
                        azimuth_millideg as int,
                    ),
                    elevation: old(controller).elevation.spec_with_position_target(
                        elevation_millideg as int,
                    ),
                })
                &&& r == Ok::<Option<QueryResponse>, ProtocolError>(None)
            },
            Command::SetVelocity { azimuth_velocity_hz, elevation_velocity_hz } => {
                &&& *final(controller) == (DualAxisController {
                    azimuth: old(controller).azimuth.spec_with_velocity_target(
                        azimuth_velocity_hz,
                    ),
                    elevation: old(controller).elevation.spec_with_velocity_target(
                        elevation_velocity_hz,
                    ),
                })
                &&& r == Ok::<Option<QueryResponse>, ProtocolError>(None)
            },
            Command::GetPosition => {
                &&& *final(controller) == *old(controller)
                &&& r == Ok::<Option<QueryResponse>, ProtocolError>(
                    Some(
                        QueryResponse::Position {
                            azimuth_millideg: old(controller).azimuth.measured_angle_millideg,
                            elevation_millideg: old(controller).elevation.measured_angle_millideg,
                        },
                    ),
                )
            },
            Command::GetVelocity => {
                &&& *final(controller) == *old(controller)
                &&& r == Ok::<Option<QueryResponse>, ProtocolError>(
                    Some(
                        QueryResponse::Velocity {
                            azimuth_hz: old(
                                controller,
                            ).azimuth.actuator.spec_signed_velocity() as i64,
                            elevation_hz: old(
                                controller,
                            ).elevation.actuator.spec_signed_velocity() as i64,
                        },
                    ),
                )
            },
            Command::SetCalibration { axis, low, high } => {
                &&& (axis == Axis::Azimuth ==> *final(controller) == (DualAxisController {
                    azimuth: old(controller).azimuth.spec_with_calibration(low, high),
                    ..*old(controller)
                }))
                &&& (axis == Axis::Elevation ==> *final(controller) == (DualAxisController {
                    elevation: old(controller).elevation.spec_with_calibration(low, high),
                    ..*old(controller)
                }))
                &&& r == Ok::<Option<QueryResponse>, ProtocolError>(None)
            },
        },
{
    match decoded {
        None => Err(ProtocolError::Malformed),
        Some(cmd) => match cmd {
            Command::SetPosition { azimuth_millideg, elevation_millideg } => {
                controller.set_position_targets(azimuth_millideg, elevation_millideg);
                Ok(None)
            },
            Command::SetVelocity { azimuth_velocity_hz, elevation_velocity_hz } => {
                controller.set_velocity_targets(azimuth_velocity_hz, elevation_velocity_hz);
                Ok(None)
            },
            Command::GetPosition => {
                let (azimuth_millideg, elevation_millideg) = controller.get_position();
                Ok(Some(QueryResponse::Position { azimuth_millideg, elevation_millideg }))
            },
            Command::GetVelocity => {
                let (azimuth_hz, elevation_hz) = controller.get_velocity();
                Ok(Some(QueryResponse::Velocity { azimuth_hz, elevation_hz }))
            },
            Command::SetCalibration { axis, low, high } => {
                if !(0 <= low.angle_millideg && low.angle_millideg < 360_000 && 0
                    <= high.angle_millideg && high.angle_millideg < 360_000) {
                    return Err(ProtocolError::Malformed);
                }
                controller.set_calibration(axis, low, high);
                Ok(None)
            },
        },
    }
}

} // verus!
