use esp_turret::actuator::{ActuationCommand, ActuationError};
use esp_turret::angle::CalibrationPoint;
use esp_turret::axis::{AxisController, AxisMode, DecoderConfig};
use esp_turret::dual::{Axis, DualAxisController};

fn reference_axis() -> AxisController {
    AxisController::new(
        DecoderConfig::Reference { adc_min: 0, adc_max: 4095, adc_reference: 1000 },
        1000,
    )
}

fn controller() -> DualAxisController {
    DualAxisController::new(reference_axis(), reference_axis())
}

#[test]
fn tick_updates_measured_angles_for_both_axes() {
    let mut ctrl = controller();
    let outcome = ctrl.tick(3047, 999);
    // idle axes stop, but the measurements are refreshed
    assert_eq!(outcome.azimuth, Ok(ActuationCommand::Stop));
    assert_eq!(outcome.elevation, Ok(ActuationCommand::Stop));
    assert_eq!(ctrl.get_position(), (179_912, 359_912));
}

#[test]
fn position_hold_tick_issues_the_expected_command() {
    let mut ctrl = controller();
    // exact two-point calibration: sample 800 measures 80 degrees
    ctrl.set_calibration(
        Axis::Azimuth,
        CalibrationPoint { sample: 0, angle_millideg: 0 },
        CalibrationPoint { sample: 1000, angle_millideg: 100_000 },
    );
    ctrl.set_position_targets(90_000, 0);
    let outcome = ctrl.tick(800, 1000);
    // azimuth error is 10 degrees: full speed forward
    assert_eq!(
        outcome.azimuth,
        Ok(ActuationCommand::Run { forward: true, speed_hz: 1000 })
    );
    // elevation sits on its target: stop
    assert_eq!(outcome.elevation, Ok(ActuationCommand::Stop));
}

#[test]
fn a_decode_failure_on_one_axis_leaves_the_other_axis_served() {
    let mut ctrl = controller();
    let degenerate = CalibrationPoint { sample: 5, angle_millideg: 0 };
    ctrl.set_calibration(Axis::Azimuth, degenerate, degenerate);
    ctrl.set_position_targets(90_000, 90_000);

    let before_azimuth_measured = ctrl.get_position().0;
    // elevation sample 1000 measures 0 degrees: 90 degrees short of its target
    let outcome = ctrl.tick(2000, 1000);

    // azimuth decode fails and holds its previous measurement
    assert!(outcome.azimuth.is_err());
    assert_eq!(ctrl.get_position().0, before_azimuth_measured);

    // elevation still gets its command in the same tick
    assert_eq!(
        outcome.elevation,
        Ok(ActuationCommand::Run { forward: true, speed_hz: 1000 })
    );
}

#[test]
fn an_actuation_fault_on_azimuth_spares_elevation_in_the_same_tick() {
    let mut ctrl = controller();
    ctrl.set_velocity_targets(400, -300);
    let outcome = ctrl.tick(1000, 1000);

    // both commands were issued by the tick
    assert_eq!(
        outcome.azimuth,
        Ok(ActuationCommand::Run { forward: true, speed_hz: 400 })
    );
    assert_eq!(
        outcome.elevation,
        Ok(ActuationCommand::Run { forward: false, speed_hz: 300 })
    );

    // the azimuth hardware rejects its command; the axis fails safe
    let _injected = ActuationError::HardwareFault;
    let elevation_before = ctrl.elevation;
    ctrl.actuation_failed(Axis::Azimuth);

    assert_eq!(ctrl.azimuth.mode, AxisMode::Idle);
    assert!(!ctrl.azimuth.actuator.running);
    // the elevation axis is exactly unchanged and keeps running
    assert_eq!(ctrl.elevation, elevation_before);
    assert!(ctrl.elevation.actuator.running);
    assert_eq!(ctrl.get_velocity(), (0, -300));
}

#[test]
fn a_faulted_axis_stays_idle_until_a_new_command_rearms_it() {
    let mut ctrl = controller();
    ctrl.set_velocity_targets(400, 400);
    ctrl.tick(1000, 1000);
    ctrl.actuation_failed(Axis::Azimuth);

    // the next tick does not retry the faulted axis
    let outcome = ctrl.tick(1000, 1000);
    assert_eq!(outcome.azimuth, Ok(ActuationCommand::Stop));

    // an explicit new command re-arms it
    ctrl.set_velocity_targets(200, 200);
    let outcome = ctrl.tick(1000, 1000);
    assert_eq!(
        outcome.azimuth,
        Ok(ActuationCommand::Run { forward: true, speed_hz: 200 })
    );
}

#[test]
fn get_velocity_reports_signed_speeds() {
    let mut ctrl = controller();
    assert_eq!(ctrl.get_velocity(), (0, 0));
    ctrl.set_velocity_targets(250, -700);
    ctrl.tick(1000, 1000);
    assert_eq!(ctrl.get_velocity(), (250, -700));
}

#[test]
fn stop_all_idles_both_axes() {
    let mut ctrl = controller();
    ctrl.set_velocity_targets(500, 500);
    ctrl.tick(1000, 1000);
    ctrl.stop_all();
    assert_eq!(ctrl.azimuth.mode, AxisMode::Idle);
    assert_eq!(ctrl.elevation.mode, AxisMode::Idle);
    assert_eq!(ctrl.get_velocity(), (0, 0));
}

#[test]
fn manual_control_moves_both_axes() {
    let mut ctrl = controller();
    ctrl.manual_control(1000, -1000);
    let outcome = ctrl.tick(1000, 1000);
    assert_eq!(
        outcome.azimuth,
        Ok(ActuationCommand::Run { forward: true, speed_hz: 800 })
    );
    assert_eq!(
        outcome.elevation,
        Ok(ActuationCommand::Run { forward: false, speed_hz: 800 })
    );
}

#[test]
fn set_calibration_switches_only_the_selected_axis() {
    let mut ctrl = controller();
    let low = CalibrationPoint { sample: 0, angle_millideg: 0 };
    let high = CalibrationPoint { sample: 1000, angle_millideg: 100_000 };
    ctrl.set_calibration(Axis::Elevation, low, high);
    assert_eq!(ctrl.elevation.config, DecoderConfig::TwoPoint { low, high });
    assert_eq!(
        ctrl.azimuth.config,
        DecoderConfig::Reference { adc_min: 0, adc_max: 4095, adc_reference: 1000 }
    );
}
