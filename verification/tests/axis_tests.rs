use esp_turret::actuator::{pulse_half_period_micros, ActuationCommand, MotorActuator};
use esp_turret::angle::CalibrationPoint;
use esp_turret::axis::{error_to_speed, manual_speed_hz, AxisController, AxisMode, DecoderConfig};

fn position_hold_axis(target_millideg: i64, measured_millideg: i64) -> AxisController {
    AxisController {
        mode: AxisMode::PositionHold,
        target_angle_millideg: target_millideg,
        target_velocity_hz: 0,
        manual_input_milli: 0,
        measured_angle_millideg: measured_millideg,
        config: DecoderConfig::Reference { adc_min: 0, adc_max: 4095, adc_reference: 1000 },
        // gear ratio 1.0 so the measured angle is used as-is
        actuator: MotorActuator { forward: true, running: false, speed_hz: 0, gear_ratio_milli: 1000 },
    }
}

#[test]
fn dead_zone_stops_the_motor() {
    // |error| = 0.5 degrees: inside the one-degree dead zone
    let axis = position_hold_axis(90_000, 89_500);
    assert_eq!(axis.control_action(), ActuationCommand::Stop);
    let axis = position_hold_axis(90_000, 90_500);
    assert_eq!(axis.control_action(), ActuationCommand::Stop);
    // exactly one degree still stops
    let axis = position_hold_axis(90_000, 89_000);
    assert_eq!(axis.control_action(), ActuationCommand::Stop);
}

#[test]
fn zero_error_stops_without_direction_change() {
    let axis = position_hold_axis(90_000, 90_000);
    assert_eq!(axis.control_action(), ActuationCommand::Stop);
}

#[test]
fn ten_degree_error_commands_maximum_speed_forward() {
    // target 90 degrees, gear-corrected measurement 80 degrees
    let axis = position_hold_axis(90_000, 80_000);
    assert_eq!(
        axis.control_action(),
        ActuationCommand::Run { forward: true, speed_hz: 1000 }
    );
}

#[test]
fn speed_saturates_beyond_ten_degrees() {
    for measured in [10_000i64, 40_000, 79_000] {
        let axis = position_hold_axis(90_000, measured);
        assert_eq!(
            axis.control_action(),
            ActuationCommand::Run { forward: true, speed_hz: 1000 },
            "measured {measured}"
        );
    }
}

#[test]
fn negative_error_runs_in_reverse() {
    // measured past the target by 5 degrees
    let axis = position_hold_axis(90_000, 95_000);
    assert_eq!(
        axis.control_action(),
        ActuationCommand::Run { forward: false, speed_hz: 500 }
    );
}

#[test]
fn error_wraps_the_short_way_across_zero() {
    // target 10 degrees, measured 350 degrees: the short way is +20 degrees
    let axis = position_hold_axis(10_000, 350_000);
    assert_eq!(
        axis.control_action(),
        ActuationCommand::Run { forward: true, speed_hz: 1000 }
    );
}

#[test]
fn gear_ratio_scales_the_measured_angle() {
    // gear 1/5: motor-shaft 100 degrees is output-shaft 20 degrees
    let mut axis = position_hold_axis(20_000, 100_000);
    axis.actuator.gear_ratio_milli = 200;
    assert_eq!(axis.control_action(), ActuationCommand::Stop);
}

#[test]
fn error_to_speed_follows_the_ramp() {
    assert_eq!(error_to_speed(0), 0);
    assert_eq!(error_to_speed(1_000), 0);
    assert_eq!(error_to_speed(1_001), 100);
    assert_eq!(error_to_speed(5_500), 550);
    assert_eq!(error_to_speed(9_999), 999);
    assert_eq!(error_to_speed(10_000), 1000);
    assert_eq!(error_to_speed(300_000), 1000);
}

#[test]
fn velocity_hold_clamps_into_device_limits() {
    let mut axis = position_hold_axis(0, 0);
    axis.mode = AxisMode::VelocityHold;

    axis.target_velocity_hz = 0;
    assert_eq!(axis.control_action(), ActuationCommand::Stop);

    axis.target_velocity_hz = 50;
    assert_eq!(
        axis.control_action(),
        ActuationCommand::Run { forward: true, speed_hz: 100 }
    );

    axis.target_velocity_hz = 500;
    assert_eq!(
        axis.control_action(),
        ActuationCommand::Run { forward: true, speed_hz: 500 }
    );

    axis.target_velocity_hz = 5_000;
    assert_eq!(
        axis.control_action(),
        ActuationCommand::Run { forward: true, speed_hz: 1000 }
    );

    axis.target_velocity_hz = -2_000;
    assert_eq!(
        axis.control_action(),
        ActuationCommand::Run { forward: false, speed_hz: 1000 }
    );
}

#[test]
fn manual_dead_zone_stops() {
    let mut axis = position_hold_axis(0, 0);
    axis.mode = AxisMode::Manual;
    for input in [0i32, 50, 100, -100, -30] {
        axis.manual_input_milli = input;
        assert_eq!(axis.control_action(), ActuationCommand::Stop, "input {input}");
    }
}

#[test]
fn manual_full_deflection_runs_at_a_quarter_second_per_revolution() {
    let mut axis = position_hold_axis(0, 0);
    axis.mode = AxisMode::Manual;
    // 200 pulses per revolution over 250 ms per revolution: 800 Hz
    axis.manual_input_milli = 1000;
    assert_eq!(
        axis.control_action(),
        ActuationCommand::Run { forward: true, speed_hz: 800 }
    );
    axis.manual_input_milli = -1000;
    assert_eq!(
        axis.control_action(),
        ActuationCommand::Run { forward: false, speed_hz: 800 }
    );
}

#[test]
fn manual_speed_slows_toward_the_dead_zone_edge() {
    // just past the dead zone: close to ten seconds per revolution
    assert_eq!(manual_speed_hz(101), 20);
    assert_eq!(manual_speed_hz(1000), 800);
    assert!(manual_speed_hz(550) > manual_speed_hz(200));
}

#[test]
fn set_position_target_normalizes_into_one_turn() {
    let mut axis = AxisController::new(
        DecoderConfig::Reference { adc_min: 0, adc_max: 4095, adc_reference: 1000 },
        1000,
    );
    axis.set_position_target(370_000);
    assert_eq!(axis.mode, AxisMode::PositionHold);
    assert_eq!(axis.target_angle_millideg, 10_000);
    axis.set_position_target(-10_000);
    assert_eq!(axis.target_angle_millideg, 350_000);
}

#[test]
fn step_on_a_degenerate_calibration_holds_the_previous_state() {
    let p = CalibrationPoint { sample: 7, angle_millideg: 0 };
    let mut axis = AxisController::new(DecoderConfig::TwoPoint { low: p, high: p }, 1000);
    axis.set_position_target(90_000);
    let before = axis;
    let outcome = axis.step(2000);
    assert!(outcome.is_err());
    assert_eq!(axis, before);
}

#[test]
fn actuator_start_retunes_while_running() {
    let mut motor = MotorActuator::new(200);
    motor.start(400);
    assert!(motor.running);
    assert_eq!(motor.speed_hz, 400);
    motor.start(700);
    assert!(motor.running);
    assert_eq!(motor.speed_hz, 700);
    motor.stop();
    assert!(!motor.running);
    motor.stop();
    assert!(!motor.running);
}

#[test]
fn pulse_half_period_matches_the_frequency() {
    assert_eq!(pulse_half_period_micros(1000), 500);
    assert_eq!(pulse_half_period_micros(100), 5_000);
    assert_eq!(pulse_half_period_micros(1), 500_000);
}
