use onewire_uart::motor_control::{
    led_action, HeatingStatus, LedAction, MotorControl, MotorStatus, MAX_MOVE_TIME,
    STEP_MOVE_TIME,
};
use onewire_uart::ntc::to_millivolts;

#[test]
fn new_controller_is_idle() {
    let m = MotorControl::new();
    assert_eq!(m.status, MotorStatus::Off);
    assert_eq!(m.heating_status, HeatingStatus::Off);
    assert_eq!(m.pin_levels(), (false, false));
    assert!(m.can_move(MotorStatus::Opening));
}

#[test]
fn travel_count_limits_same_direction() {
    let mut m = MotorControl::new();
    assert!(m.start_move(MotorStatus::Opening, 100));
    assert_eq!(m.pin_levels(), (true, true));
    m.stop(113);
    assert_eq!(m.total_movement_time, 13);
    assert_eq!(m.last_move_status, MotorStatus::Opening);
    assert!(!m.can_move(MotorStatus::Opening));
    assert!(m.can_move(MotorStatus::Closing));
    assert!(!m.start_move(MotorStatus::Opening, 200));
    assert_eq!(m.status, MotorStatus::Off);
    assert!(m.start_move(MotorStatus::Closing, 200));
    assert_eq!(m.total_movement_time, 0);
    assert_eq!(m.pin_levels(), (true, false));
}

#[test]
fn stop_when_idle_keeps_count() {
    let mut m = MotorControl::new();
    m.open(10);
    m.stop(15);
    m.stop(40);
    assert_eq!(m.total_movement_time, 5);
    m.open(50);
    m.stop(52);
    assert_eq!(m.total_movement_time, 7);
}

#[test]
fn control_loop_rounds() {
    let mut m = MotorControl::new();
    assert_eq!(m.on_temperature(300, 0), Some(MAX_MOVE_TIME));
    assert_eq!(m.heating_status, HeatingStatus::Heating);
    m.stop(13);
    // too cold during heating: keep open
    assert_eq!(m.on_temperature(400, 20), None);
    // within band and warmer than last: one closing step
    assert_eq!(m.on_temperature(520, 30), Some(STEP_MOVE_TIME));
    assert_eq!(m.status, MotorStatus::Closing);
    assert_eq!(m.last_temp, 520);
    m.stop(31);
    // overheating: close fully, then cool
    assert_eq!(m.on_temperature(560, 40), Some(MAX_MOVE_TIME));
    assert_eq!(m.heating_status, HeatingStatus::Cooling);
    m.stop(53);
    assert_eq!(m.on_temperature(530, 60), None);
    assert_eq!(m.last_temp, 530);
    assert_eq!(m.on_temperature(490, 70), Some(MAX_MOVE_TIME));
    assert_eq!(m.heating_status, HeatingStatus::Heating);
    assert_eq!(m.status, MotorStatus::Opening);
}

#[test]
fn led_follows_status() {
    assert_eq!(led_action(MotorStatus::Closing), LedAction::SetLow);
    assert_eq!(led_action(MotorStatus::Opening), LedAction::Toggle);
    assert_eq!(led_action(MotorStatus::Off), LedAction::SetHigh);
}

#[test]
fn millivolts_from_reference() {
    assert_eq!(to_millivolts(1489, 1489), 1200);
    assert_eq!(to_millivolts(2048, 1500), 1638);
    assert_eq!(to_millivolts(0, 1500), 0);
    assert_eq!(to_millivolts(65535, 1), (65535u32 * 1200) as u16);
}

#[test]
fn move_motor_runs_and_stops() {
    let mut m = MotorControl::new();
    assert!(m.move_motor(MotorStatus::Opening, 100, 113));
    assert_eq!(m.status, MotorStatus::Off);
    assert_eq!(m.move_start, None);
    assert_eq!(m.pin_levels(), (false, false));
    assert_eq!(m.last_move_status, MotorStatus::Opening);
    assert_eq!(m.total_movement_time, 13);
    assert!(!m.move_motor(MotorStatus::Opening, 200, 213));
    assert_eq!(m.status, MotorStatus::Off);
    assert_eq!(m.total_movement_time, 13);
    assert!(m.move_motor(MotorStatus::Closing, 300, 305));
    assert_eq!(m.last_move_status, MotorStatus::Closing);
    assert_eq!(m.total_movement_time, 5);
    assert!(!m.move_motor(MotorStatus::Off, 400, 401));
    assert_eq!(m.total_movement_time, 5);
}

#[test]
fn step_move_runs_one_step() {
    let mut m = MotorControl::new();
    assert!(m.step_move(MotorStatus::Closing, 520, 10, 11));
    assert_eq!(m.status, MotorStatus::Off);
    assert_eq!(m.last_temp, 520);
    assert_eq!(m.total_movement_time, 1);
    assert_eq!(m.last_move_status, MotorStatus::Closing);
    assert!(m.step_move(MotorStatus::Closing, 530, 20, 21));
    assert_eq!(m.total_movement_time, 2);
    assert!(!m.step_move(MotorStatus::Off, 540, 30, 31));
    assert_eq!(m.last_temp, 530);
}
