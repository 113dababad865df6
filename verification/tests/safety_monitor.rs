//! Tests of safety monitor.

use isochron::safety::monitor::{SafetyMonitor, SafetyStatus, HEARTBEAT_TIMEOUT_MS};
use isochron::state::machine::ErrorKind;

#[test]
fn test_normal_operation() {
    let mut monitor = SafetyMonitor::new();
    monitor.update_temperature(Some(450)); // 45.0°C
    assert_eq!(monitor.check(), SafetyStatus::Nominal);
}

#[test]
fn test_over_temperature() {
    let mut monitor = SafetyMonitor::new();
    monitor.update_temperature(Some(560)); // 56.0°C > 55°C
    assert_eq!(
        monitor.check(),
        SafetyStatus::Fault(ErrorKind::OverTemperature)
    );
}

#[test]
fn test_sensor_fault() {
    let mut monitor = SafetyMonitor::new();
    monitor.update_temperature(None);
    assert_eq!(
        monitor.check(),
        SafetyStatus::Fault(ErrorKind::ThermistorFault)
    );
}

#[test]
fn test_motor_stall() {
    let mut monitor = SafetyMonitor::new();
    monitor.update_temperature(Some(400));
    monitor.update_motor_stall(true);
    assert_eq!(
        monitor.check(),
        SafetyStatus::Fault(ErrorKind::MotorStall)
    );
}

#[test]
fn test_link_lost() {
    let mut monitor = SafetyMonitor::new();
    monitor.update_temperature(Some(400));

    // Miss 3 heartbeats
    for _ in 0..3 {
        monitor.update_time(HEARTBEAT_TIMEOUT_MS);
    }

    assert_eq!(
        monitor.check(),
        SafetyStatus::Fault(ErrorKind::LinkLost)
    );
}

#[test]
fn test_heartbeat_resets_counter() {
    let mut monitor = SafetyMonitor::new();

    // Miss 2 heartbeats
    monitor.update_time(HEARTBEAT_TIMEOUT_MS);
    monitor.update_time(HEARTBEAT_TIMEOUT_MS);
    assert_eq!(monitor.get_missed_heartbeats(), 2);

    // Receive heartbeat
    monitor.heartbeat_received();
    assert_eq!(monitor.get_missed_heartbeats(), 0);
    assert!(monitor.is_link_healthy());
}
