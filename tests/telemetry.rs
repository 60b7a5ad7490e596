use iracing_overlays::telemetry::{IRacingLogging, SampleError, TickAction};

fn connected_at(t: u64) -> IRacingLogging<f32> {
    let mut s = IRacingLogging::new(0.0f32);
    assert_eq!(s.update_telemetry(t), TickAction::Connect);
    s.record_connect(true);
    s
}

#[test]
fn starts_disconnected_with_sentinels() {
    let mut s = IRacingLogging::new(0.0f32);
    assert!(!s.connected());
    assert_eq!(s.telemetry().speed, 0.0);
    assert_eq!(s.telemetry().lastlaptime, 0.0);
    assert_eq!(s.update_telemetry(1000), TickAction::Connect);
}

#[test]
fn failed_connect_is_retried_each_eligible_tick() {
    let mut s = IRacingLogging::new(0.0f32);
    assert_eq!(s.update_telemetry(0), TickAction::Connect);
    s.record_connect(false);
    assert_eq!(s.update_telemetry(10), TickAction::Idle);
    assert_eq!(s.update_telemetry(16), TickAction::Connect);
    s.record_connect(false);
    assert_eq!(s.update_telemetry(32), TickAction::Connect);
    s.record_connect(true);
    assert_eq!(s.update_telemetry(48), TickAction::Sample);
}

#[test]
fn ticks_closer_than_the_interval_attempt_once() {
    let mut s = connected_at(100);
    assert_eq!(s.update_telemetry(116), TickAction::Sample);
    s.record_sample(Err(SampleError::Timeout), Err(SampleError::Timeout));
    assert_eq!(s.update_telemetry(131), TickAction::Idle);
    assert_eq!(s.update_telemetry(120), TickAction::Idle);
    assert_eq!(s.update_telemetry(132), TickAction::Sample);
}

#[test]
fn values_read_overwrite_the_snapshot() {
    let mut s = connected_at(0);
    assert_eq!(s.update_telemetry(16), TickAction::Sample);
    s.record_sample(Ok(42.5), Ok(93.25));
    assert_eq!(s.telemetry().speed, 42.5);
    assert_eq!(s.telemetry().lastlaptime, 93.25);
}

#[test]
fn gaps_keep_the_last_value() {
    let mut s = connected_at(0);
    s.update_telemetry(16);
    s.record_sample(Ok(42.5), Ok(93.25));
    s.update_telemetry(32);
    s.record_sample(Err(SampleError::NotPresent), Err(SampleError::Timeout));
    assert_eq!(s.telemetry().speed, 42.5);
    assert_eq!(s.telemetry().lastlaptime, 93.25);
    assert!(s.connected());
    s.update_telemetry(48);
    s.record_sample(Ok(10.0), Err(SampleError::NotPresent));
    assert_eq!(s.telemetry().speed, 10.0);
    assert_eq!(s.telemetry().lastlaptime, 93.25);
}

#[test]
fn lost_connection_reconnects_and_keeps_values() {
    let mut s = connected_at(0);
    s.update_telemetry(16);
    s.record_sample(Ok(30.0), Ok(80.0));
    s.update_telemetry(32);
    s.record_sample(Err(SampleError::ConnectionLost), Err(SampleError::ConnectionLost));
    assert!(!s.connected());
    assert_eq!(s.telemetry().speed, 30.0);
    assert_eq!(s.telemetry().lastlaptime, 80.0);
    assert_eq!(s.update_telemetry(48), TickAction::Connect);
}
