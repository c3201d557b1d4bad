use co2_sensor::config::{ALTITUDE, AUTOMATIC_SELF_CALIBRATION};
use co2_sensor::sensor::{
    first_action, next_action, next_test_co2, xorshift32, Outcome, SensorAction, SensorSettings,
};

fn settings(auto: Option<bool>, offset: bool) -> SensorSettings {
    SensorSettings { altitude: ALTITUDE, auto_calibration: auto, has_temperature_offset: offset }
}

#[test]
fn start_up_sequence_with_configured_settings() {
    let s = settings(AUTOMATIC_SELF_CALIBRATION, false);
    let mut a = first_action();
    let mut seen = vec![a];
    for _ in 0..14 {
        let outcome = if a == SensorAction::RunSelfTest { Outcome::Yes } else { Outcome::Done };
        a = next_action(a, outcome, s);
        seen.push(a);
    }
    assert_eq!(
        seen,
        vec![
            SensorAction::AnnounceInit,
            SensorAction::StopPeriodic,
            SensorAction::SettleAfterStop,
            SensorAction::Reinit,
            SensorAction::SettleAfterReinit,
            SensorAction::SetAltitude(500),
            SensorAction::ReadAutoCalibration,
            SensorAction::ReadAltitude,
            SensorAction::ReadTemperatureOffset,
            SensorAction::AnnounceSelfTest,
            SensorAction::ReadSerial,
            SensorAction::RunSelfTest,
            SensorAction::AnnounceWarmingUp,
            SensorAction::StartPeriodic,
            SensorAction::WaitForData,
        ]
    );
}

#[test]
fn optional_settings_are_written_when_configured() {
    let s = settings(Some(true), true);
    let a = next_action(SensorAction::SetAltitude(500), Outcome::Done, s);
    assert_eq!(a, SensorAction::SetAutoCalibration(true));
    let a = next_action(a, Outcome::Done, s);
    assert_eq!(a, SensorAction::SetTemperatureOffset);
    let a = next_action(a, Outcome::Done, s);
    assert_eq!(a, SensorAction::ReadAutoCalibration);
}

#[test]
fn stopping_a_measurement_may_fail() {
    let s = settings(None, false);
    assert_eq!(
        next_action(SensorAction::StopPeriodic, Outcome::Failed, s),
        SensorAction::SettleAfterStop
    );
}

#[test]
fn read_backs_may_fail() {
    let s = settings(None, false);
    assert_eq!(
        next_action(SensorAction::ReadAutoCalibration, Outcome::Failed, s),
        SensorAction::ReadAltitude
    );
    assert_eq!(
        next_action(SensorAction::ReadSerial, Outcome::Failed, s),
        SensorAction::RunSelfTest
    );
}

#[test]
fn required_steps_fail_hard() {
    let s = settings(Some(false), true);
    for a in [
        SensorAction::Reinit,
        SensorAction::SetAltitude(500),
        SensorAction::SetAutoCalibration(false),
        SensorAction::SetTemperatureOffset,
        SensorAction::StartPeriodic,
        SensorAction::ReadMeasurement,
    ] {
        assert_eq!(next_action(a, Outcome::Failed, s), SensorAction::Fail);
    }
    assert_eq!(next_action(SensorAction::RunSelfTest, Outcome::No, s), SensorAction::Fail);
    assert_eq!(next_action(SensorAction::RunSelfTest, Outcome::Failed, s), SensorAction::Fail);
    assert_eq!(next_action(SensorAction::Fail, Outcome::Yes, s), SensorAction::Fail);
}

#[test]
fn polling_loop() {
    let s = settings(None, false);
    assert_eq!(next_action(SensorAction::WaitForData, Outcome::Done, s), SensorAction::CheckDataReady);
    assert_eq!(next_action(SensorAction::CheckDataReady, Outcome::No, s), SensorAction::WaitForData);
    assert_eq!(
        next_action(SensorAction::CheckDataReady, Outcome::Failed, s),
        SensorAction::WaitForData
    );
    assert_eq!(
        next_action(SensorAction::CheckDataReady, Outcome::Yes, s),
        SensorAction::ReadMeasurement
    );
    assert_eq!(
        next_action(SensorAction::ReadMeasurement, Outcome::Done, s),
        SensorAction::PublishMeasurement
    );
    assert_eq!(
        next_action(SensorAction::PublishMeasurement, Outcome::Done, s),
        SensorAction::WaitForData
    );
}

fn reference_xorshift(state: &mut i16) -> i16 {
    let mut x = *state;
    x ^= x.overflowing_shl(13).0;
    x ^= x.overflowing_shr(17).0;
    x ^= x.overflowing_shl(5).0;
    *state = x;
    x
}

#[test]
fn xorshift_matches_overflowing_shifts() {
    let mut a: i16 = 10;
    let mut b: i16 = 10;
    for _ in 0..1000 {
        assert_eq!(xorshift32(&mut a), reference_xorshift(&mut b));
        assert_eq!(a, b);
    }
}

#[test]
fn xorshift_first_value() {
    let mut s: i16 = 10;
    // 10 ^ (10 << 13) = 10 ^ 0x4000 = 0x400a; ^ (0x400a >> 1) = 0x400a ^ 0x2005 = 0x600f;
    // ^ (0x600f << 5) = 0x600f ^ 0x01e0 = 0x61ef
    assert_eq!(xorshift32(&mut s), 0x61ef);
    assert_eq!(s, 0x61ef);
}

#[test]
fn synthetic_reading_moves_by_remainder() {
    assert_eq!(next_test_co2(1000, 0x61ef), 1015);
    assert_eq!(next_test_co2(1000, -17), 999);
    assert_eq!(next_test_co2(1000, 32), 1000);
}

#[test]
fn announcements_come_in_order() {
    let s = settings(Some(true), true);
    let mut a = first_action();
    let mut published = vec![];
    let outcomes = [Outcome::Done, Outcome::Yes, Outcome::No, Outcome::Failed];
    for step in 0..200usize {
        match a {
            SensorAction::AnnounceInit => published.push("init"),
            SensorAction::AnnounceSelfTest => published.push("self test"),
            SensorAction::AnnounceWarmingUp => published.push("warming up"),
            SensorAction::PublishMeasurement => published.push("data"),
            _ => {}
        }
        let outcome = match a {
            SensorAction::RunSelfTest | SensorAction::CheckDataReady => {
                if step % 3 == 0 { Outcome::No } else { Outcome::Yes }
            }
            SensorAction::ReadMeasurement => outcomes[0],
            _ => outcomes[step % 2],
        };
        let outcome = if a == SensorAction::RunSelfTest { Outcome::Yes } else { outcome };
        a = next_action(a, outcome, s);
    }
    assert!(published.len() > 4);
    assert_eq!(&published[..3], &["init", "self test", "warming up"]);
    assert!(published[3..].iter().all(|p| *p == "data"));
}
