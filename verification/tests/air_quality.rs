use co2_sensor::air_quality::AirQuality;
use co2_sensor::config::{CO2_POOR, CO2_VENTILATE};

#[test]
fn from_co2_below_ventilate_is_good() {
    assert_eq!(AirQuality::from_co2(0), AirQuality::Good);
    assert_eq!(AirQuality::from_co2(420), AirQuality::Good);
    assert_eq!(AirQuality::from_co2(CO2_VENTILATE - 1), AirQuality::Good);
}

#[test]
fn from_co2_at_ventilate_threshold() {
    assert_eq!(AirQuality::from_co2(1000), AirQuality::Ventilate);
    assert_eq!(AirQuality::from_co2(1499), AirQuality::Ventilate);
}

#[test]
fn from_co2_at_poor_threshold() {
    assert_eq!(AirQuality::from_co2(CO2_POOR), AirQuality::Poor);
    assert_eq!(AirQuality::from_co2(1500), AirQuality::Poor);
    assert_eq!(AirQuality::from_co2(u16::MAX), AirQuality::Poor);
}

fn severity(q: AirQuality) -> u8 {
    match q {
        AirQuality::Good => 0,
        AirQuality::Ventilate => 1,
        AirQuality::Poor => 2,
    }
}

#[test]
fn from_co2_is_monotone_on_samples() {
    let mut prev = severity(AirQuality::from_co2(0));
    let mut co2: u32 = 0;
    while co2 <= u16::MAX as u32 {
        let s = severity(AirQuality::from_co2(co2 as u16));
        assert!(s >= prev);
        prev = s;
        co2 += 7;
    }
}
