use co2_sensor::air_quality::AirQuality;
use co2_sensor::display::boot_animation::BootAnimation;
use co2_sensor::display::{
    boot_screen, calibration_text, decimal_digits, measurement_screen, sparkline_bars,
    status_text, Area, Bar, BootScreen, BootStatus, Pixel, UNIT_W,
};
use co2_sensor::state::SensorPhase;

fn graph() -> Area {
    Area { x: 70, y: 6, width: 52, height: 25 }
}

#[test]
fn decimal_digits_writes_numbers() {
    assert_eq!(decimal_digits(0), b"0".to_vec());
    assert_eq!(decimal_digits(7), b"7".to_vec());
    assert_eq!(decimal_digits(10), b"10".to_vec());
    assert_eq!(decimal_digits(415), b"415".to_vec());
    assert_eq!(decimal_digits(65535), b"65535".to_vec());
    for n in [1u16, 99, 100, 999, 1000, 9999, 12345] {
        assert_eq!(decimal_digits(n), n.to_string().into_bytes());
    }
}

#[test]
fn measurement_screen_good_air() {
    let s = measurement_screen(415);
    assert_eq!(s.quality, AirQuality::Good);
    assert!(!s.inverted);
    assert!(!s.border);
    assert_eq!(s.value, b"415".to_vec());
    assert_eq!(s.unit_x, 38);
    assert_eq!(s.graph, graph());
}

#[test]
fn measurement_screen_ventilate_has_border() {
    let s = measurement_screen(1200);
    assert_eq!(s.quality, AirQuality::Ventilate);
    assert!(!s.inverted);
    assert!(s.border);
    assert_eq!(s.unit_x, 48);
}

#[test]
fn measurement_screen_poor_is_inverted() {
    let s = measurement_screen(2500);
    assert_eq!(s.quality, AirQuality::Poor);
    assert!(s.inverted);
    assert!(s.border);
    assert_eq!(s.value, b"2500".to_vec());
}

#[test]
fn sparkline_empty_history_draws_no_bar() {
    assert!(sparkline_bars(&vec![], graph()).is_empty());
}

#[test]
fn sparkline_too_small_area_draws_no_bar() {
    let tiny = Area { x: 0, y: 0, width: 2, height: 10 };
    assert!(sparkline_bars(&vec![500], tiny).is_empty());
}

#[test]
fn sparkline_single_point_is_at_right_edge() {
    // inner area: x 71..=120, y 7..=29
    let v = sparkline_bars(&vec![400], graph());
    assert_eq!(v, vec![Bar { x: 120, top: 29, bottom: 29 }]);
    let v = sparkline_bars(&vec![2000], graph());
    assert_eq!(v, vec![Bar { x: 120, top: 7, bottom: 29 }]);
}

#[test]
fn sparkline_clamps_readings_to_scale() {
    let v = sparkline_bars(&vec![0, 5000], graph());
    assert_eq!(v[0].top, 29);
    assert_eq!(v[1].top, 7);
}

#[test]
fn sparkline_exact_positions() {
    let v = sparkline_bars(&vec![1200, 800], graph());
    // columns: 71 + (58 * 49) / 59 = 119, 71 + (59 * 49) / 59 = 120
    // tops: 29 - (800 * 22) / 1600 = 18, 29 - (400 * 22) / 1600 = 24
    assert_eq!(
        v,
        vec![Bar { x: 119, top: 18, bottom: 29 }, Bar { x: 120, top: 24, bottom: 29 }]
    );
}

#[test]
fn sparkline_full_history_spans_width() {
    let pts: Vec<u16> = (0..60).map(|i| 400 + 20 * i).collect();
    let v = sparkline_bars(&pts, graph());
    assert_eq!(v.len(), 60);
    assert_eq!(v[0].x, 71);
    assert_eq!(v[59].x, 120);
    for w in v.windows(2) {
        assert!(w[0].x <= w[1].x);
        assert!(w[0].top >= w[1].top);
    }
    for b in &v {
        assert!(71 <= b.x && b.x <= 120 && 7 <= b.top && b.top <= b.bottom && b.bottom == 29);
    }
}

#[test]
fn five_digit_value_keeps_clear_of_graph() {
    let s = measurement_screen(12345);
    assert_eq!(s.value, b"12345".to_vec());
    assert_eq!(s.unit_x, 58);
    assert_eq!(s.graph, Area { x: 80, y: 6, width: 42, height: 25 });
    assert!(s.unit_x + UNIT_W <= s.graph.x);
    let s = measurement_screen(9999);
    assert_eq!(s.graph, graph());
    assert!(s.unit_x + UNIT_W <= s.graph.x);
}

#[test]
fn boot_frame_layout() {
    let b = BootAnimation::new();
    let f = b.frame();
    assert_eq!(f.title, "CO2 Sensor");
    assert_eq!(f.title_at, Pixel { x: 64, y: 18 });
    assert_eq!(f.status_at, Pixel { x: 64, y: 54 });
    assert_eq!(f.circle_at, Pixel { x: 56, y: 28 });
    assert_eq!(f.circle_diameter, 16);
    assert_eq!(f.circle_stroke, 1);
    assert_eq!(f.hand_from, Pixel { x: 64, y: 36 });
    assert_eq!(f.hand_to, Pixel { x: 64, y: 30 });
    assert_eq!(f.hand_stroke, 2);
}

#[test]
fn boot_animation_steps_clockwise() {
    let mut b = BootAnimation::new();
    let first = b.spinner_hand();
    assert_eq!(first, Pixel { x: 0, y: -6 });
    b.advance();
    assert_eq!(b.spinner_hand(), Pixel { x: 4, y: -4 });
    assert_eq!(b.frame().hand_to, Pixel { x: 68, y: 32 });
    b.advance();
    assert_eq!(b.spinner_hand(), Pixel { x: 6, y: 0 });
    for _ in 0..6 {
        b.advance();
    }
    assert_eq!(b.spinner_hand(), first);
}

#[test]
fn boot_animation_holds_until_advanced() {
    let b = BootAnimation::new();
    assert_eq!(b.spinner_hand(), b.spinner_hand());
    assert_eq!(b.frame().hand_to, b.frame().hand_to);
}

#[test]
fn boot_screens_for_each_phase() {
    assert_eq!(boot_screen(SensorPhase::Booting), BootScreen::Spinner(BootStatus::Booting));
    assert_eq!(
        boot_screen(SensorPhase::SensorInit),
        BootScreen::Spinner(BootStatus::StartingSensor)
    );
    assert_eq!(boot_screen(SensorPhase::SelfTest), BootScreen::SelfTest);
    assert_eq!(boot_screen(SensorPhase::WarmingUp), BootScreen::Spinner(BootStatus::WarmingUp));
    assert_eq!(boot_screen(SensorPhase::Data), BootScreen::Measurements);
    assert_eq!(boot_screen(SensorPhase::Error), BootScreen::Unchanged);
}

#[test]
fn status_and_calibration_texts() {
    assert_eq!(status_text(BootStatus::Booting), "booting");
    assert_eq!(status_text(BootStatus::StartingSensor), "starting sensor");
    assert_eq!(status_text(BootStatus::WarmingUp), "warmup");
    assert_eq!(calibration_text(true), "on");
    assert_eq!(calibration_text(false), "off");
}
