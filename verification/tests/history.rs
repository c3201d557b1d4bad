use co2_sensor::history::{History, Trend};

const SEC: u64 = 1_000_000;

#[test]
fn new_history_is_empty() {
    let h = History::new();
    assert_eq!(h.len(), 0);
    assert!(h.is_empty());
    assert_eq!(h.average(), None);
    assert_eq!(h.trend(5000), Trend::Flat);
    assert!(h.points_oldest_first().is_empty());
}

#[test]
fn default_history_is_empty() {
    let h = History::default();
    assert!(h.is_empty());
}

#[test]
fn readings_within_a_bucket_store_nothing() {
    let mut h = History::starting_at(0);
    h.push(800, 5 * SEC);
    h.push(900, 29 * SEC + 999_999);
    assert_eq!(h.len(), 0);
    assert_eq!(h.average(), None);
}

#[test]
fn closing_a_bucket_stores_its_mean() {
    let mut h = History::starting_at(0);
    h.push(1000, 10 * SEC);
    h.push(1100, 30 * SEC);
    assert_eq!(h.len(), 1);
    assert!(!h.is_empty());
    assert_eq!(h.points_oldest_first(), vec![1050]);
    assert_eq!(h.average(), Some(1050));
}

#[test]
fn bucket_mean_rounds_down() {
    let mut h = History::starting_at(0);
    h.push(1, SEC);
    h.push(2, 2 * SEC);
    h.push(2, 40 * SEC);
    // (1 + 2 + 2) / 3 = 1
    assert_eq!(h.points_oldest_first(), vec![1]);
}

#[test]
fn new_bucket_starts_at_closing_time() {
    let mut h = History::starting_at(0);
    h.push(500, 30 * SEC);
    // Next bucket started at 30 s: a reading at 59 s does not close it.
    h.push(700, 59 * SEC);
    assert_eq!(h.len(), 1);
    h.push(900, 60 * SEC);
    assert_eq!(h.points_oldest_first(), vec![500, 800]);
}

#[test]
fn keeps_only_the_newest_sixty_points() {
    let mut h = History::starting_at(0);
    let mut t = 0;
    for i in 0..70u16 {
        t += 30 * SEC;
        h.push(400 + i, t);
    }
    assert_eq!(h.len(), 60);
    let pts = h.points_oldest_first();
    assert_eq!(pts.len(), 60);
    assert_eq!(pts[0], 410);
    assert_eq!(pts[59], 469);
    for w in pts.windows(2) {
        assert_eq!(w[1], w[0] + 1);
    }
}

#[test]
fn average_is_floor_of_mean() {
    let mut h = History::starting_at(0);
    h.push(1000, 30 * SEC);
    h.push(1001, 60 * SEC);
    assert_eq!(h.average(), Some(1000));
    h.push(1003, 90 * SEC);
    assert_eq!(h.average(), Some(1001));
}

#[test]
fn average_of_max_readings_fits() {
    let mut h = History::starting_at(0);
    let mut t = 0;
    for _ in 0..60 {
        t += 30 * SEC;
        h.push(u16::MAX, t);
    }
    assert_eq!(h.average(), Some(u16::MAX));
}

#[test]
fn trend_uses_oldest_point_and_deadband() {
    let mut h = History::starting_at(0);
    h.push(1000, 30 * SEC);
    h.push(2000, 60 * SEC);
    assert_eq!(h.trend(1030), Trend::Flat);
    assert_eq!(h.trend(1031), Trend::Up);
    assert_eq!(h.trend(970), Trend::Flat);
    assert_eq!(h.trend(969), Trend::Down);
    assert_eq!(h.trend(0), Trend::Down);
}

#[test]
fn accepts_rejects_time_going_backwards() {
    let mut h = History::starting_at(100 * SEC);
    assert!(!h.accepts(400, 99 * SEC));
    assert!(h.accepts(400, 100 * SEC));
    h.push(400, 100 * SEC);
    assert_eq!(h.len(), 0);
}

#[test]
fn default_behaves_like_new() {
    let mut a = History::new();
    let mut b = History::default();
    let base = 1_000_000 * SEC;
    for (i, co2) in [700u16, 900, 1300, 800].iter().enumerate() {
        let t = base + (i as u64) * 30 * SEC;
        a.push(*co2, t);
        b.push(*co2, t);
        assert_eq!(a.len(), b.len());
        assert_eq!(a.points_oldest_first(), b.points_oldest_first());
        assert_eq!(a.average(), b.average());
        assert_eq!(a.trend(1000), b.trend(1000));
    }
    assert_eq!(a.points_oldest_first(), vec![700, 900, 1300, 800]);
}
