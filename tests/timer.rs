use fcd::timer::{Timer, ROUND_MICROS};

fn text(t: &Timer) -> String {
    t.render().into_iter().collect()
}

#[test]
fn expiry_edge_is_reported_once() {
    let mut t = Timer::new();
    let mut edges = Vec::new();
    for _ in 0..6 {
        t.tick(2_000_000, true);
        edges.push(t.just_expired());
    }
    assert_eq!(edges, vec![false, false, true, false, false, false]);
    assert!(t.has_expired());
    assert_eq!(t.elapsed, ROUND_MICROS);
}

#[test]
fn exact_reach_sets_edge() {
    let mut t = Timer::with_duration(10);
    t.tick(4, true);
    assert!(!t.just_expired());
    t.tick(6, true);
    assert!(t.just_expired());
    assert_eq!(t.remaining(), 0);
}

#[test]
fn inactive_tick_does_not_advance() {
    let mut t = Timer::new();
    t.tick(1_000_000, false);
    assert_eq!(t.elapsed, 0);
    t.tick(1_000_000, true);
    t.tick(9_000_000, false);
    assert_eq!(t.elapsed, 1_000_000);
    assert!(!t.has_expired());
}

#[test]
fn reset_rearms_edge() {
    let mut t = Timer::new();
    t.tick(ROUND_MICROS, true);
    assert!(t.just_expired());
    t.reset();
    assert!(!t.just_expired());
    assert_eq!(t.elapsed, 0);
    t.tick(ROUND_MICROS, true);
    assert!(t.just_expired());
}

#[test]
fn render_seconds_and_hundredths() {
    let mut t = Timer::new();
    assert_eq!(text(&t), "05.00");
    t.tick(1_234_567, true);
    assert_eq!(t.remaining_seconds(), 3);
    assert_eq!(t.remaining_hundredths(), 76);
    assert_eq!(text(&t), "03.76");
    t.tick(ROUND_MICROS, true);
    assert_eq!(text(&t), "00.00");
    let long = Timer::with_duration(123_450_000);
    assert_eq!(text(&long), "123.45");
}
