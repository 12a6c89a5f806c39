use autoscroll::scroll::{compute_scroll, pacing_delay, Pacing, ScrollCommand, ScrollConfig};

fn cfg() -> ScrollConfig {
    ScrollConfig::new_default()
}

fn tick(delta: i32) -> Option<ScrollCommand> {
    compute_scroll(&cfg(), Pacing::new_default(), delta, 0)
}

#[test]
fn dead_zone_is_still() {
    for d in -15..=15 {
        assert_eq!(tick(d), None);
    }
}

#[test]
fn quantization_below_one_friction_unit() {
    assert_eq!(tick(20), Some(ScrollCommand { amount: 0, delay_ms: 20 }));
}

#[test]
fn positive_distance_scrolls_up() {
    assert_eq!(tick(200), Some(ScrollCommand { amount: 12, delay_ms: 15 }));
}

#[test]
fn negative_distance_scrolls_down() {
    assert_eq!(tick(-500), Some(ScrollCommand { amount: -32, delay_ms: 7 }));
}

#[test]
fn opposite_distances_give_opposite_amounts() {
    let up = tick(200).unwrap().amount;
    let down = tick(-200).unwrap().amount;
    assert_eq!(up, 12);
    assert_eq!(down, -12);
}

#[test]
fn magnitude_is_capped() {
    assert_eq!(tick(100_000), Some(ScrollCommand { amount: 50, delay_ms: 1 }));
    assert_eq!(tick(-100_000), Some(ScrollCommand { amount: -50, delay_ms: 1 }));
    assert_eq!(tick(15 + 750), Some(ScrollCommand { amount: 50, delay_ms: 1 }));
}

#[test]
fn extreme_coordinates_do_not_overflow() {
    let c = compute_scroll(&cfg(), Pacing::new_default(), i32::MAX, i32::MIN).unwrap();
    assert_eq!(c.amount, 50);
    let c = compute_scroll(&cfg(), Pacing::new_default(), i32::MIN, i32::MAX).unwrap();
    assert_eq!(c.amount, -50);
}

#[test]
fn magnitude_never_decreases_with_distance() {
    let mut last = 0;
    for d in 0..2000 {
        let m = tick(d).map(|c| c.amount).unwrap_or(0);
        assert!(m >= last);
        assert!(m <= 50);
        last = m;
    }
}

#[test]
fn amount_follows_the_sign_of_the_distance() {
    for d in -2000..2000 {
        if let Some(c) = tick(d) {
            if c.amount != 0 {
                assert_eq!(c.amount > 0, d > 0);
            }
        }
    }
}

#[test]
fn delay_shrinks_toward_minimum() {
    let p = Pacing::new_default();
    let mut last = 20;
    for s in 0..60 {
        let d = pacing_delay(s, 50, p);
        assert!(d <= last);
        assert!((1..=20).contains(&d));
        last = d;
    }
    assert_eq!(pacing_delay(0, 50, p), 20);
    assert_eq!(pacing_delay(12, 50, p), 15);
    assert_eq!(pacing_delay(50, 50, p), 1);
    assert_eq!(pacing_delay(80, 50, p), 1);
}

#[test]
fn zero_power_paces_at_minimum() {
    let c = ScrollConfig { radius: 15, max_scroll_power: 0, friction_milli: 15000 };
    assert_eq!(
        compute_scroll(&c, Pacing::new_default(), 500, 0),
        Some(ScrollCommand { amount: 0, delay_ms: 1 })
    );
}

#[test]
fn fractional_friction() {
    let c = ScrollConfig { radius: 0, max_scroll_power: 50, friction_milli: 2500 };
    assert_eq!(compute_scroll(&c, Pacing::new_default(), 10, 0).unwrap().amount, 4);
}
