use flatland::exposure::{Exposure, MICRO, UNIT};

fn fresh() -> Exposure {
    Exposure { exposure: 0, cooling: 5 * MICRO, max: UNIT }
}

#[test]
fn update_cools_by_rate_times_time() {
    let mut e = Exposure { exposure: 900_000_000_000, ..fresh() };
    e.update(100_000);
    assert_eq!(e.exposure, 400_000_000_000);
    assert_eq!(e.cooling, 5_000_000);
    assert_eq!(e.max, UNIT);
}

#[test]
fn update_stops_at_zero() {
    let mut e = Exposure { exposure: 900_000_000_000, ..fresh() };
    e.update(180_000);
    assert_eq!(e.exposure, 0);
    e.update(1);
    assert_eq!(e.exposure, 0);
    e.update(u64::MAX);
    assert_eq!(e.exposure, 0);
}

#[test]
fn update_without_time_keeps_value_within_cap() {
    let mut e = Exposure { exposure: 700_000_000_000, ..fresh() };
    e.update(0);
    assert_eq!(e.exposure, 700_000_000_000);
}

#[test]
fn update_brings_value_down_to_cap() {
    let mut e = Exposure { exposure: 1_250_000_000_000, ..fresh() };
    e.update(0);
    assert_eq!(e.exposure, UNIT as u128);
    let mut e = Exposure { exposure: 3_000_000_000_000, ..fresh() };
    e.update(100_000);
    assert_eq!(e.exposure, UNIT as u128);
    let mut e = Exposure { exposure: 1_250_000_000_000, ..fresh() };
    e.update(100_000);
    assert_eq!(e.exposure, 750_000_000_000);
}

#[test]
fn expose_raises_by_amount_times_time() {
    let mut e = Exposure { exposure: 100_000_000_000, ..fresh() };
    e.expose(2_000_000, 50_000);
    assert_eq!(e.exposure, 200_000_000_000);
}

#[test]
fn expose_stops_at_cap() {
    let mut e = Exposure { exposure: 400_000_000_000, ..fresh() };
    e.expose(10_000_000, 100_000);
    assert_eq!(e.exposure, UNIT as u128);
    let mut e = Exposure { exposure: 400_000_000_000, ..fresh() };
    e.expose(u128::MAX, u64::MAX);
    assert_eq!(e.exposure, UNIT as u128);
    let mut e = Exposure { exposure: 400_000_000_000, ..fresh() };
    e.expose(6_000_000, 100_000);
    assert_eq!(e.exposure, UNIT as u128);
    let mut e = Exposure { exposure: 400_000_000_000, ..fresh() };
    e.expose(5_999_999, 100_000);
    assert_eq!(e.exposure, 999_999_900_000);
}

#[test]
fn expose_without_time_or_amount_changes_nothing() {
    let mut e = Exposure { exposure: 400_000_000_000, ..fresh() };
    e.expose(u128::MAX, 0);
    assert_eq!(e.exposure, 400_000_000_000);
    e.expose(0, u64::MAX);
    assert_eq!(e.exposure, 400_000_000_000);
}

#[test]
fn expose_never_lowers_a_value_above_cap() {
    let mut e = Exposure { exposure: 1_250_000_000_000, ..fresh() };
    e.expose(1_000_000, 1_000);
    assert_eq!(e.exposure, 1_250_000_000_000);
}

#[test]
fn flash_adds_without_cap() {
    let mut e = Exposure { exposure: UNIT as u128, ..fresh() };
    e.expose_flash(250_000_000_000);
    assert_eq!(e.exposure, 1_250_000_000_000);
    e.expose_flash(0);
    assert_eq!(e.exposure, 1_250_000_000_000);
}
