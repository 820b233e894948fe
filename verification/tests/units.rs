use dino::units::{from_cells, sat_add, sat_sub, scaled_div, to_cell, SCALE};

#[test]
fn scale_is_a_million() {
    assert_eq!(SCALE, 1_000_000);
}

#[test]
fn sums_saturate_at_both_ends() {
    assert_eq!(sat_add(1, 2), 3);
    assert_eq!(sat_add(i64::MAX, 1), i64::MAX);
    assert_eq!(sat_add(i64::MIN, -1), i64::MIN);
    assert_eq!(sat_add(i64::MAX, i64::MIN), -1);
}

#[test]
fn differences_saturate_at_both_ends() {
    assert_eq!(sat_sub(5, 7), -2);
    assert_eq!(sat_sub(i64::MIN, 1), i64::MIN);
    assert_eq!(sat_sub(i64::MAX, -1), i64::MAX);
    assert_eq!(sat_sub(0, i64::MIN), i64::MAX);
}

#[test]
fn scaled_division_rounds_toward_zero() {
    assert_eq!(scaled_div(4_000_000, 4_000_000), 1_000_000);
    assert_eq!(scaled_div(4_002_000, 4_000_000), 1_000_500);
    assert_eq!(scaled_div(1, 3_000_000), 0);
    assert_eq!(scaled_div(10, 3_000_000), 3);
    assert_eq!(scaled_div(-10, 3_000_000), -3);
    assert_eq!(scaled_div(10, -3_000_000), -3);
    assert_eq!(scaled_div(-10, -3_000_000), 3);
}

#[test]
fn scaled_division_saturates() {
    assert_eq!(scaled_div(i64::MAX, 1), i64::MAX);
    assert_eq!(scaled_div(i64::MIN, 1), i64::MIN);
    assert_eq!(scaled_div(i64::MIN, -1), i64::MAX);
    assert_eq!(scaled_div(i64::MAX, -1), i64::MIN);
}

#[test]
fn whole_cells_become_fixed_point() {
    assert_eq!(from_cells(0), 0);
    assert_eq!(from_cells(80), 80_000_000);
    assert_eq!(from_cells(usize::MAX), i64::MAX);
}

#[test]
fn positions_fall_on_cells() {
    assert_eq!(to_cell(0), 0);
    assert_eq!(to_cell(999_999), 0);
    assert_eq!(to_cell(1_000_000), 1);
    assert_eq!(to_cell(17_994_000), 17);
    assert_eq!(to_cell(-1), 0);
    assert_eq!(to_cell(-19_500_000), 0);
    assert_eq!(to_cell(i64::MIN), 0);
}
