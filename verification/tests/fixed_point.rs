use coinfall::fixed::{
    from_units, sat_add, sat_add_mul_div, sat_mul_div, sat_neg, sat_sub, saturate, wide_product,
    wide_trunc_div, UNIT,
};
use coinfall::geometry::{Point, Rect};

#[test]
fn unit_is_a_thousand() {
    assert_eq!(UNIT, 1000);
    assert_eq!(from_units(500), 500_000);
    assert_eq!(from_units(-3), -3000);
    assert_eq!(from_units(i32::MAX), 2_147_483_647_000);
    assert_eq!(from_units(i32::MIN), -2_147_483_648_000);
}

#[test]
fn sums_stop_at_the_ends_of_the_range() {
    assert_eq!(sat_add(2, 3), 5);
    assert_eq!(sat_add(i64::MAX, 1), i64::MAX);
    assert_eq!(sat_add(i64::MIN, -1), i64::MIN);
    assert_eq!(sat_add(i64::MAX, i64::MIN), -1);
    assert_eq!(sat_sub(2, 3), -1);
    assert_eq!(sat_sub(i64::MIN, 1), i64::MIN);
    assert_eq!(sat_sub(0, i64::MIN), i64::MAX);
    assert_eq!(sat_neg(5), -5);
    assert_eq!(sat_neg(i64::MIN), i64::MAX);
    assert_eq!(sat_neg(i64::MAX), i64::MIN + 1);
}

#[test]
fn saturate_brings_wide_values_into_range() {
    assert_eq!(saturate(0), 0);
    assert_eq!(saturate(i64::MAX as i128 + 1), i64::MAX);
    assert_eq!(saturate(i64::MIN as i128 - 1), i64::MIN);
    assert_eq!(saturate(i128::MAX), i64::MAX);
    assert_eq!(saturate(i128::MIN), i64::MIN);
    assert_eq!(saturate(-42), -42);
}

#[test]
fn fractions_round_towards_zero() {
    assert_eq!(sat_mul_div(1005, -7, 10), -703);
    assert_eq!(sat_mul_div(-1005, -7, 10), 703);
    assert_eq!(sat_mul_div(-1005, 7, 10), -703);
    assert_eq!(sat_mul_div(6000, -7, 10), -4200);
    assert_eq!(sat_mul_div(7, 1, 2), 3);
    assert_eq!(sat_mul_div(-7, 1, 2), -3);
    assert_eq!(sat_mul_div(i64::MAX, i64::MAX, 1), i64::MAX);
    assert_eq!(sat_mul_div(i64::MIN, i64::MAX, 1), i64::MIN);
    assert_eq!(sat_mul_div(i64::MIN, i64::MIN, i64::MAX), i64::MAX);
    assert_eq!(sat_mul_div(i64::MAX, 8, 10), 7_378_697_629_483_820_645);
}

#[test]
fn scaled_sums_round_the_product_only() {
    assert_eq!(sat_add_mul_div(100_000, 1000, 16, 3), 105_333);
    assert_eq!(sat_add_mul_div(100_000, -1000, 16, 3), 94_667);
    assert_eq!(sat_add_mul_div(200_000, -4000, 16, 3), 178_667);
    assert_eq!(sat_add_mul_div(i64::MAX, 1000, 16, 3), i64::MAX);
    assert_eq!(sat_add_mul_div(i64::MIN, -1000, 16, 3), i64::MIN);
    assert_eq!(sat_add_mul_div(5, 1000, 0, 3), 5);
}

#[test]
fn wide_products_and_quotients_are_exact() {
    assert_eq!(wide_product(i64::MIN, i64::MIN), 1i128 << 126);
    assert_eq!(wide_product(i64::MAX, -1), -(i64::MAX as i128));
    assert_eq!(wide_trunc_div(-7, 2), -3);
    assert_eq!(wide_trunc_div(7, 2), 3);
    assert_eq!(wide_trunc_div(-(1i128 << 126), 1), -(1i128 << 126));
}

#[test]
fn a_rectangle_contains_its_edges() {
    let r = Rect::new(10, 20, 30, 40);
    assert_eq!(r, Rect { x: 10, y: 20, w: 30, h: 40 });
    assert!(r.contains(Point { x: 10, y: 20 }));
    assert!(r.contains(Point { x: 40, y: 60 }));
    assert!(r.contains(Point { x: 25, y: 40 }));
    assert!(!r.contains(Point { x: 9, y: 40 }));
    assert!(!r.contains(Point { x: 41, y: 40 }));
    assert!(!r.contains(Point { x: 25, y: 19 }));
    assert!(!r.contains(Point { x: 25, y: 61 }));
}

#[test]
fn a_rectangle_at_the_end_of_the_range_does_not_wrap() {
    let r = Rect::new(i64::MAX - 5, i64::MAX - 5, 100, 100);
    assert!(r.contains(Point { x: i64::MAX, y: i64::MAX }));
    assert!(!r.contains(Point { x: i64::MIN, y: i64::MIN }));
    let empty = Rect::new(0, 0, -1, -1);
    assert!(!empty.contains(Point { x: 0, y: 0 }));
}
