use std::cmp::Ordering;
use trading_bot_rust::domain::price::Price;

#[test]
fn price_new_and_raw_round_trip() {
    assert_eq!(Price::new(322_500_000_000_000_000).raw(), 322_500_000_000_000_000);
    assert_eq!(Price::new(-7).raw(), -7);
}

#[test]
fn price_precision_is_one_rouble() {
    assert_eq!(Price::PRECISION, 10_000_000_000_000_000);
}

#[test]
fn price_add_sub() {
    let a = Price::new(30);
    let b = Price::new(12);
    assert_eq!((a + b).raw(), 42);
    assert_eq!((a - b).raw(), 18);
    assert_eq!((b - a).raw(), -18);
}

#[test]
fn price_add_then_sub_gives_back() {
    let a = Price::new(1_234_567);
    let b = Price::new(-89);
    assert_eq!((a + b) - b, a);
    assert_eq!((a - b) + b, a);
    assert_eq!(a + b, b + a);
}

#[test]
fn price_mul_scalar() {
    assert_eq!((Price::new(25) * 4).raw(), 100);
    assert_eq!((Price::new(25) * -4).raw(), -100);
}

#[test]
fn price_div_truncates_toward_zero() {
    assert_eq!((Price::new(7) / 2).raw(), 3);
    assert_eq!((Price::new(-7) / 2).raw(), -3);
    assert_eq!((Price::new(7) / -2).raw(), -3);
    assert_eq!((Price::new(-7) / -2).raw(), 3);
}

#[test]
fn price_mul_then_div_gives_back() {
    let a = Price::new(-987_654_321);
    assert_eq!((a * 13) / 13, a);
    assert_eq!((a * -5) / -5, a);
}

#[test]
fn price_ordering_follows_raw_value() {
    assert!(Price::new(1) < Price::new(2));
    assert!(Price::new(-5) < Price::new(0));
    assert_eq!(Price::new(3), Price::new(3));
}

#[test]
fn price_zero_is_raw_zero() {
    assert_eq!(Price::zero().raw(), 0);
    assert_eq!(Price::new(5) - Price::new(5), Price::zero());
}

#[test]
fn price_partial_cmp_follows_raw_value() {
    assert_eq!(Price::new(-1).partial_cmp(&Price::new(1)), Some(Ordering::Less));
    assert_eq!(Price::new(9).partial_cmp(&Price::new(1)), Some(Ordering::Greater));
    assert_eq!(Price::new(4).partial_cmp(&Price::new(4)), Some(Ordering::Equal));
    assert_eq!(Price::new(-1).cmp(&Price::new(1)), Ordering::Less);
    assert!(Price::new(i128::MIN) < Price::new(i128::MAX));
    assert!(Price::new(3) >= Price::new(3));
}
