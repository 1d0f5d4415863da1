use amm_pool::{mul_div, normalized, quote, ratio, wide_mul};

#[test]
fn quote_of_the_swap_example() {
    assert_eq!(quote(1_000_000_000_000_000_000, 1_000_000_000, 100_000_000_000_000_000), 90_909_090);
}

#[test]
fn quote_bounds_and_order() {
    assert_eq!(quote(0, 5, 3), 5);
    assert_eq!(quote(100, 100, 1), 0);
    assert!(quote(100, 1000, 10) <= quote(100, 1000, 20));
    assert!(quote(100, 1000, 10) <= quote(100, 2000, 10));
    assert_eq!(quote(100, 1000, 10), 90);
    assert_eq!(quote(100, 1000, 20), 166);
}

#[test]
fn quote_near_the_maximum() {
    let half = u128::MAX / 2;
    let out = quote(half, half, half);
    assert_eq!(out, 85_070_591_730_234_615_865_843_651_857_942_052_863);
    assert!(out <= half);
    assert_eq!(quote(u128::MAX - 1, u128::MAX, 1), 1);
    assert_eq!(quote(1, u128::MAX, u128::MAX - 1), u128::MAX - 1);
}

#[test]
fn wide_products() {
    assert_eq!(wide_mul(u128::MAX, u128::MAX), (u128::MAX - 1, 1));
    assert_eq!(wide_mul(1 << 64, 1 << 64), (1, 0));
    assert_eq!(wide_mul(3, 5), (0, 15));
}

#[test]
fn wide_division() {
    let big: u128 = 1 << 127;
    assert_eq!(mul_div(big + 5, big + 3, big + 1), 170_141_183_460_469_231_731_687_303_715_884_105_735);
    assert_eq!(mul_div(u128::MAX, u128::MAX, u128::MAX), u128::MAX);
    assert_eq!(mul_div(7, 9, 4), 15);
}

#[test]
fn normalized_balances() {
    assert_eq!(normalized(1_000_000_000, 8), 10);
    assert_eq!(normalized(1_999, 3), 1);
    assert_eq!(normalized(u128::MAX, 200), 0);
    assert_eq!(normalized(42, 0), 42);
}

#[test]
fn ratio_of_the_example_reserves() {
    assert_eq!(ratio(1_000_000_000, 1_000_000_000_000_000_000, 8, 16), Some(1000));
    assert_eq!(ratio(u128::MAX, 2, 0, 0), None);
    assert_eq!(ratio(u128::MAX, 1, 0, 0), Some(u128::MAX));
}
