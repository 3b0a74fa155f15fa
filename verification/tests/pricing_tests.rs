use sgx_market::goods::consts::{MAX_AMOUNT, RATE_SCALE};
use sgx_market::market::pricing::{quote_buy, quote_sell};
use sgx_market::ratio::{mul_div_capped, mul_wide, wide_le};

const USD: u64 = 1_035_760;
const USD_BACK: u64 = 965_474;

#[test]
fn quotients_of_wide_products() {
    let cap = u64::MAX;
    assert_eq!(0, mul_div_capped(0, 5, 7, cap));
    assert_eq!(10, mul_div_capped(7, 3, 2, cap));
    assert_eq!(0, mul_div_capped(3, 5, u128::MAX, cap));
    assert_eq!(
        121_932_631_137_021,
        mul_div_capped(
            12_345_678_901_234_567_890_123,
            987_654_321_098_765_432_109_876_543_210,
            100_000_000_000_000_000_000_000_000_000_000_000_000,
            cap
        )
    );
    assert_eq!(
        1_000_000_000_000,
        mul_div_capped(
            10_000_000_000_000_000_000_000_000,
            10_000_000_000_000_000_000_000_000,
            100_000_000_000_000_000_000_000_000_000_000_000_000,
            cap
        )
    );
    assert_eq!(12_345, mul_div_capped(u128::MAX, 12_345, u128::MAX - 1, cap));
    assert_eq!(
        9_223_372_036_854_775_808,
        mul_div_capped(1 << 64, 1 << 64, 1 << 65, cap)
    );
    assert_eq!(
        9_223_372_036_854_775_808,
        mul_div_capped(
            (1u128 << 100) + 12_345,
            (1u128 << 90) + 999,
            (1u128 << 127) + 1,
            cap
        )
    );
}

#[test]
fn quotients_are_capped() {
    let cap = u64::MAX;
    assert_eq!(cap, mul_div_capped(u128::MAX, u128::MAX, u128::MAX, cap));
    assert_eq!(cap, mul_div_capped(u128::MAX, 1 << 64, u128::MAX, cap));
    assert_eq!(cap, mul_div_capped(1 << 127, 1 << 100, 1 << 120, cap));
    assert_eq!(cap, mul_div_capped(u128::MAX, 1, 1 << 64, cap));
    assert_eq!(cap, mul_div_capped(u128::MAX, 1, (1 << 64) + 1, cap));
    assert_eq!(cap - 1, mul_div_capped(u128::MAX, 1, (1 << 64) + 2, cap));
    assert_eq!(1000, mul_div_capped(7, 1000, 3, 1000));
    assert_eq!(999, mul_div_capped(999, 1000, 1000, 1000));
    assert_eq!(0, mul_div_capped(7, 3, 2, 0));
    assert_eq!(1, mul_div_capped(7, 3, 2, 1));
}

#[test]
fn division_by_zero_gives_the_cap() {
    assert_eq!(u64::MAX, mul_div_capped(5, 0, 0, u64::MAX));
    assert_eq!(17, mul_div_capped(0, 0, 0, 17));
    assert_eq!(0, mul_div_capped(9, 9, 0, 0));
}

#[test]
fn wide_products_and_their_order() {
    assert_eq!((0, 0), mul_wide(0, u128::MAX));
    assert_eq!((0, 35), mul_wide(5, 7));
    assert_eq!((1, 0), mul_wide(1 << 64, 1 << 64));
    assert_eq!((u128::MAX - 1, 1), mul_wide(u128::MAX, u128::MAX));
    assert_eq!((1, u128::MAX - 1), mul_wide(u128::MAX, 2));
    assert_eq!(
        (0, 121_932_631_112_635_269_000_000_000),
        mul_wide(123_456_789_000_000, 987_654_321_000)
    );
    assert!(wide_le((0, 5), (0, 5)));
    assert!(wide_le((0, u128::MAX), (1, 0)));
    assert!(!wide_le((1, 0), (0, u128::MAX)));
    assert!(!wide_le((2, 1), (2, 0)));
}

#[test]
fn prices_of_purchases() {
    // 100 at 1.03576, five percent on top, times 1000 over 900.
    assert_eq!(120, quote_buy(1000, USD, 100));
    assert_eq!(1, quote_buy(1000, USD, 1));
    assert_eq!(1087, quote_buy(1000, USD, 500));
    assert_eq!(1_086_460, quote_buy(1000, USD, 999));
    assert_eq!(MAX_AMOUNT, quote_buy(1000, USD, 1000));
    assert_eq!(0, quote_buy(1000, 0, 10));
    assert_eq!(MAX_AMOUNT, quote_buy(i64::MAX, u64::MAX, i64::MAX - 1));
    assert_eq!(MAX_AMOUNT, quote_buy(i64::MAX, u64::MAX, i64::MAX / 2));
    assert_eq!(1, quote_buy(i64::MAX, RATE_SCALE, 1));
}

#[test]
fn prices_of_sales() {
    // 100 at 0.965474, fifteen percent on top, times 1000 over 1100.
    assert_eq!(100, quote_sell(1000, USD_BACK, 100));
    assert_eq!(1, quote_sell(1000, USD_BACK, 1));
    assert_eq!(370, quote_sell(1000, USD_BACK, 500));
    assert_eq!(554, quote_sell(1000, USD_BACK, 999));
    assert_eq!(0, quote_sell(0, USD_BACK, 50));
    assert_eq!(0, quote_sell(1000, 0, 50));
    assert_eq!(1109, quote_sell(1000, USD_BACK, 1_000_000));
    assert_eq!(1110, quote_sell(1000, USD_BACK, i64::MAX));
    assert_eq!(MAX_AMOUNT, quote_sell(i64::MAX, u64::MAX, i64::MAX));
}

#[test]
fn a_larger_quantity_never_costs_or_pays_less() {
    let mut last_buy = 0;
    let mut last_sell = 0;
    for quantity in 1..=1000 {
        let buy = quote_buy(1000, USD, quantity);
        let sell = quote_sell(1000, USD_BACK, quantity);
        assert!(buy >= last_buy);
        assert!(sell >= last_sell);
        // At a rate of one or more the price of a purchase grows.
        assert!(buy > last_buy);
        last_buy = buy;
        last_sell = sell;
    }
    // At a rate of four or more the price of a sale grows within the stock.
    let mut last = 0;
    for quantity in 1..=1000 {
        let sell = quote_sell(1000, 4 * RATE_SCALE, quantity);
        assert!(sell > last);
        last = sell;
    }
    // At a low rate rounding lets neighbouring prices coincide.
    assert_eq!(quote_sell(205, 500_000, 20), quote_sell(205, 500_000, 21));
    assert_eq!(quote_buy(1000, 1, 1), quote_buy(1000, 1, 2));
}

#[test]
fn the_purchase_is_dearer_from_a_twenty_second_of_the_stock_on() {
    for quantity in 46..=1000 {
        assert!(
            quote_buy(1000, RATE_SCALE, quantity) >= quote_sell(1000, RATE_SCALE, quantity),
            "at {}",
            quantity
        );
    }
    // At a twenty-second of the stock the two prices meet.
    assert_eq!(110, quote_buy(2200, RATE_SCALE, 100));
    assert_eq!(110, quote_sell(2200, RATE_SCALE, 100));
    // Below that the sale pays more than the purchase costs.
    assert_eq!(10, quote_buy(1000, RATE_SCALE, 10));
    assert_eq!(11, quote_sell(1000, RATE_SCALE, 10));
    assert_eq!(1060, quote_buy(100_000, RATE_SCALE, 1000));
    assert_eq!(1138, quote_sell(100_000, RATE_SCALE, 1000));
}

#[test]
fn rounding_can_close_the_spread() {
    // Above a twenty-second of the stock the purchase is dearer before
    // rounding, yet both prices of 2 from a stock of 23 round down to 2.
    assert_eq!(2, quote_buy(23, RATE_SCALE, 2));
    assert_eq!(2, quote_sell(23, RATE_SCALE, 2));
    // A whole number between the two unrounded prices keeps them apart.
    assert_eq!(1087, quote_buy(1000, USD, 500));
    assert_eq!(397, quote_sell(1000, USD, 500));
    assert_eq!(5, quote_buy(23, RATE_SCALE, 4));
    assert_eq!(3, quote_sell(23, RATE_SCALE, 4));
}
