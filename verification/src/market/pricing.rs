//! Prices: what a quantity of a good costs at a rate and a level of stock.

use vstd::prelude::*;
use crate::goods::consts::{MAX_AMOUNT, RATE_SCALE};
use crate::ratio::{capped_quotient, mul_div_capped};

verus! {

/// The margin, in percent, that the market adds when it sells.
pub const BUY_MARGIN_PERCENT: u64 = 5;

/// The margin, in percent, that the market adds when it pays.
pub const SELL_MARGIN_PERCENT: u64 = 15;

/// The price of `quantity` at `rate` with the margin for a purchase, before
/// the level of stock counts: the numerator of the price.
pub open spec fn buy_price_numerator(stock: int, rate: int, quantity: int) -> int {
    (quantity * rate) * ((100 + BUY_MARGIN_PERCENT) * stock)
}

/// What the numerator of a purchase's price is divided by: the stock that
/// would be left, and the scales of percent and rate.
pub open spec fn buy_price_denominator(stock: int, quantity: int) -> int {
    100 * RATE_SCALE * (stock - quantity)
}

/// What a trader pays for `quantity` of a good of which the market holds
/// `stock` and which it sells at `rate`: the quantity at the rate, five
/// percent of that as margin, and both multiplied by the stock over the stock
/// that would be left. The price is rounded down and capped at the largest
/// amount; it is the largest amount where nothing would be left.
pub open spec fn buy_price(stock: int, rate: int, quantity: int) -> int {
    capped_quotient(
        quantity * rate,
        (100 + BUY_MARGIN_PERCENT) * stock,
        buy_price_denominator(stock, quantity),
        MAX_AMOUNT as int,
    )
}

/// The numerator of the price of a sale.
pub open spec fn sell_price_numerator(stock: int, rate: int, quantity: int) -> int {
    (quantity * rate) * ((100 + SELL_MARGIN_PERCENT) * stock)
}

/// What the numerator of a sale's price is divided by: the stock that there
/// would be, and the scales of percent and rate.
pub open spec fn sell_price_denominator(stock: int, quantity: int) -> int {
    100 * RATE_SCALE * (stock + quantity)
}

/// What the market pays for `quantity` of a good of which it holds `stock`
/// and for which it pays at `rate`: the quantity at the rate, fifteen percent
/// of that as margin, and both multiplied by the stock over the stock that
/// there would be. The price is rounded down and capped at the largest amount.
pub open spec fn sell_price(stock: int, rate: int, quantity: int) -> int {
    capped_quotient(
        quantity * rate,
        (100 + SELL_MARGIN_PERCENT) * stock,
        sell_price_denominator(stock, quantity),
        MAX_AMOUNT as int,
    )
}

/// The product of two bounded numbers that are not negative is bounded by
/// the product of their bounds.
proof fn lemma_bounded_product(a: int, b: int, a_max: int, b_max: int)
    requires
        0 <= a <= a_max,
        0 <= b <= b_max,
    ensures
        0 <= a * b <= a_max * b_max,
{
    assert(0 <= a * b <= a_max * b_max) by (nonlinear_arith)
        requires
            0 <= a <= a_max,
            0 <= b <= b_max,
    ;
}

/// The price of a purchase of `quantity` from a stock of `stock` at `rate`.
pub fn quote_buy(stock: i64, rate: u64, quantity: i64) -> (price: i64)
    requires
        0 < quantity <= stock,
    ensures
        price == buy_price(stock as int, rate as int, quantity as int),
        price >= 0,
{
    proof {
        lemma_bounded_product(
            quantity as int,
            rate as int,
            0x7fff_ffff_ffff_ffff,
            0xffff_ffff_ffff_ffff,
        );
    }
    let base: u128 = (quantity as u128) * (rate as u128);
    let percent: u128 = 100 + BUY_MARGIN_PERCENT as u128;
    let scale: u128 = 100 * (RATE_SCALE as u128);
    assert(percent == 105 && scale == 100_000_000);
    let weight: u128 = percent * (stock as u128);
    let left: u128 = scale * ((stock - quantity) as u128);
    let price = mul_div_capped(base, weight, left, MAX_AMOUNT as u64);
    price as i64
}

/// The price of a sale of `quantity` to a stock of `stock` at `rate`.
pub fn quote_sell(stock: i64, rate: u64, quantity: i64) -> (price: i64)
    requires
        0 < quantity,
        0 <= stock,
    ensures
        price == sell_price(stock as int, rate as int, quantity as int),
        price >= 0,
{
    proof {
        lemma_bounded_product(
            quantity as int,
            rate as int,
            0x7fff_ffff_ffff_ffff,
            0xffff_ffff_ffff_ffff,
        );
    }
    let base: u128 = (quantity as u128) * (rate as u128);
    let percent: u128 = 100 + SELL_MARGIN_PERCENT as u128;
    let scale: u128 = 100 * (RATE_SCALE as u128);
    assert(percent == 115 && scale == 100_000_000);
    let weight: u128 = percent * (stock as u128);
    let grown: u128 = scale * ((stock as u128) + (quantity as u128));
    let price = mul_div_capped(base, weight, grown, MAX_AMOUNT as u64);
    price as i64
}

} // verus!
