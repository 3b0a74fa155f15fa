//! What holds of prices. A price is a fraction, rounded down and capped; the
//! laws speak of the fraction where rounding would blur them, and of the
//! rounded price where they survive it.

use vstd::prelude::*;
use crate::goods::consts::{MAX_AMOUNT, RATE_SCALE};
use crate::goods::good_kind::GoodKind;
use crate::goods::goods_factory::EntryView;
use crate::market::model::{buy_quote, sell_quote};
use crate::market::pricing::{
    buy_price,
    buy_price_denominator,
    buy_price_numerator,
    sell_price,
    sell_price_denominator,
    sell_price_numerator,
};
use crate::ratio::{capped_quotient, lemma_capped_quotient_in_range};

verus! {

/// Of two fractions, the one that is no larger has the quotient that is no
/// larger.
pub proof fn lemma_quotient_order(n1: int, d1: int, n2: int, d2: int)
    requires
        d1 > 0,
        d2 > 0,
        n1 * d2 <= n2 * d1,
    ensures
        n1 / d1 <= n2 / d2,
{
    let q1 = n1 / d1;
    assert(q1 * d1 <= n1) by (nonlinear_arith)
        requires
            d1 > 0,
            q1 == n1 / d1,
    ;
    assert((q1 * d1) * d2 <= n1 * d2) by (nonlinear_arith)
        requires
            q1 * d1 <= n1,
            d2 > 0,
    ;
    assert((q1 * d2) * d1 == (q1 * d1) * d2) by (nonlinear_arith);
    assert(q1 * d2 <= n2) by (nonlinear_arith)
        requires
            (q1 * d2) * d1 <= n2 * d1,
            d1 > 0,
    ;
    assert(n2 / d2 >= q1) by (nonlinear_arith)
        requires
            d2 > 0,
            q1 * d2 <= n2,
    ;
}

/// Of two fractions that are at least one apart, the quotients differ.
pub proof fn lemma_quotient_strict_order(n1: int, d1: int, n2: int, d2: int)
    requires
        d1 > 0,
        d2 > 0,
        n1 * d2 + d1 * d2 <= n2 * d1,
    ensures
        n1 / d1 < n2 / d2,
{
    assert((n1 + d1) * d2 == n1 * d2 + d1 * d2) by (nonlinear_arith);
    lemma_quotient_order(n1 + d1, d1, n2, d2);
    assert((n1 + d1) / d1 == n1 / d1 + 1) by (nonlinear_arith)
        requires
            d1 > 0,
    ;
}

/// A factor that is not negative keeps an order.
proof fn lemma_scaled_order(c: int, u: int, v: int)
    requires
        c >= 0,
        u <= v,
    ensures
        c * u <= c * v,
{
    assert(c * u <= c * v) by (nonlinear_arith)
        requires
            c >= 0,
            u <= v,
    ;
}

/// A factor above zero keeps a strict order.
proof fn lemma_scaled_strict_order(c: int, u: int, v: int)
    requires
        c > 0,
        u < v,
    ensures
        c * u < c * v,
{
    assert(c * u < c * v) by (nonlinear_arith)
        requires
            c > 0,
            u < v,
    ;
}

/// The terms of the two prices with their constants written out.
proof fn lemma_price_terms(stock: int, rate: int, quantity: int)
    ensures
        buy_price_numerator(stock, rate, quantity) == (quantity * rate) * (105 * stock),
        buy_price_denominator(stock, quantity) == 100_000_000 * (stock - quantity),
        sell_price_numerator(stock, rate, quantity) == (quantity * rate) * (115 * stock),
        sell_price_denominator(stock, quantity) == 100_000_000 * (stock + quantity),
        buy_price(stock, rate, quantity) == capped_quotient(
            quantity * rate,
            105 * stock,
            100_000_000 * (stock - quantity),
            MAX_AMOUNT as int,
        ),
        sell_price(stock, rate, quantity) == capped_quotient(
            quantity * rate,
            115 * stock,
            100_000_000 * (stock + quantity),
            MAX_AMOUNT as int,
        ),
{
    assert(100 * RATE_SCALE == 100_000_000);
    assert(100 * RATE_SCALE * (stock - quantity) == 100_000_000 * (stock - quantity));
    assert(100 * RATE_SCALE * (stock + quantity) == 100_000_000 * (stock + quantity));
}

/// The two sides of the comparison of a purchase's price at two quantities,
/// each as a common factor times what differs.
proof fn lemma_buy_cross(stock: int, rate: int, q1: int, q2: int)
    ensures
        buy_price_numerator(stock, rate, q1) * buy_price_denominator(stock, q2) == (rate * stock
            * 10_500_000_000) * (q1 * (stock - q2)),
        q2 * (stock - q1) - q1 * (stock - q2) == stock * (q2 - q1),
{
    assert(((q1 * rate) * (105 * stock)) * (100_000_000 * (stock - q2)) == (rate * stock
        * 10_500_000_000) * (q1 * (stock - q2))) by (nonlinear_arith);
    assert(q2 * (stock - q1) - q1 * (stock - q2) == stock * (q2 - q1)) by (nonlinear_arith);
}

/// The same for a sale.
proof fn lemma_sell_cross(stock: int, rate: int, q1: int, q2: int)
    ensures
        sell_price_numerator(stock, rate, q1) * sell_price_denominator(stock, q2) == (rate * stock
            * 11_500_000_000) * (q1 * (stock + q2)),
        q2 * (stock + q1) - q1 * (stock + q2) == stock * (q2 - q1),
{
    assert(((q1 * rate) * (115 * stock)) * (100_000_000 * (stock + q2)) == (rate * stock
        * 11_500_000_000) * (q1 * (stock + q2))) by (nonlinear_arith);
    assert(q2 * (stock + q1) - q1 * (stock + q2) == stock * (q2 - q1)) by (nonlinear_arith);
}

/// The product of two numbers that are not negative is not negative.
proof fn lemma_nonnegative_product(a: int, b: int)
    requires
        a >= 0,
        b >= 0,
    ensures
        a * b >= 0,
{
    assert(a * b >= 0) by (nonlinear_arith)
        requires
            a >= 0,
            b >= 0,
    ;
}

/// The product of two numbers above zero is above zero.
proof fn lemma_positive_product(a: int, b: int)
    requires
        a > 0,
        b > 0,
    ensures
        a * b > 0,
{
    assert(a * b > 0) by (nonlinear_arith)
        requires
            a > 0,
            b > 0,
    ;
}

/// Prices are amounts: at a rate and from a stock that are not negative, the
/// price of a sale lies between zero and the largest amount, and so does the
/// price of a purchase within the stock.
pub proof fn lemma_prices_in_range(stock: int, rate: int, quantity: int)
    requires
        stock >= 0,
        rate >= 0,
        quantity > 0,
    ensures
        0 <= sell_price(stock, rate, quantity) <= MAX_AMOUNT,
        quantity <= stock ==> 0 <= buy_price(stock, rate, quantity) <= MAX_AMOUNT,
{
    lemma_price_terms(stock, rate, quantity);
    lemma_nonnegative_product(quantity, rate);
    lemma_capped_quotient_in_range(
        quantity * rate,
        115 * stock,
        100_000_000 * (stock + quantity),
        MAX_AMOUNT as int,
    );
    if quantity <= stock {
        lemma_capped_quotient_in_range(
            quantity * rate,
            105 * stock,
            100_000_000 * (stock - quantity),
            MAX_AMOUNT as int,
        );
    }
}

/// A larger purchase never costs less: the price of a purchase does not fall
/// as the quantity grows.
pub proof fn lemma_buy_price_monotone(stock: int, rate: int, q1: int, q2: int)
    requires
        rate >= 0,
        0 < q1 <= q2 <= stock,
    ensures
        buy_price(stock, rate, q1) <= buy_price(stock, rate, q2),
{
    lemma_price_terms(stock, rate, q1);
    lemma_price_terms(stock, rate, q2);
    if q2 < stock {
        lemma_buy_cross(stock, rate, q1, q2);
        lemma_buy_cross(stock, rate, q2, q1);
        lemma_nonnegative_product(rate, stock);
        lemma_nonnegative_product(stock, q2 - q1);
        lemma_scaled_order(rate * stock * 10_500_000_000, q1 * (stock - q2), q2 * (stock - q1));
        lemma_quotient_order(
            buy_price_numerator(stock, rate, q1),
            buy_price_denominator(stock, q1),
            buy_price_numerator(stock, rate, q2),
            buy_price_denominator(stock, q2),
        );
    }
}

/// A larger purchase costs more: as a fraction, before it is rounded, the
/// price of a purchase grows with the quantity, at any rate above zero.
pub proof fn lemma_buy_price_fraction_grows(stock: int, rate: int, q1: int, q2: int)
    requires
        rate > 0,
        0 < q1 < q2 < stock,
    ensures
        buy_price_numerator(stock, rate, q1) * buy_price_denominator(stock, q2)
            < buy_price_numerator(stock, rate, q2) * buy_price_denominator(stock, q1),
{
    lemma_price_terms(stock, rate, q1);
    lemma_price_terms(stock, rate, q2);
    lemma_buy_cross(stock, rate, q1, q2);
    lemma_buy_cross(stock, rate, q2, q1);
    lemma_positive_product(rate, stock);
    lemma_positive_product(stock, q2 - q1);
    lemma_scaled_strict_order(rate * stock * 10_500_000_000, q1 * (stock - q2), q2 * (stock - q1));
}

/// A larger purchase costs more: at a rate of one or above, the rounded
/// price of a purchase grows with the quantity, as long as it is not capped.
pub proof fn lemma_buy_price_grows(stock: int, rate: int, q1: int, q2: int)
    requires
        rate >= RATE_SCALE,
        0 < q1 < q2 <= stock,
        buy_price(stock, rate, q2) < MAX_AMOUNT,
    ensures
        buy_price(stock, rate, q1) < buy_price(stock, rate, q2),
{
    lemma_price_terms(stock, rate, q1);
    lemma_price_terms(stock, rate, q2);
    lemma_buy_cross(stock, rate, q1, q2);
    lemma_buy_cross(stock, rate, q2, q1);
    let common = rate * stock * 10_500_000_000;
    let gap = stock * (q2 - q1);
    let d1 = buy_price_denominator(stock, q1);
    let d2 = buy_price_denominator(stock, q2);
    assert(common * (q2 * (stock - q1)) - common * (q1 * (stock - q2)) == common * gap)
        by (nonlinear_arith)
        requires
            q2 * (stock - q1) - q1 * (stock - q2) == gap,
    ;
    assert(d1 * d2 <= 10_000_000_000_000_000 * (stock * stock)) by (nonlinear_arith)
        requires
            d1 == 100_000_000 * (stock - q1),
            d2 == 100_000_000 * (stock - q2),
            0 < q1 < q2 <= stock,
    ;
    assert(common * gap >= 10_000_000_000_000_000 * (stock * stock)) by (nonlinear_arith)
        requires
            common == rate * stock * 10_500_000_000,
            gap == stock * (q2 - q1),
            rate >= 1_000_000,
            q2 - q1 >= 1,
            stock > 0,
    ;
    lemma_quotient_strict_order(
        buy_price_numerator(stock, rate, q1),
        d1,
        buy_price_numerator(stock, rate, q2),
        d2,
    );
}

/// A larger sale never pays less: the price of a sale does not fall as the
/// quantity grows.
pub proof fn lemma_sell_price_monotone(stock: int, rate: int, q1: int, q2: int)
    requires
        rate >= 0,
        stock >= 0,
        0 < q1 <= q2,
    ensures
        sell_price(stock, rate, q1) <= sell_price(stock, rate, q2),
{
    lemma_price_terms(stock, rate, q1);
    lemma_price_terms(stock, rate, q2);
    lemma_sell_cross(stock, rate, q1, q2);
    lemma_sell_cross(stock, rate, q2, q1);
    lemma_nonnegative_product(rate, stock);
    lemma_nonnegative_product(stock, q2 - q1);
    lemma_scaled_order(rate * stock * 11_500_000_000, q1 * (stock + q2), q2 * (stock + q1));
    lemma_quotient_order(
        sell_price_numerator(stock, rate, q1),
        sell_price_denominator(stock, q1),
        sell_price_numerator(stock, rate, q2),
        sell_price_denominator(stock, q2),
    );
}

/// A larger sale pays more: as a fraction, before it is rounded, the price of
/// a sale grows with the quantity, at any rate above zero and from any stock
/// above zero.
pub proof fn lemma_sell_price_fraction_grows(stock: int, rate: int, q1: int, q2: int)
    requires
        rate > 0,
        stock > 0,
        0 < q1 < q2,
    ensures
        sell_price_numerator(stock, rate, q1) * sell_price_denominator(stock, q2)
            < sell_price_numerator(stock, rate, q2) * sell_price_denominator(stock, q1),
{
    lemma_price_terms(stock, rate, q1);
    lemma_price_terms(stock, rate, q2);
    lemma_sell_cross(stock, rate, q1, q2);
    lemma_sell_cross(stock, rate, q2, q1);
    lemma_positive_product(rate, stock);
    lemma_positive_product(stock, q2 - q1);
    lemma_scaled_strict_order(rate * stock * 11_500_000_000, q1 * (stock + q2), q2 * (stock + q1));
}

/// A larger sale pays more: at a rate of four or above, the rounded price of
/// a sale grows with the quantity while the quantity is within the stock, as
/// long as the price is not capped.
pub proof fn lemma_sell_price_grows(stock: int, rate: int, q1: int, q2: int)
    requires
        rate >= 4 * RATE_SCALE,
        0 < q1 < q2 <= stock,
        sell_price(stock, rate, q2) < MAX_AMOUNT,
    ensures
        sell_price(stock, rate, q1) < sell_price(stock, rate, q2),
{
    lemma_price_terms(stock, rate, q1);
    lemma_price_terms(stock, rate, q2);
    lemma_sell_cross(stock, rate, q1, q2);
    lemma_sell_cross(stock, rate, q2, q1);
    let common = rate * stock * 11_500_000_000;
    let gap = stock * (q2 - q1);
    let d1 = sell_price_denominator(stock, q1);
    let d2 = sell_price_denominator(stock, q2);
    assert(common * (q2 * (stock + q1)) - common * (q1 * (stock + q2)) == common * gap)
        by (nonlinear_arith)
        requires
            q2 * (stock + q1) - q1 * (stock + q2) == gap,
    ;
    assert(d1 * d2 <= 40_000_000_000_000_000 * (stock * stock)) by (nonlinear_arith)
        requires
            d1 == 100_000_000 * (stock + q1),
            d2 == 100_000_000 * (stock + q2),
            0 < q1 < q2 <= stock,
    ;
    assert(common * gap >= 40_000_000_000_000_000 * (stock * stock)) by (nonlinear_arith)
        requires
            common == rate * stock * 11_500_000_000,
            gap == stock * (q2 - q1),
            rate >= 4_000_000,
            q2 - q1 >= 1,
            stock > 0,
    ;
    lemma_quotient_strict_order(
        sell_price_numerator(stock, rate, q1),
        d1,
        sell_price_numerator(stock, rate, q2),
        d2,
    );
}

/// The spread between the two prices of one quantity, at one rate and one
/// level of stock. As fractions, before they are rounded, the price of the
/// purchase is above the price of the sale exactly where the quantity is
/// more than a twenty-second of the stock.
pub proof fn lemma_spread_of_fractions(stock: int, rate: int, quantity: int)
    requires
        rate > 0,
        0 < quantity < stock,
    ensures
        (buy_price_numerator(stock, rate, quantity) * sell_price_denominator(stock, quantity)
            > sell_price_numerator(stock, rate, quantity) * buy_price_denominator(stock, quantity))
            <==> 22 * quantity > stock,
{
    lemma_price_terms(stock, rate, quantity);
    let common = quantity * rate * stock * 1_000_000_000;
    assert(((quantity * rate) * (105 * stock)) * (100_000_000 * (stock + quantity)) - ((quantity
        * rate) * (115 * stock)) * (100_000_000 * (stock - quantity)) == common * (22 * quantity
        - stock)) by (nonlinear_arith)
        requires
            common == quantity * rate * stock * 1_000_000_000,
    ;
    lemma_positive_product(quantity, rate);
    lemma_positive_product(quantity * rate, stock);
    assert(common > 0);
    if 22 * quantity > stock {
        lemma_positive_product(common, 22 * quantity - stock);
    } else {
        lemma_nonnegative_product(common, stock - 22 * quantity);
        assert(common * (22 * quantity - stock) == -(common * (stock - 22 * quantity)))
            by (nonlinear_arith);
    }
}

/// The spread between the two prices of one quantity, at one rate and one
/// level of stock: where the quantity is at least a twenty-second of the
/// stock, the rounded price of the purchase is not below that of the sale.
pub proof fn lemma_spread(stock: int, rate: int, quantity: int)
    requires
        rate >= 0,
        0 < quantity <= stock,
        22 * quantity >= stock,
    ensures
        buy_price(stock, rate, quantity) >= sell_price(stock, rate, quantity),
{
    lemma_price_terms(stock, rate, quantity);
    if quantity < stock {
        let common = quantity * rate * stock * 1_000_000_000;
        assert(((quantity * rate) * (105 * stock)) * (100_000_000 * (stock + quantity)) - ((
        quantity * rate) * (115 * stock)) * (100_000_000 * (stock - quantity)) == common * (22
            * quantity - stock)) by (nonlinear_arith)
            requires
                common == quantity * rate * stock * 1_000_000_000,
        ;
        lemma_nonnegative_product(quantity, rate);
        lemma_nonnegative_product(quantity * rate, stock);
        lemma_nonnegative_product(common, 22 * quantity - stock);
        lemma_quotient_order(
            sell_price_numerator(stock, rate, quantity),
            sell_price_denominator(stock, quantity),
            buy_price_numerator(stock, rate, quantity),
            buy_price_denominator(stock, quantity),
        );
    }
}

/// Whether the whole number `k` lies above the fraction `n1 / d1` and not
/// above the fraction `n2 / d2`.
pub open spec fn lies_between(k: int, n1: int, d1: int, n2: int, d2: int) -> bool {
    n1 < k * d1 && k * d2 <= n2
}

/// Rounding down keeps two fractions apart exactly where a whole number lies
/// above the one and not above the other.
pub proof fn lemma_quotients_differ(n1: int, d1: int, n2: int, d2: int)
    requires
        d1 > 0,
        d2 > 0,
    ensures
        n1 / d1 < n2 / d2 <==> exists|k: int| lies_between(k, n1, d1, n2, d2),
{
    let q1 = n1 / d1;
    let q2 = n2 / d2;
    assert(q1 * d1 <= n1 < (q1 + 1) * d1) by (nonlinear_arith)
        requires
            d1 > 0,
            q1 == n1 / d1,
    ;
    assert(q2 * d2 <= n2 < (q2 + 1) * d2) by (nonlinear_arith)
        requires
            d2 > 0,
            q2 == n2 / d2,
    ;
    if q1 < q2 {
        assert((q1 + 1) * d1 <= q2 * d1) by (nonlinear_arith)
            requires
                q1 + 1 <= q2,
                d1 > 0,
        ;
        assert(lies_between(q2, n1, d1, n2, d2));
    }
    if exists|k: int| lies_between(k, n1, d1, n2, d2) {
        let k = choose|k: int| lies_between(k, n1, d1, n2, d2);
        assert(q1 < k) by (nonlinear_arith)
            requires
                q1 * d1 <= n1,
                n1 < k * d1,
                d1 > 0,
        ;
        assert(k <= q2) by (nonlinear_arith)
            requires
                k * d2 <= n2,
                n2 < (q2 + 1) * d2,
                d2 > 0,
        ;
    }
}

/// When a larger purchase costs more. Of two quantities within the stock, the
/// larger has the higher price exactly where the price of the smaller is
/// below the largest amount and either the larger quantity is the whole
/// stock or a whole number lies above the unrounded price of the smaller and
/// not above that of the larger.
pub proof fn lemma_buy_price_grows_exactly(stock: int, rate: int, q1: int, q2: int)
    requires
        rate >= 0,
        0 < q1 < q2 <= stock,
    ensures
        buy_price(stock, rate, q1) < buy_price(stock, rate, q2) <==> buy_price(stock, rate, q1)
            < MAX_AMOUNT && (q2 == stock || exists|k: int|
            lies_between(
                k,
                buy_price_numerator(stock, rate, q1),
                buy_price_denominator(stock, q1),
                buy_price_numerator(stock, rate, q2),
                buy_price_denominator(stock, q2),
            )),
{
    lemma_price_terms(stock, rate, q1);
    lemma_price_terms(stock, rate, q2);
    if q2 < stock {
        lemma_quotients_differ(
            buy_price_numerator(stock, rate, q1),
            buy_price_denominator(stock, q1),
            buy_price_numerator(stock, rate, q2),
            buy_price_denominator(stock, q2),
        );
    }
}

/// When a larger sale pays more. Of two quantities, the larger has the
/// higher price exactly where the price of the smaller is below the largest
/// amount and a whole number lies above the unrounded price of the smaller
/// and not above that of the larger.
pub proof fn lemma_sell_price_grows_exactly(stock: int, rate: int, q1: int, q2: int)
    requires
        rate >= 0,
        stock >= 0,
        0 < q1 < q2,
    ensures
        sell_price(stock, rate, q1) < sell_price(stock, rate, q2) <==> sell_price(stock, rate, q1)
            < MAX_AMOUNT && exists|k: int|
            lies_between(
                k,
                sell_price_numerator(stock, rate, q1),
                sell_price_denominator(stock, q1),
                sell_price_numerator(stock, rate, q2),
                sell_price_denominator(stock, q2),
            ),
{
    lemma_price_terms(stock, rate, q1);
    lemma_price_terms(stock, rate, q2);
    lemma_quotients_differ(
        sell_price_numerator(stock, rate, q1),
        sell_price_denominator(stock, q1),
        sell_price_numerator(stock, rate, q2),
        sell_price_denominator(stock, q2),
    );
}

/// When the purchase of a quantity costs more than its sale pays, at one rate
/// and one level of stock. It does exactly where the price of the sale is
/// below the largest amount and either the quantity is the whole stock or a
/// whole number lies above the unrounded price of the sale and not above
/// that of the purchase.
pub proof fn lemma_spread_exactly(stock: int, rate: int, quantity: int)
    requires
        rate >= 0,
        0 < quantity <= stock,
    ensures
        sell_price(stock, rate, quantity) < buy_price(stock, rate, quantity) <==> sell_price(
            stock,
            rate,
            quantity,
        ) < MAX_AMOUNT && (quantity == stock || exists|k: int|
            lies_between(
                k,
                sell_price_numerator(stock, rate, quantity),
                sell_price_denominator(stock, quantity),
                buy_price_numerator(stock, rate, quantity),
                buy_price_denominator(stock, quantity),
            )),
{
    lemma_price_terms(stock, rate, quantity);
    if quantity < stock {
        lemma_quotients_differ(
            sell_price_numerator(stock, rate, quantity),
            sell_price_denominator(stock, quantity),
            buy_price_numerator(stock, rate, quantity),
            buy_price_denominator(stock, quantity),
        );
    }
}

/// The purchase of a quantity costs more than its sale pays, at one rate and
/// one level of stock, where the unrounded prices are at least one unit
/// apart and the price of the purchase is not capped.
pub proof fn lemma_spread_of_a_unit(stock: int, rate: int, quantity: int)
    requires
        rate >= 0,
        0 < quantity < stock,
        sell_price_numerator(stock, rate, quantity) * buy_price_denominator(stock, quantity)
            + sell_price_denominator(stock, quantity) * buy_price_denominator(stock, quantity)
            <= buy_price_numerator(stock, rate, quantity) * sell_price_denominator(stock, quantity),
        buy_price(stock, rate, quantity) < MAX_AMOUNT,
    ensures
        sell_price(stock, rate, quantity) < buy_price(stock, rate, quantity),
{
    lemma_price_terms(stock, rate, quantity);
    lemma_quotient_strict_order(
        sell_price_numerator(stock, rate, quantity),
        sell_price_denominator(stock, quantity),
        buy_price_numerator(stock, rate, quantity),
        buy_price_denominator(stock, quantity),
    );
}

/// For one good of a market, a larger purchase never costs less and a larger
/// sale never pays less.
pub proof fn lemma_quotes_monotone(goods: Seq<EntryView>, kind: GoodKind, q1: int, q2: int)
    requires
        goods[kind.position()].0.quantity >= 0,
        goods[kind.position()].1.buy_rate >= 0,
        goods[kind.position()].1.sell_rate >= 0,
        0 < q1 <= q2,
    ensures
        q2 <= goods[kind.position()].0.quantity ==> buy_quote(goods, kind, q1) <= buy_quote(
            goods,
            kind,
            q2,
        ),
        sell_quote(goods, kind, q1) <= sell_quote(goods, kind, q2),
{
    let entry = goods[kind.position()];
    if q2 <= entry.0.quantity {
        lemma_buy_price_monotone(entry.0.quantity, entry.1.buy_rate, q1, q2);
    }
    lemma_sell_price_monotone(entry.0.quantity, entry.1.sell_rate, q1, q2);
}

/// For one good of a market at rates of four or above, a larger purchase
/// costs more and a larger sale pays more, within the stock and as long as
/// the prices are not capped.
pub proof fn lemma_quotes_grow(goods: Seq<EntryView>, kind: GoodKind, q1: int, q2: int)
    requires
        goods[kind.position()].1.buy_rate >= 4 * RATE_SCALE,
        goods[kind.position()].1.sell_rate >= 4 * RATE_SCALE,
        0 < q1 < q2 <= goods[kind.position()].0.quantity,
        buy_quote(goods, kind, q2) < MAX_AMOUNT,
        sell_quote(goods, kind, q2) < MAX_AMOUNT,
    ensures
        buy_quote(goods, kind, q1) < buy_quote(goods, kind, q2),
        sell_quote(goods, kind, q1) < sell_quote(goods, kind, q2),
{
    let entry = goods[kind.position()];
    lemma_buy_price_grows(entry.0.quantity, entry.1.buy_rate, q1, q2);
    lemma_sell_price_grows(entry.0.quantity, entry.1.sell_rate, q1, q2);
}

/// For one good of a market whose two rates are the same, the purchase of a
/// quantity of at least a twenty-second of the stock does not cost less than
/// the sale of that quantity pays.
pub proof fn lemma_quotes_spread(goods: Seq<EntryView>, kind: GoodKind, quantity: int)
    requires
        goods[kind.position()].1.buy_rate == goods[kind.position()].1.sell_rate,
        goods[kind.position()].1.buy_rate >= 0,
        0 < quantity <= goods[kind.position()].0.quantity,
        22 * quantity >= goods[kind.position()].0.quantity,
    ensures
        buy_quote(goods, kind, quantity) >= sell_quote(goods, kind, quantity),
{
    let entry = goods[kind.position()];
    lemma_spread(entry.0.quantity, entry.1.buy_rate, quantity);
}

} // verus!
