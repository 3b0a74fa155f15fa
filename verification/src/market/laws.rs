//! What holds of every market, whatever is asked of it.

use vstd::prelude::*;
use crate::goods::consts::{DEFAULT_GOOD_KIND, MAX_AMOUNT, MAX_RATE};
use crate::goods::good::{clamped, GoodView};
use crate::goods::good_kind::GoodKind;
use crate::goods::good_metadata::fluctuated;
use crate::goods::good_status::{lemma_token_injective, token_text, LockView};
use crate::goods::good_storage::{
    buy_locks,
    expired_buy_token,
    expired_sell_token,
    holds_buy_token,
    holds_sell_token,
    in_range,
    lemma_locks_of_four,
    lemma_opening_goods_in_range,
    no_buy_token,
    no_sell_token,
    sell_locks,
};
use crate::goods::goods_factory::{opening_goods, EntryView};
use crate::market::consts::{
    DAILY_BUY_PERCENT,
    DAILY_SELL_PERCENT,
    MAX_LOCK_AGE,
    RISE_PERCENT,
    UNLOCKED_GOODS,
};
use crate::market::errors::{BuyErrorView, LockBuyErrorView, LockSellErrorView, SellErrorView};
use crate::market::event::{Event, EventKind};
use crate::market::model::{
    after_buy,
    after_lock_buy,
    after_lock_sell,
    after_request,
    after_requests,
    after_sell,
    aged,
    buy_quote,
    buy_result,
    goods_after_buy,
    goods_after_day,
    goods_after_days,
    goods_after_event,
    goods_after_lock_buy,
    goods_after_lock_sell,
    goods_after_sell,
    issued,
    issues_buy_token,
    issues_sell_token,
    lemma_buy_token_has_place,
    lemma_sell_token_has_place,
    lock_buy_refusal,
    lock_buy_result,
    lock_fits,
    lock_sell_refusal,
    lock_sell_result,
    never_issues_buy_token,
    never_issues_sell_token,
    payment_covers,
    place_of_buy_token,
    place_of_sell_token,
    price_paid,
    released_buy,
    released_sell,
    sell_quote,
    sell_refusal,
    sell_result,
    well_formed,
    MarketView,
    Request,
};
use crate::market::price_laws::lemma_prices_in_range;
use crate::ratio::lemma_capped_quotient_in_range;

verus! {

/// A market opens in order, where its quantities are within the range of
/// amounts.
pub proof fn lemma_opening_goods_well_formed(eur: int, yen: int, usd: int, yuan: int)
    requires
        0 <= eur <= MAX_AMOUNT,
        0 <= yen <= MAX_AMOUNT,
        0 <= usd <= MAX_AMOUNT,
        0 <= yuan <= MAX_AMOUNT,
    ensures
        well_formed(opening_goods(eur, yen, usd, yuan)),
{
    lemma_opening_goods_in_range(eur, yen, usd, yuan);
    lemma_locks_of_four(opening_goods(eur, yen, usd, yuan));
}

/// A rate that is moved by a factor of two numbers that are not negative
/// stays within the range of rates.
pub proof fn lemma_fluctuated_in_range(rate: int, numerator: int, denominator: int)
    requires
        rate >= 0,
        numerator >= 0,
        denominator >= 0,
    ensures
        0 <= fluctuated(rate, numerator, denominator) <= MAX_RATE,
{
    lemma_capped_quotient_in_range(rate, numerator, denominator, MAX_RATE as int);
}

/// A market in order stays in order where its reservations stay as they
/// are, or are released, and its quantities and rates stay within their
/// ranges.
pub proof fn lemma_fewer_locks_well_formed(goods: Seq<EntryView>, after: Seq<EntryView>)
    requires
        well_formed(goods),
        after.len() == 4,
        forall|j: int|
            0 <= j < 4 ==> {
                &&& (#[trigger] after[j]).0.kind == goods[j].0.kind
                &&& in_range(after[j])
                &&& after[j].1.buy == goods[j].1.buy || after[j].1.buy is None
                &&& after[j].1.sell == goods[j].1.sell || after[j].1.sell is None
            },
    ensures
        well_formed(after),
{
    lemma_locks_of_four(goods);
    lemma_locks_of_four(after);
    assert forall|j: int| 0 <= j < 4 implies lock_fits((#[trigger] after[j]).1.buy, after[j].0.kind)
        && lock_fits(after[j].1.sell, after[j].0.kind) by {
        assert(lock_fits(goods[j].1.buy, goods[j].0.kind));
        assert(lock_fits(goods[j].1.sell, goods[j].0.kind));
    }
}

/// A request to reserve a purchase leaves a market in order.
pub proof fn lemma_lock_buy_well_formed(
    goods: Seq<EntryView>,
    kind: GoodKind,
    quantity: int,
    bid: int,
    trader: Seq<char>,
)
    requires
        well_formed(goods),
        bid <= MAX_AMOUNT,
        lock_buy_refusal(goods, kind, quantity, bid) is None,
    ensures
        well_formed(goods_after_lock_buy(goods, kind, quantity, bid, trader)),
{
    let after = goods_after_lock_buy(goods, kind, quantity, bid, trader);
    let entry = goods[kind.position()];
    assert(in_range(entry));
    lemma_locks_of_four(goods);
    lemma_locks_of_four(after);
    lemma_fluctuated_in_range(entry.1.buy_rate, entry.0.quantity, entry.0.quantity - quantity);
    let lock = after[kind.position()].1.buy->Some_0;
    assert(lock.token == token_text(trader, lock.kind, lock.quantity));
    assert(issued(lock));
    assert forall|i: int| 0 <= i < 4 implies lock_fits((#[trigger] after[i]).1.buy, after[i].0.kind)
        && lock_fits(after[i].1.sell, after[i].0.kind) && in_range(after[i]) by {
        assert(lock_fits(goods[i].1.buy, goods[i].0.kind));
        assert(lock_fits(goods[i].1.sell, goods[i].0.kind));
        assert(in_range(goods[i]));
    }
}

/// A request to reserve a sale leaves a market in order.
pub proof fn lemma_lock_sell_well_formed(
    goods: Seq<EntryView>,
    kind: GoodKind,
    quantity: int,
    offer: int,
    trader: Seq<char>,
)
    requires
        well_formed(goods),
        quantity <= MAX_AMOUNT,
        lock_sell_refusal(goods, kind, quantity, offer) is None,
    ensures
        well_formed(goods_after_lock_sell(goods, kind, quantity, offer, trader)),
{
    let after = goods_after_lock_sell(goods, kind, quantity, offer, trader);
    let entry = goods[kind.position()];
    assert(in_range(entry));
    assert(in_range(goods[0]));
    lemma_locks_of_four(goods);
    lemma_locks_of_four(after);
    lemma_fluctuated_in_range(entry.1.sell_rate, entry.0.quantity, entry.0.quantity + quantity);
    let lock = after[kind.position()].1.sell->Some_0;
    assert(lock.token == token_text(trader, lock.kind, lock.quantity));
    assert(issued(lock));
    assert forall|i: int| 0 <= i < 4 implies lock_fits((#[trigger] after[i]).1.buy, after[i].0.kind)
        && lock_fits(after[i].1.sell, after[i].0.kind) && in_range(after[i]) by {
        assert(lock_fits(goods[i].1.buy, goods[i].0.kind));
        assert(lock_fits(goods[i].1.sell, goods[i].0.kind));
        assert(in_range(goods[i]));
    }
}

/// Releasing a buyer's reservation leaves a market in order.
pub proof fn lemma_released_buy_well_formed(goods: Seq<EntryView>, i: int)
    requires
        well_formed(goods),
        0 <= i < 4,
        goods[i].1.buy is Some,
    ensures
        well_formed(released_buy(goods, i)),
{
    let after = released_buy(goods, i);
    assert forall|j: int| 0 <= j < 4 implies in_range(#[trigger] after[j]) by {
        assert(in_range(goods[j]));
    }
    lemma_fewer_locks_well_formed(goods, after);
}

/// Releasing a seller's reservation leaves a market in order.
pub proof fn lemma_released_sell_well_formed(goods: Seq<EntryView>, i: int)
    requires
        well_formed(goods),
        0 <= i < 4,
        goods[i].1.sell is Some,
    ensures
        well_formed(released_sell(goods, i)),
{
    let after = released_sell(goods, i);
    assert forall|j: int| 0 <= j < 4 implies in_range(#[trigger] after[j]) by {
        assert(in_range(goods[j]));
    }
    lemma_fewer_locks_well_formed(goods, after);
}

/// A request to settle a purchase leaves a market in order.
pub proof fn lemma_buy_well_formed(goods: Seq<EntryView>, token: Seq<char>, cash: GoodView)
    requires
        well_formed(goods),
    ensures
        well_formed(goods_after_buy(goods, token, cash)),
{
    let after = goods_after_buy(goods, token, cash);
    if after != goods {
        let i = place_of_buy_token(goods, token);
        lemma_buy_token_has_place(goods, token);
        assert(lock_fits(goods[i].1.buy, goods[i].0.kind));
        let lock = goods[i].1.buy->Some_0;
        if goods[i].0.quantity >= lock.quantity {
            assert(in_range(goods[i]));
            lemma_fluctuated_in_range(
                goods[i].1.buy_rate,
                goods[i].0.quantity,
                goods[i].0.quantity - lock.quantity,
            );
        }
        assert forall|j: int| 0 <= j < 4 implies in_range(#[trigger] after[j]) by {
            assert(in_range(goods[j]));
        }
        lemma_fewer_locks_well_formed(goods, after);
    }
}

/// A request to settle a sale leaves a market in order.
pub proof fn lemma_sell_well_formed(goods: Seq<EntryView>, token: Seq<char>, good: GoodView)
    requires
        well_formed(goods),
    ensures
        well_formed(goods_after_sell(goods, token, good)),
{
    let after = goods_after_sell(goods, token, good);
    if after != goods {
        let i = place_of_sell_token(goods, token);
        lemma_sell_token_has_place(goods, token);
        assert(lock_fits(goods[i].1.sell, goods[i].0.kind));
        let lock = goods[i].1.sell->Some_0;
        assert(in_range(goods[i]));
        lemma_fluctuated_in_range(
            goods[i].1.sell_rate,
            goods[i].0.quantity,
            clamped(goods[i].0.quantity + lock.quantity),
        );
        assert forall|j: int| 0 <= j < 4 implies in_range(#[trigger] after[j]) by {
            assert(in_range(goods[j]));
        }
        lemma_fewer_locks_well_formed(goods, after);
    }
}

/// A reservation that grows a day older, or is released, still fits.
pub proof fn lemma_aged_fits(lock: Option<LockView>, kind: GoodKind)
    requires
        lock_fits(lock, kind),
    ensures
        lock_fits(aged(lock), kind),
{
    if aged(lock) is Some {
        let before = lock->Some_0;
        let after = aged(lock)->Some_0;
        let trader = choose|trader: Seq<char>|
            before.token == token_text(trader, before.kind, before.quantity);
        assert(after.token == token_text(trader, after.kind, after.quantity));
    }
}

/// An event leaves a market in order.
pub proof fn lemma_event_well_formed(goods: Seq<EntryView>, event: Event)
    requires
        well_formed(goods),
    ensures
        well_formed(goods_after_event(goods, event)),
{
    let after = goods_after_event(goods, event);
    lemma_locks_of_four(goods);
    if after != goods {
        assert(after.len() == 4);
        lemma_locks_of_four(after);
        let entry = goods[event.good_kind.position()];
        assert(in_range(entry));
        let quantity = event.quantity as int;
        let price = event.price as int;
        if quantity > 0 {
            lemma_prices_in_range(entry.0.quantity, entry.1.buy_rate, quantity);
            lemma_prices_in_range(entry.0.quantity, entry.1.sell_rate, quantity);
            lemma_fluctuated_in_range(entry.1.sell_rate, RISE_PERCENT as int, 100);
            lemma_fluctuated_in_range(entry.1.buy_rate, RISE_PERCENT as int, 100);
            if quantity <= entry.0.quantity {
                lemma_fluctuated_in_range(
                    entry.1.buy_rate,
                    price_paid(price),
                    buy_quote(goods, event.good_kind, quantity),
                );
            }
            lemma_fluctuated_in_range(
                entry.1.sell_rate,
                price_paid(price),
                sell_quote(goods, event.good_kind, quantity),
            );
        }
        assert forall|j: int| 0 <= j < 4 implies lock_fits(
            (#[trigger] after[j]).1.buy,
            after[j].0.kind,
        ) && lock_fits(after[j].1.sell, after[j].0.kind) && in_range(after[j]) by {
            assert(lock_fits(goods[j].1.buy, goods[j].0.kind));
            assert(lock_fits(goods[j].1.sell, goods[j].0.kind));
            assert(in_range(goods[j]));
            lemma_aged_fits(goods[j].1.buy, goods[j].0.kind);
            lemma_aged_fits(goods[j].1.sell, goods[j].0.kind);
            lemma_fluctuated_in_range(goods[j].1.buy_rate, DAILY_BUY_PERCENT as int, 100);
            lemma_fluctuated_in_range(goods[j].1.sell_rate, DAILY_SELL_PERCENT as int, 100);
        }
    }
}

/// Whatever is asked of a market in order, it stays in order.
pub proof fn lemma_request_keeps_order(market: MarketView, request: Request)
    requires
        well_formed(market.goods),
    ensures
        well_formed(after_request(market, request).goods),
{
    match request {
        Request::LockBuy { kind, quantity, bid, trader } => {
            if lock_buy_refusal(market.goods, kind, quantity as int, bid as int) is None {
                lemma_lock_buy_well_formed(market.goods, kind, quantity as int, bid as int, trader);
            }
        },
        Request::LockSell { kind, quantity, offer, trader } => {
            if lock_sell_refusal(market.goods, kind, quantity as int, offer as int) is None {
                lemma_lock_sell_well_formed(
                    market.goods,
                    kind,
                    quantity as int,
                    offer as int,
                    trader,
                );
            }
        },
        Request::Buy { token, cash } => {
            lemma_buy_well_formed(market.goods, token, cash);
        },
        Request::Sell { token, good } => {
            lemma_sell_well_formed(market.goods, token, good);
        },
        Request::Hear { event } => {
            lemma_event_well_formed(market.goods, event);
        },
    }
}

/// After any sequence of requests a market is in order: it holds the four
/// goods, each within the range of amounts and rates; each side of each good carries one
/// reservation at most, and that one fits the good; and on each side at least
/// two goods are free.
pub proof fn lemma_requests_keep_order(market: MarketView, requests: Seq<Request>)
    requires
        well_formed(market.goods),
    ensures
        well_formed(after_requests(market, requests).goods),
    decreases requests.len(),
{
    if requests.len() > 0 {
        lemma_requests_keep_order(market, requests.drop_last());
        lemma_request_keeps_order(after_requests(market, requests.drop_last()), requests.last());
    }
}

/// A good that a buyer has reserved is not reserved again for a buyer: the
/// request is refused with the token of the reservation that stands, and
/// neither the goods nor the events change.
pub proof fn lemma_reserved_good_refuses_buyers(
    market: MarketView,
    kind: GoodKind,
    quantity: int,
    bid: int,
    trader: Seq<char>,
)
    requires
        market.goods[kind.position()].1.buy is Some,
    ensures
        lock_buy_result(market.goods, kind, quantity, bid, trader) == Err::<
            Seq<char>,
            LockBuyErrorView,
        >(
            LockBuyErrorView::GoodAlreadyLocked {
                token: market.goods[kind.position()].1.buy->Some_0.token,
            },
        ),
        after_lock_buy(market, kind, quantity, bid, trader).goods == market.goods,
        after_lock_buy(market, kind, quantity, bid, trader).events == market.events,
{
}

/// A good that a seller has reserved is not reserved again for a seller: the
/// request is refused with the token of the reservation that stands, and
/// neither the goods nor the events change.
pub proof fn lemma_reserved_good_refuses_sellers(
    market: MarketView,
    kind: GoodKind,
    quantity: int,
    offer: int,
    trader: Seq<char>,
)
    requires
        market.goods[kind.position()].1.sell is Some,
    ensures
        lock_sell_result(market.goods, kind, quantity, offer, trader) == Err::<
            Seq<char>,
            LockSellErrorView,
        >(
            LockSellErrorView::GoodAlreadyLocked {
                token: market.goods[kind.position()].1.sell->Some_0.token,
            },
        ),
        after_lock_sell(market, kind, quantity, offer, trader).goods == market.goods,
        after_lock_sell(market, kind, quantity, offer, trader).events == market.events,
{
}

/// Once a purchase of a good is reserved, a second request to reserve one of
/// that good is refused with the first one's token, whatever it asks for,
/// and changes neither the goods nor the events.
pub proof fn lemma_second_lock_buy_refused(
    market: MarketView,
    kind: GoodKind,
    quantity1: int,
    bid1: int,
    trader1: Seq<char>,
    quantity2: int,
    bid2: int,
    trader2: Seq<char>,
)
    requires
        well_formed(market.goods),
        lock_buy_refusal(market.goods, kind, quantity1, bid1) is None,
    ensures
        ({
            let once = after_lock_buy(market, kind, quantity1, bid1, trader1);
            &&& lock_buy_result(once.goods, kind, quantity2, bid2, trader2) == Err::<
                Seq<char>,
                LockBuyErrorView,
            >(LockBuyErrorView::GoodAlreadyLocked { token: token_text(trader1, kind, quantity1) })
            &&& after_lock_buy(once, kind, quantity2, bid2, trader2).goods == once.goods
            &&& after_lock_buy(once, kind, quantity2, bid2, trader2).events == once.events
        }),
{
    let once = after_lock_buy(market, kind, quantity1, bid1, trader1);
    lemma_reserved_good_refuses_buyers(once, kind, quantity2, bid2, trader2);
}

/// Once a sale of a good is reserved, a second request to reserve one of that
/// good is refused with the first one's token, whatever it asks for, and
/// changes neither the goods nor the events.
pub proof fn lemma_second_lock_sell_refused(
    market: MarketView,
    kind: GoodKind,
    quantity1: int,
    offer1: int,
    trader1: Seq<char>,
    quantity2: int,
    offer2: int,
    trader2: Seq<char>,
)
    requires
        well_formed(market.goods),
        lock_sell_refusal(market.goods, kind, quantity1, offer1) is None,
    ensures
        ({
            let once = after_lock_sell(market, kind, quantity1, offer1, trader1);
            &&& lock_sell_result(once.goods, kind, quantity2, offer2, trader2) == Err::<
                Seq<char>,
                LockSellErrorView,
            >(LockSellErrorView::GoodAlreadyLocked { token: token_text(trader1, kind, quantity1) })
            &&& after_lock_sell(once, kind, quantity2, offer2, trader2).goods == once.goods
            &&& after_lock_sell(once, kind, quantity2, offer2, trader2).events == once.events
        }),
{
    let once = after_lock_sell(market, kind, quantity1, offer1, trader1);
    lemma_reserved_good_refuses_sellers(once, kind, quantity2, offer2, trader2);
}

/// With two goods reserved by buyers, a request to reserve a third for a
/// buyer is refused because too many are reserved, whatever it asks for.
pub proof fn lemma_third_good_refuses_buyers(
    goods: Seq<EntryView>,
    kind: GoodKind,
    quantity: int,
    bid: int,
    trader: Seq<char>,
)
    requires
        buy_locks(goods) + UNLOCKED_GOODS >= goods.len(),
        goods[kind.position()].1.buy is None,
    ensures
        lock_buy_result(goods, kind, quantity, bid, trader) == Err::<Seq<char>, LockBuyErrorView>(
            LockBuyErrorView::MaxAllowedLocksReached,
        ),
{
}

/// With two goods reserved by sellers, a request to reserve a third for a
/// seller is refused because too many are reserved, whatever it asks for.
pub proof fn lemma_third_good_refuses_sellers(
    goods: Seq<EntryView>,
    kind: GoodKind,
    quantity: int,
    offer: int,
    trader: Seq<char>,
)
    requires
        sell_locks(goods) + UNLOCKED_GOODS >= goods.len(),
        goods[kind.position()].1.sell is None,
    ensures
        lock_sell_result(goods, kind, quantity, offer, trader) == Err::<
            Seq<char>,
            LockSellErrorView,
        >(LockSellErrorView::MaxAllowedLocksReached),
{
}

/// The reservations of buyers on two goods of a market have different
/// tokens.
pub proof fn lemma_buy_tokens_differ(goods: Seq<EntryView>, i: int, j: int)
    requires
        well_formed(goods),
        0 <= i < 4,
        0 <= j < 4,
        i != j,
        goods[i].1.buy is Some,
        goods[j].1.buy is Some,
    ensures
        goods[i].1.buy->Some_0.token != goods[j].1.buy->Some_0.token,
{
    let one = goods[i].1.buy->Some_0;
    let other = goods[j].1.buy->Some_0;
    assert(lock_fits(goods[i].1.buy, goods[i].0.kind));
    assert(lock_fits(goods[j].1.buy, goods[j].0.kind));
    let trader1 = choose|trader: Seq<char>| one.token == token_text(trader, one.kind, one.quantity);
    let trader2 = choose|trader: Seq<char>|
        other.token == token_text(trader, other.kind, other.quantity);
    if one.token == other.token {
        lemma_token_injective(trader1, one.kind, one.quantity, trader2, other.kind, other.quantity);
    }
}

/// The reservations of sellers on two goods of a market have different
/// tokens.
pub proof fn lemma_sell_tokens_differ(goods: Seq<EntryView>, i: int, j: int)
    requires
        well_formed(goods),
        0 <= i < 4,
        0 <= j < 4,
        i != j,
        goods[i].1.sell is Some,
        goods[j].1.sell is Some,
    ensures
        goods[i].1.sell->Some_0.token != goods[j].1.sell->Some_0.token,
{
    let one = goods[i].1.sell->Some_0;
    let other = goods[j].1.sell->Some_0;
    assert(lock_fits(goods[i].1.sell, goods[i].0.kind));
    assert(lock_fits(goods[j].1.sell, goods[j].0.kind));
    let trader1 = choose|trader: Seq<char>| one.token == token_text(trader, one.kind, one.quantity);
    let trader2 = choose|trader: Seq<char>|
        other.token == token_text(trader, other.kind, other.quantity);
    if one.token == other.token {
        lemma_token_injective(trader1, one.kind, one.quantity, trader2, other.kind, other.quantity);
    }
}

/// A token that is in a list is in the list with one more token.
proof fn lemma_push_keeps(tokens: Seq<Seq<char>>, added: Seq<char>, token: Seq<char>)
    requires
        tokens.contains(token),
    ensures
        tokens.push(added).contains(token),
{
    let i = choose|i: int| 0 <= i < tokens.len() && tokens[i] == token;
    assert(tokens.push(added)[i] == token);
}

/// A list with one more token holds that token.
proof fn lemma_push_holds(tokens: Seq<Seq<char>>, added: Seq<char>)
    ensures
        tokens.push(added).contains(added),
{
    assert(tokens.push(added)[tokens.len() as int] == added);
}

/// An expired token of a buyer stays expired, whatever is asked of the
/// market: the expired tokens only grow.
pub proof fn lemma_expired_buy_token_stays(market: MarketView, request: Request, token: Seq<char>)
    requires
        well_formed(market.goods),
        expired_buy_token(market.goods, token),
    ensures
        expired_buy_token(after_request(market, request).goods, token),
{
    let goods = market.goods;
    let after = after_request(market, request).goods;
    let j = choose|j: int| 0 <= j < goods.len() && (#[trigger] goods[j]).1.expired_buy.contains(token);
    lemma_request_keeps_order(market, request);
    match request {
        Request::Buy { token: settled, cash } => {
            if !no_buy_token(goods, settled) {
                lemma_buy_token_has_place(goods, settled);
                lemma_push_keeps(goods[j].1.expired_buy, settled, token);
                let i = place_of_buy_token(goods, settled);
                assert(goods[i].1.buy->Some_0.token == settled);
            }
        },
        Request::Sell { token: settled, good } => {
            if !no_sell_token(goods, settled) {
                lemma_sell_token_has_place(goods, settled);
            }
        },
        Request::Hear { event } => {
            if goods[j].1.buy is Some {
                lemma_push_keeps(goods[j].1.expired_buy, goods[j].1.buy->Some_0.token, token);
            }
        },
        _ => {},
    }
    assert(after[j].1.expired_buy.contains(token));
}

/// An expired token of a seller stays expired, whatever is asked of the
/// market: the expired tokens only grow.
pub proof fn lemma_expired_sell_token_stays(market: MarketView, request: Request, token: Seq<char>)
    requires
        well_formed(market.goods),
        expired_sell_token(market.goods, token),
    ensures
        expired_sell_token(after_request(market, request).goods, token),
{
    let goods = market.goods;
    let after = after_request(market, request).goods;
    let j = choose|j: int|
        0 <= j < goods.len() && (#[trigger] goods[j]).1.expired_sell.contains(token);
    lemma_request_keeps_order(market, request);
    match request {
        Request::Buy { token: settled, cash } => {
            if !no_buy_token(goods, settled) {
                lemma_buy_token_has_place(goods, settled);
            }
        },
        Request::Sell { token: settled, good } => {
            if !no_sell_token(goods, settled) {
                lemma_sell_token_has_place(goods, settled);
                lemma_push_keeps(goods[j].1.expired_sell, settled, token);
                let i = place_of_sell_token(goods, settled);
                assert(goods[i].1.sell->Some_0.token == settled);
            }
        },
        Request::Hear { event } => {
            if goods[j].1.sell is Some {
                lemma_push_keeps(goods[j].1.expired_sell, goods[j].1.sell->Some_0.token, token);
            }
        },
        _ => {},
    }
    assert(after[j].1.expired_sell.contains(token));
}

/// A token that stands in no buyer's reservation stands in none after a
/// request either, unless the request makes the market reserve a purchase
/// with that very token.
pub proof fn lemma_buy_token_stays_away(market: MarketView, request: Request, token: Seq<char>)
    requires
        well_formed(market.goods),
        no_buy_token(market.goods, token),
        !issues_buy_token(market, request, token),
    ensures
        no_buy_token(after_request(market, request).goods, token),
{
    let goods = market.goods;
    let after = after_request(market, request).goods;
    lemma_request_keeps_order(market, request);
    match request {
        Request::Buy { token: settled, cash } => {
            if !no_buy_token(goods, settled) {
                lemma_buy_token_has_place(goods, settled);
            }
        },
        Request::Sell { token: settled, good } => {
            if !no_sell_token(goods, settled) {
                lemma_sell_token_has_place(goods, settled);
            }
        },
        _ => {},
    }
    assert forall|j: int| 0 <= j < after.len() implies !holds_buy_token(
        (#[trigger] after[j]).1,
        token,
    ) by {
        assert(!holds_buy_token(goods[j].1, token));
    }
}

/// A token that stands in no seller's reservation stands in none after a
/// request either, unless the request makes the market reserve a sale with
/// that very token.
pub proof fn lemma_sell_token_stays_away(market: MarketView, request: Request, token: Seq<char>)
    requires
        well_formed(market.goods),
        no_sell_token(market.goods, token),
        !issues_sell_token(market, request, token),
    ensures
        no_sell_token(after_request(market, request).goods, token),
{
    let goods = market.goods;
    let after = after_request(market, request).goods;
    lemma_request_keeps_order(market, request);
    match request {
        Request::Buy { token: settled, cash } => {
            if !no_buy_token(goods, settled) {
                lemma_buy_token_has_place(goods, settled);
            }
        },
        Request::Sell { token: settled, good } => {
            if !no_sell_token(goods, settled) {
                lemma_sell_token_has_place(goods, settled);
            }
        },
        _ => {},
    }
    assert forall|j: int| 0 <= j < after.len() implies !holds_sell_token(
        (#[trigger] after[j]).1,
        token,
    ) by {
        assert(!holds_sell_token(goods[j].1, token));
    }
}

/// A payment that the market does not take leaves the reservation as it
/// was. Where the token stands in a buyer's reservation and the payment is
/// of the wrong kind or less than the agreed price, the request is refused,
/// the goods with their reservations and expired tokens are what they were
/// and no event is to be told: the token is still live, and a later request
/// with that token gets the answer that it would have got before.
pub proof fn lemma_refused_payment_keeps_reservation(
    market: MarketView,
    token: Seq<char>,
    cash: GoodView,
    later_cash: GoodView,
)
    requires
        !no_buy_token(market.goods, token),
        !payment_covers(market.goods, token, cash),
    ensures
        buy_result(market.goods, token, cash) is Err,
        after_buy(market, token, cash).goods == market.goods,
        after_buy(market, token, cash).events == market.events,
        !no_buy_token(after_buy(market, token, cash).goods, token),
        buy_result(after_buy(market, token, cash).goods, token, later_cash) == buy_result(
            market.goods,
            token,
            later_cash,
        ),
{
}

/// A parcel that the market does not take leaves the reservation as it was.
/// Where the token stands in a seller's reservation and the parcel is of the
/// wrong kind or holds less than was reserved, the request is refused, the
/// goods with their reservations and expired tokens are what they were and
/// no event is to be told: the token is still live, and a later request with
/// that token gets the answer that it would have got before.
pub proof fn lemma_refused_parcel_keeps_reservation(
    market: MarketView,
    token: Seq<char>,
    good: GoodView,
    later_good: GoodView,
)
    requires
        !no_sell_token(market.goods, token),
        sell_refusal(market.goods, token, good) is Some,
    ensures
        sell_result(market.goods, token, good) is Err,
        after_sell(market, token, good).goods == market.goods,
        after_sell(market, token, good).events == market.events,
        !no_sell_token(after_sell(market, token, good).goods, token),
        sell_result(after_sell(market, token, good).goods, token, later_good) == sell_result(
            market.goods,
            token,
            later_good,
        ),
{
}

/// A request to settle a purchase that finds the token in a reservation and
/// comes with a payment that the market takes expires the token, whether the
/// purchase is settled or the market holds too little of the good:
/// afterwards the token is among the expired tokens and stands in no
/// reservation.
pub proof fn lemma_settled_buy_token_expires(goods: Seq<EntryView>, token: Seq<char>, cash: GoodView)
    requires
        well_formed(goods),
        !no_buy_token(goods, token),
        payment_covers(goods, token, cash),
    ensures
        expired_buy_token(goods_after_buy(goods, token, cash), token),
        no_buy_token(goods_after_buy(goods, token, cash), token),
{
    let after = goods_after_buy(goods, token, cash);
    let i = place_of_buy_token(goods, token);
    lemma_buy_token_has_place(goods, token);
    lemma_buy_well_formed(goods, token, cash);
    lemma_push_holds(goods[i].1.expired_buy, token);
    assert(after[i].1.expired_buy.contains(token));
    assert forall|j: int| 0 <= j < after.len() implies !holds_buy_token(
        (#[trigger] after[j]).1,
        token,
    ) by {
        if j != i && goods[j].1.buy is Some {
            lemma_buy_tokens_differ(goods, i, j);
        }
    }
}

/// A sale that is settled expires its token: afterwards the token is among
/// the expired tokens and stands in no reservation.
pub proof fn lemma_settled_sell_token_expires(goods: Seq<EntryView>, token: Seq<char>, good: GoodView)
    requires
        well_formed(goods),
        sell_refusal(goods, token, good) is None,
    ensures
        expired_sell_token(goods_after_sell(goods, token, good), token),
        no_sell_token(goods_after_sell(goods, token, good), token),
{
    let after = goods_after_sell(goods, token, good);
    let i = place_of_sell_token(goods, token);
    lemma_sell_token_has_place(goods, token);
    lemma_sell_well_formed(goods, token, good);
    lemma_push_holds(goods[i].1.expired_sell, token);
    assert(after[i].1.expired_sell.contains(token));
    assert forall|j: int| 0 <= j < after.len() implies !holds_sell_token(
        (#[trigger] after[j]).1,
        token,
    ) by {
        if j != i && goods[j].1.sell is Some {
            lemma_sell_tokens_differ(goods, i, j);
        }
    }
}

/// A buyer's reservation that is fifteen days old is released when the next
/// day goes by: afterwards its token is among the expired tokens and stands
/// in no reservation.
pub proof fn lemma_old_buy_lock_is_released(goods: Seq<EntryView>, i: int)
    requires
        well_formed(goods),
        0 <= i < 4,
        goods[i].1.buy is Some,
        goods[i].1.buy->Some_0.age == MAX_LOCK_AGE,
    ensures
        goods_after_day(goods)[i].1.buy is None,
        expired_buy_token(goods_after_day(goods), goods[i].1.buy->Some_0.token),
        no_buy_token(goods_after_day(goods), goods[i].1.buy->Some_0.token),
{
    let after = goods_after_day(goods);
    let token = goods[i].1.buy->Some_0.token;
    lemma_push_holds(goods[i].1.expired_buy, token);
    assert(after[i].1.expired_buy.contains(token));
    assert forall|j: int| 0 <= j < after.len() implies !holds_buy_token(
        (#[trigger] after[j]).1,
        token,
    ) by {
        if j != i && goods[j].1.buy is Some {
            lemma_buy_tokens_differ(goods, i, j);
        }
    }
}

/// A seller's reservation that is fifteen days old is released when the next
/// day goes by: afterwards its token is among the expired tokens and stands
/// in no reservation.
pub proof fn lemma_old_sell_lock_is_released(goods: Seq<EntryView>, i: int)
    requires
        well_formed(goods),
        0 <= i < 4,
        goods[i].1.sell is Some,
        goods[i].1.sell->Some_0.age == MAX_LOCK_AGE,
    ensures
        goods_after_day(goods)[i].1.sell is None,
        expired_sell_token(goods_after_day(goods), goods[i].1.sell->Some_0.token),
        no_sell_token(goods_after_day(goods), goods[i].1.sell->Some_0.token),
{
    let after = goods_after_day(goods);
    let token = goods[i].1.sell->Some_0.token;
    lemma_push_holds(goods[i].1.expired_sell, token);
    assert(after[i].1.expired_sell.contains(token));
    assert forall|j: int| 0 <= j < after.len() implies !holds_sell_token(
        (#[trigger] after[j]).1,
        token,
    ) by {
        if j != i && goods[j].1.sell is Some {
            lemma_sell_tokens_differ(goods, i, j);
        }
    }
}

/// An expired token of a buyer is expired for good. Once it is among the
/// expired tokens and stands in no reservation, every later request to
/// settle its purchase is refused because it has expired, never because it
/// is unknown, whatever else has been asked of the market in between, as
/// long as the market has not reserved a purchase with the same token again.
pub proof fn lemma_expired_buy_token_is_final(
    market: MarketView,
    requests: Seq<Request>,
    token: Seq<char>,
    cash: GoodView,
)
    requires
        well_formed(market.goods),
        expired_buy_token(market.goods, token),
        no_buy_token(market.goods, token),
        never_issues_buy_token(market, requests, token),
    ensures
        expired_buy_token(after_requests(market, requests).goods, token),
        no_buy_token(after_requests(market, requests).goods, token),
        buy_result(after_requests(market, requests).goods, token, cash) == Err::<
            GoodView,
            BuyErrorView,
        >(BuyErrorView::ExpiredToken { expired_token: token }),
    decreases requests.len(),
{
    if requests.len() > 0 {
        let before = after_requests(market, requests.drop_last());
        lemma_expired_buy_token_is_final(market, requests.drop_last(), token, cash);
        lemma_requests_keep_order(market, requests.drop_last());
        lemma_expired_buy_token_stays(before, requests.last(), token);
        lemma_buy_token_stays_away(before, requests.last(), token);
    }
}

/// An expired token of a seller is expired for good. Once it is among the
/// expired tokens and stands in no reservation, every later request to
/// settle its sale is refused because it has expired, never because it is
/// unknown, whatever else has been asked of the market in between, as long
/// as the market has not reserved a sale with the same token again.
pub proof fn lemma_expired_sell_token_is_final(
    market: MarketView,
    requests: Seq<Request>,
    token: Seq<char>,
    good: GoodView,
)
    requires
        well_formed(market.goods),
        expired_sell_token(market.goods, token),
        no_sell_token(market.goods, token),
        never_issues_sell_token(market, requests, token),
    ensures
        expired_sell_token(after_requests(market, requests).goods, token),
        no_sell_token(after_requests(market, requests).goods, token),
        sell_result(after_requests(market, requests).goods, token, good) == Err::<
            GoodView,
            SellErrorView,
        >(SellErrorView::ExpiredToken { expired_token: token }),
    decreases requests.len(),
{
    if requests.len() > 0 {
        let before = after_requests(market, requests.drop_last());
        lemma_expired_sell_token_is_final(market, requests.drop_last(), token, good);
        lemma_requests_keep_order(market, requests.drop_last());
        lemma_expired_sell_token_stays(before, requests.last(), token);
        lemma_sell_token_stays_away(before, requests.last(), token);
    }
}

/// Days on which nothing else happens leave a market in order.
pub proof fn lemma_days_keep_order(goods: Seq<EntryView>, days: nat)
    requires
        well_formed(goods),
    ensures
        well_formed(goods_after_days(goods, days)),
    decreases days,
{
    if days > 0 {
        lemma_days_keep_order(goods, (days - 1) as nat);
        lemma_event_well_formed(
            goods_after_days(goods, (days - 1) as nat),
            Event {
                kind: EventKind::Wait,
                good_kind: DEFAULT_GOOD_KIND,
                quantity: 0,
                price: 0,
            },
        );
    }
}

/// Once a request to settle a purchase has found the token in a reservation
/// and come with a payment that the market takes, every later request to
/// settle a purchase with that token is refused because the token has
/// expired, whatever else has been asked of the market in between, as long
/// as the market has not reserved a purchase with the same token again.
pub proof fn lemma_redeemed_buy_token_is_final(
    market: MarketView,
    token: Seq<char>,
    cash: GoodView,
    requests: Seq<Request>,
    later_cash: GoodView,
)
    requires
        well_formed(market.goods),
        !no_buy_token(market.goods, token),
        payment_covers(market.goods, token, cash),
        never_issues_buy_token(after_buy(market, token, cash), requests, token),
    ensures
        buy_result(
            after_requests(after_buy(market, token, cash), requests).goods,
            token,
            later_cash,
        ) == Err::<GoodView, BuyErrorView>(BuyErrorView::ExpiredToken { expired_token: token }),
{
    lemma_settled_buy_token_expires(market.goods, token, cash);
    lemma_buy_well_formed(market.goods, token, cash);
    lemma_expired_buy_token_is_final(after_buy(market, token, cash), requests, token, later_cash);
}

/// Once a sale is settled, every later request to settle a sale with its
/// token is refused because the token has expired, whatever else has been
/// asked of the market in between, as long as the market has not reserved a
/// sale with the same token again.
pub proof fn lemma_redeemed_sell_token_is_final(
    market: MarketView,
    token: Seq<char>,
    good: GoodView,
    requests: Seq<Request>,
    later_good: GoodView,
)
    requires
        well_formed(market.goods),
        sell_refusal(market.goods, token, good) is None,
        never_issues_sell_token(after_sell(market, token, good), requests, token),
    ensures
        sell_result(
            after_requests(after_sell(market, token, good), requests).goods,
            token,
            later_good,
        ) == Err::<GoodView, SellErrorView>(SellErrorView::ExpiredToken { expired_token: token }),
{
    lemma_settled_sell_token_expires(market.goods, token, good);
    lemma_sell_well_formed(market.goods, token, good);
    lemma_expired_sell_token_is_final(after_sell(market, token, good), requests, token, later_good);
}

/// Once a buyer's reservation has aged past fifteen days, every later request
/// to settle a purchase with its token is refused because the token has
/// expired, whatever else has been asked of the market in between, as long
/// as the market has not reserved a purchase with the same token again.
pub proof fn lemma_timed_out_buy_token_is_final(
    market: MarketView,
    i: int,
    requests: Seq<Request>,
    cash: GoodView,
)
    requires
        well_formed(market.goods),
        0 <= i < 4,
        market.goods[i].1.buy is Some,
        market.goods[i].1.buy->Some_0.age == MAX_LOCK_AGE,
        never_issues_buy_token(
            MarketView { goods: goods_after_day(market.goods), ..market },
            requests,
            market.goods[i].1.buy->Some_0.token,
        ),
    ensures
        buy_result(
            after_requests(
                MarketView { goods: goods_after_day(market.goods), ..market },
                requests,
            ).goods,
            market.goods[i].1.buy->Some_0.token,
            cash,
        ) == Err::<GoodView, BuyErrorView>(
            BuyErrorView::ExpiredToken { expired_token: market.goods[i].1.buy->Some_0.token },
        ),
{
    let token = market.goods[i].1.buy->Some_0.token;
    let next = MarketView { goods: goods_after_day(market.goods), ..market };
    lemma_old_buy_lock_is_released(market.goods, i);
    lemma_days_keep_order(market.goods, 1);
    assert(goods_after_days(market.goods, 1) == goods_after_day(goods_after_days(market.goods, 0)));
    lemma_expired_buy_token_is_final(next, requests, token, cash);
}

/// Once a seller's reservation has aged past fifteen days, every later
/// request to settle a sale with its token is refused because the token has
/// expired, whatever else has been asked of the market in between, as long
/// as the market has not reserved a sale with the same token again.
pub proof fn lemma_timed_out_sell_token_is_final(
    market: MarketView,
    i: int,
    requests: Seq<Request>,
    good: GoodView,
)
    requires
        well_formed(market.goods),
        0 <= i < 4,
        market.goods[i].1.sell is Some,
        market.goods[i].1.sell->Some_0.age == MAX_LOCK_AGE,
        never_issues_sell_token(
            MarketView { goods: goods_after_day(market.goods), ..market },
            requests,
            market.goods[i].1.sell->Some_0.token,
        ),
    ensures
        sell_result(
            after_requests(
                MarketView { goods: goods_after_day(market.goods), ..market },
                requests,
            ).goods,
            market.goods[i].1.sell->Some_0.token,
            good,
        ) == Err::<GoodView, SellErrorView>(
            SellErrorView::ExpiredToken { expired_token: market.goods[i].1.sell->Some_0.token },
        ),
{
    let token = market.goods[i].1.sell->Some_0.token;
    let next = MarketView { goods: goods_after_day(market.goods), ..market };
    lemma_old_sell_lock_is_released(market.goods, i);
    lemma_days_keep_order(market.goods, 1);
    assert(goods_after_days(market.goods, 1) == goods_after_day(goods_after_days(market.goods, 0)));
    lemma_expired_sell_token_is_final(next, requests, token, good);
}

/// A buyer's reservation that is not redeemed grows a day older with each
/// day, up to fifteen days.
pub proof fn lemma_buy_lock_ages(goods: Seq<EntryView>, i: int, days: nat)
    requires
        well_formed(goods),
        0 <= i < 4,
        goods[i].1.buy is Some,
        goods[i].1.buy->Some_0.age + days <= MAX_LOCK_AGE,
    ensures
        goods_after_days(goods, days)[i].1.buy == Some(
            LockView { age: goods[i].1.buy->Some_0.age + days, ..goods[i].1.buy->Some_0 },
        ),
    decreases days,
{
    if days > 0 {
        lemma_buy_lock_ages(goods, i, (days - 1) as nat);
        lemma_days_keep_order(goods, (days - 1) as nat);
    }
}

/// A seller's reservation that is not redeemed grows a day older with each
/// day, up to fifteen days.
pub proof fn lemma_sell_lock_ages(goods: Seq<EntryView>, i: int, days: nat)
    requires
        well_formed(goods),
        0 <= i < 4,
        goods[i].1.sell is Some,
        goods[i].1.sell->Some_0.age + days <= MAX_LOCK_AGE,
    ensures
        goods_after_days(goods, days)[i].1.sell == Some(
            LockView { age: goods[i].1.sell->Some_0.age + days, ..goods[i].1.sell->Some_0 },
        ),
    decreases days,
{
    if days > 0 {
        lemma_sell_lock_ages(goods, i, (days - 1) as nat);
        lemma_days_keep_order(goods, (days - 1) as nat);
    }
}

/// A buyer's reservation times out: one that has just been made, and is not
/// redeemed, still stands after fourteen days and is released on the
/// fifteenth; from then on its token is among the expired tokens and stands
/// in no reservation.
pub proof fn lemma_buy_lock_times_out(goods: Seq<EntryView>, i: int)
    requires
        well_formed(goods),
        0 <= i < 4,
        goods[i].1.buy is Some,
        goods[i].1.buy->Some_0.age == 1,
    ensures
        goods_after_days(goods, 14)[i].1.buy is Some,
        goods_after_days(goods, 15)[i].1.buy is None,
        expired_buy_token(goods_after_days(goods, 15), goods[i].1.buy->Some_0.token),
        no_buy_token(goods_after_days(goods, 15), goods[i].1.buy->Some_0.token),
{
    lemma_buy_lock_ages(goods, i, 14);
    lemma_days_keep_order(goods, 14);
    lemma_old_buy_lock_is_released(goods_after_days(goods, 14), i);
    assert(goods_after_days(goods, 15) == goods_after_day(goods_after_days(goods, 14)));
}

/// A seller's reservation times out: one that has just been made, and is not
/// redeemed, still stands after fourteen days and is released on the
/// fifteenth; from then on its token is among the expired tokens and stands
/// in no reservation.
pub proof fn lemma_sell_lock_times_out(goods: Seq<EntryView>, i: int)
    requires
        well_formed(goods),
        0 <= i < 4,
        goods[i].1.sell is Some,
        goods[i].1.sell->Some_0.age == 1,
    ensures
        goods_after_days(goods, 14)[i].1.sell is Some,
        goods_after_days(goods, 15)[i].1.sell is None,
        expired_sell_token(goods_after_days(goods, 15), goods[i].1.sell->Some_0.token),
        no_sell_token(goods_after_days(goods, 15), goods[i].1.sell->Some_0.token),
{
    lemma_sell_lock_ages(goods, i, 14);
    lemma_days_keep_order(goods, 14);
    lemma_old_sell_lock_is_released(goods_after_days(goods, 14), i);
    assert(goods_after_days(goods, 15) == goods_after_day(goods_after_days(goods, 14)));
}

} // verus!
