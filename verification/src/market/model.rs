//! What a market is and how each request changes it, as plain values. The
//! market's functions are held to this model, and its laws are proved of it.

use vstd::prelude::*;
use crate::goods::consts::{DEFAULT_GOOD_KIND, MAX_AMOUNT};
use crate::goods::good::{clamped, GoodView};
use crate::goods::good_kind::GoodKind;
use crate::goods::good_metadata::{fluctuated, MetaView};
use crate::goods::good_status::{token_text, LockView};
use crate::goods::good_storage::{
    buy_locks,
    expired_buy_token,
    expired_sell_token,
    first_with_buy_token,
    first_with_sell_token,
    four_goods,
    holds_buy_token,
    holds_sell_token,
    no_buy_token,
    no_sell_token,
    sell_locks,
};
use crate::goods::goods_factory::EntryView;
use crate::market::consts::{
    DAILY_BUY_PERCENT,
    DAILY_SELL_PERCENT,
    MAX_LOCK_AGE,
    RISE_PERCENT,
    UNLOCKED_GOODS,
};
use crate::market::errors::{BuyErrorView, LockBuyErrorView, LockSellErrorView, SellErrorView};
use crate::market::event::{Event, EventKind};
use crate::market::log::{lock_buy_text, lock_sell_text};
use crate::market::pricing::{buy_price, sell_price};

verus! {

/// What a market is: its goods with their ledger entries, the events it has
/// not told yet and the log lines it has not handed out yet, oldest first.
pub struct MarketView {
    pub goods: Seq<EntryView>,
    pub events: Seq<Event>,
    pub journal: Seq<Seq<char>>,
}

/// Whether the token of a reservation is the one of some trader's name, the
/// reservation's kind and its quantity.
pub open spec fn issued(lock: LockView) -> bool {
    exists|trader: Seq<char>| lock.token == token_text(trader, lock.kind, lock.quantity)
}

/// Whether a reservation, if there is one, is one that a market makes for a
/// good of `kind`: of that kind, of a positive quantity at a positive price,
/// neither above the largest amount, from one to fifteen days old, and with
/// the token of what it reserves.
pub open spec fn lock_fits(lock: Option<LockView>, kind: GoodKind) -> bool {
    lock is Some ==> {
        &&& lock->Some_0.kind == kind
        &&& 0 < lock->Some_0.quantity <= MAX_AMOUNT
        &&& 0 < lock->Some_0.price <= MAX_AMOUNT
        &&& 1 <= lock->Some_0.age <= MAX_LOCK_AGE
        &&& issued(lock->Some_0)
    }
}

/// Whether the goods are those of a market: the four kinds in their order,
/// every quantity and rate within its range, every reservation fitting its
/// good, and on each side at least two goods without a reservation.
pub open spec fn well_formed(goods: Seq<EntryView>) -> bool {
    &&& four_goods(goods)
    &&& forall|i: int|
        0 <= i < 4 ==> lock_fits((#[trigger] goods[i]).1.buy, goods[i].0.kind) && lock_fits(
            goods[i].1.sell,
            goods[i].0.kind,
        )
    &&& buy_locks(goods) + UNLOCKED_GOODS <= goods.len()
    &&& sell_locks(goods) + UNLOCKED_GOODS <= goods.len()
}

/// The price that the market asks for `quantity` of `kind`.
pub open spec fn buy_quote(goods: Seq<EntryView>, kind: GoodKind, quantity: int) -> int {
    buy_price(goods[kind.position()].0.quantity, goods[kind.position()].1.buy_rate, quantity)
}

/// The price that the market pays for `quantity` of `kind`.
pub open spec fn sell_quote(goods: Seq<EntryView>, kind: GoodKind, quantity: int) -> int {
    sell_price(goods[kind.position()].0.quantity, goods[kind.position()].1.sell_rate, quantity)
}

/// The goods with `amount` more of the settlement kind, capped at the largest
/// amount.
pub open spec fn with_payment(goods: Seq<EntryView>, amount: int) -> Seq<EntryView> {
    goods.update(
        0,
        (GoodView { kind: goods[0].0.kind, quantity: clamped(goods[0].0.quantity + amount) }, goods[0].1),
    )
}

/// The goods with `amount` less of the settlement kind, or unchanged where
/// the market holds less than that or the amount is not positive.
pub open spec fn with_payout(goods: Seq<EntryView>, amount: int) -> Seq<EntryView> {
    if 0 < amount <= goods[0].0.quantity {
        goods.update(
            0,
            (GoodView { kind: goods[0].0.kind, quantity: goods[0].0.quantity - amount }, goods[0].1),
        )
    } else {
        goods
    }
}

/// A result as its view: the view of what was returned, or of the refusal.
pub open spec fn result_view<T: View, E: View>(r: Result<T, E>) -> Result<T::V, E::V> {
    match r {
        Ok(value) => Ok(value@),
        Err(error) => Err(error@),
    }
}

/// Why the market does not reserve `quantity` of `kind` for a buyer who bids
/// `bid`, or `None` where it does. The first reason that holds counts: the
/// good is reserved by a buyer already; only two goods are left unreserved by
/// buyers; the quantity is not positive; the market holds less; the bid is
/// not positive; the bid is below the market's price.
pub open spec fn lock_buy_refusal(goods: Seq<EntryView>, kind: GoodKind, quantity: int, bid: int) -> Option<
    LockBuyErrorView,
> {
    let entry = goods[kind.position()];
    if entry.1.buy is Some {
        Some(LockBuyErrorView::GoodAlreadyLocked { token: entry.1.buy->Some_0.token })
    } else if buy_locks(goods) + UNLOCKED_GOODS >= goods.len() {
        Some(LockBuyErrorView::MaxAllowedLocksReached)
    } else if quantity <= 0 {
        Some(LockBuyErrorView::NonPositiveQuantityToBuy { negative_quantity_to_buy: quantity })
    } else if quantity > entry.0.quantity {
        Some(
            LockBuyErrorView::InsufficientGoodQuantityAvailable {
                requested_good_kind: kind,
                requested_good_quantity: quantity,
                available_good_quantity: entry.0.quantity,
            },
        )
    } else if bid <= 0 {
        Some(LockBuyErrorView::NonPositiveBid { negative_bid: bid })
    } else if bid < buy_quote(goods, kind, quantity) {
        Some(
            LockBuyErrorView::BidTooLow {
                requested_good_kind: kind,
                requested_good_quantity: quantity,
                low_bid: bid,
                lowest_acceptable_bid: buy_quote(goods, kind, quantity),
            },
        )
    } else {
        None
    }
}

/// The goods once `quantity` of `kind` is reserved for `trader` at `bid`: the
/// reservation stands in the good's entry, one day old, and the rate at
/// which the market sells the good has risen by the stock over the stock
/// that the purchase would leave.
pub open spec fn goods_after_lock_buy(
    goods: Seq<EntryView>,
    kind: GoodKind,
    quantity: int,
    bid: int,
    trader: Seq<char>,
) -> Seq<EntryView> {
    let entry = goods[kind.position()];
    goods.update(
        kind.position(),
        (
            entry.0,
            MetaView {
                buy: Some(
                    LockView {
                        quantity,
                        kind,
                        price: bid,
                        token: token_text(trader, kind, quantity),
                        age: 1,
                    },
                ),
                buy_rate: fluctuated(
                    entry.1.buy_rate,
                    entry.0.quantity,
                    entry.0.quantity - quantity,
                ),
                ..entry.1
            },
        ),
    )
}

/// What a request to reserve a purchase returns: the token, or the refusal.
pub open spec fn lock_buy_result(
    goods: Seq<EntryView>,
    kind: GoodKind,
    quantity: int,
    bid: int,
    trader: Seq<char>,
) -> Result<Seq<char>, LockBuyErrorView> {
    match lock_buy_refusal(goods, kind, quantity, bid) {
        Some(refusal) => Err(refusal),
        None => Ok(token_text(trader, kind, quantity)),
    }
}

/// The market after a request to reserve a purchase. A refusal changes the
/// log alone. Otherwise the goods change, the event of the reservation is to
/// be told, and the log holds the token.
pub open spec fn after_lock_buy(
    market: MarketView,
    kind: GoodKind,
    quantity: int,
    bid: int,
    trader: Seq<char>,
) -> MarketView {
    if lock_buy_refusal(market.goods, kind, quantity, bid) is Some {
        MarketView {
            journal: market.journal.push(lock_buy_text(trader, kind, quantity, bid) + "-ERROR"@),
            ..market
        }
    } else {
        MarketView {
            goods: goods_after_lock_buy(market.goods, kind, quantity, bid, trader),
            events: market.events.push(
                Event {
                    kind: EventKind::LockedBuy,
                    good_kind: kind,
                    quantity: quantity as i64,
                    price: bid as i64,
                },
            ),
            journal: market.journal.push(
                lock_buy_text(trader, kind, quantity, bid) + "-TOKEN:"@ + token_text(
                    trader,
                    kind,
                    quantity,
                ),
            ),
        }
    }
}

/// Why the market does not reserve a sale of `quantity` of `kind` at the
/// price `offer`, or `None` where it does. The first reason that holds
/// counts: the good is reserved by a seller already; only two goods are left
/// unreserved by sellers; the quantity is not positive; the market holds less
/// of the settlement kind than the offer; the offer is not positive; the
/// offer is above the market's price.
pub open spec fn lock_sell_refusal(goods: Seq<EntryView>, kind: GoodKind, quantity: int, offer: int) -> Option<
    LockSellErrorView,
> {
    let entry = goods[kind.position()];
    if entry.1.sell is Some {
        Some(LockSellErrorView::GoodAlreadyLocked { token: entry.1.sell->Some_0.token })
    } else if sell_locks(goods) + UNLOCKED_GOODS >= goods.len() {
        Some(LockSellErrorView::MaxAllowedLocksReached)
    } else if quantity <= 0 {
        Some(LockSellErrorView::NonPositiveQuantityToSell { negative_quantity_to_sell: quantity })
    } else if offer > goods[0].0.quantity {
        Some(
            LockSellErrorView::InsufficientDefaultGoodQuantityAvailable {
                offered_good_kind: kind,
                offered_good_quantity: quantity,
                available_good_quantity: goods[0].0.quantity,
            },
        )
    } else if offer <= 0 {
        Some(LockSellErrorView::NonPositiveOffer { negative_offer: offer })
    } else if offer > sell_quote(goods, kind, quantity) {
        Some(
            LockSellErrorView::OfferTooHigh {
                offered_good_kind: kind,
                offered_good_quantity: quantity,
                high_offer: offer,
                highest_acceptable_offer: sell_quote(goods, kind, quantity),
            },
        )
    } else {
        None
    }
}

/// The goods once a sale of `quantity` of `kind` is reserved for `trader` at
/// `offer`: the reservation stands in the good's entry, one day old, and the
/// rate at which the market pays for the good has fallen by the stock over
/// the stock that the sale would make.
pub open spec fn goods_after_lock_sell(
    goods: Seq<EntryView>,
    kind: GoodKind,
    quantity: int,
    offer: int,
    trader: Seq<char>,
) -> Seq<EntryView> {
    let entry = goods[kind.position()];
    goods.update(
        kind.position(),
        (
            entry.0,
            MetaView {
                sell: Some(
                    LockView {
                        quantity,
                        kind,
                        price: offer,
                        token: token_text(trader, kind, quantity),
                        age: 1,
                    },
                ),
                sell_rate: fluctuated(
                    entry.1.sell_rate,
                    entry.0.quantity,
                    entry.0.quantity + quantity,
                ),
                ..entry.1
            },
        ),
    )
}

/// What a request to reserve a sale returns: the token, or the refusal.
pub open spec fn lock_sell_result(
    goods: Seq<EntryView>,
    kind: GoodKind,
    quantity: int,
    offer: int,
    trader: Seq<char>,
) -> Result<Seq<char>, LockSellErrorView> {
    match lock_sell_refusal(goods, kind, quantity, offer) {
        Some(refusal) => Err(refusal),
        None => Ok(token_text(trader, kind, quantity)),
    }
}

/// The market after a request to reserve a sale. A refusal changes the log
/// alone. Otherwise the goods change, the event of the reservation is to be
/// told, and the log holds the token.
pub open spec fn after_lock_sell(
    market: MarketView,
    kind: GoodKind,
    quantity: int,
    offer: int,
    trader: Seq<char>,
) -> MarketView {
    if lock_sell_refusal(market.goods, kind, quantity, offer) is Some {
        MarketView {
            journal: market.journal.push(lock_sell_text(trader, kind, quantity, offer) + "-ERROR"@),
            ..market
        }
    } else {
        MarketView {
            goods: goods_after_lock_sell(market.goods, kind, quantity, offer, trader),
            events: market.events.push(
                Event {
                    kind: EventKind::LockedSell,
                    good_kind: kind,
                    quantity: quantity as i64,
                    price: offer as i64,
                },
            ),
            journal: market.journal.push(
                lock_sell_text(trader, kind, quantity, offer) + "-TOKEN:"@ + token_text(
                    trader,
                    kind,
                    quantity,
                ),
            ),
        }
    }
}

/// The place of the first good that a buyer has reserved with `token`.
pub open spec fn place_of_buy_token(goods: Seq<EntryView>, token: Seq<char>) -> int {
    choose|i: int| first_with_buy_token(goods, token, i)
}

/// The place of the first good that a seller has reserved with `token`.
pub open spec fn place_of_sell_token(goods: Seq<EntryView>, token: Seq<char>) -> int {
    choose|i: int| first_with_sell_token(goods, token, i)
}

/// The goods with the buyer's reservation on the good at place `i` released:
/// its token has joined the expired tokens.
pub open spec fn released_buy(goods: Seq<EntryView>, i: int) -> Seq<EntryView> {
    goods.update(
        i,
        (
            goods[i].0,
            MetaView {
                buy: None,
                expired_buy: goods[i].1.expired_buy.push(goods[i].1.buy->Some_0.token),
                ..goods[i].1
            },
        ),
    )
}

/// The goods with the seller's reservation on the good at place `i`
/// released: its token has joined the expired tokens.
pub open spec fn released_sell(goods: Seq<EntryView>, i: int) -> Seq<EntryView> {
    goods.update(
        i,
        (
            goods[i].0,
            MetaView {
                sell: None,
                expired_sell: goods[i].1.expired_sell.push(goods[i].1.sell->Some_0.token),
                ..goods[i].1
            },
        ),
    )
}

/// Why the market does not settle the purchase reserved with `token` against
/// the payment `cash`, or `None` where it does. A token that stands in no
/// buyer's reservation has expired, if it is among the expired tokens of any
/// good, and is unknown otherwise. For a token that stands in a reservation,
/// the first reason that holds counts: the payment is not of the settlement
/// kind; it holds less than the agreed price; the market holds less of the
/// good than was reserved.
pub open spec fn buy_refusal(goods: Seq<EntryView>, token: Seq<char>, cash: GoodView) -> Option<
    BuyErrorView,
> {
    if no_buy_token(goods, token) {
        if expired_buy_token(goods, token) {
            Some(BuyErrorView::ExpiredToken { expired_token: token })
        } else {
            Some(BuyErrorView::UnrecognizedToken { unrecognized_token: token })
        }
    } else {
        let entry = goods[place_of_buy_token(goods, token)];
        let lock = entry.1.buy->Some_0;
        if cash.kind != DEFAULT_GOOD_KIND {
            Some(BuyErrorView::GoodKindNotDefault { non_default_good_kind: cash.kind })
        } else if cash.quantity < lock.price {
            Some(
                BuyErrorView::InsufficientGoodQuantity {
                    contained_quantity: cash.quantity,
                    pre_agreed_quantity: lock.price,
                },
            )
        } else if entry.0.quantity < lock.quantity {
            Some(
                BuyErrorView::InsufficientGoodQuantity {
                    contained_quantity: cash.quantity,
                    pre_agreed_quantity: lock.quantity,
                },
            )
        } else {
            None
        }
    }
}

/// What a request to settle a purchase returns: a parcel of the reserved
/// quantity of the good, or the refusal.
pub open spec fn buy_result(goods: Seq<EntryView>, token: Seq<char>, cash: GoodView) -> Result<
    GoodView,
    BuyErrorView,
> {
    match buy_refusal(goods, token, cash) {
        Some(refusal) => Err(refusal),
        None => {
            let entry = goods[place_of_buy_token(goods, token)];
            Ok(GoodView { kind: entry.0.kind, quantity: entry.1.buy->Some_0.quantity })
        },
    }
}

/// Whether the payment is one that the market takes for the purchase that is
/// reserved with `token`: of the settlement kind, and no less than the agreed
/// price.
pub open spec fn payment_covers(goods: Seq<EntryView>, token: Seq<char>, cash: GoodView) -> bool {
    cash.kind == DEFAULT_GOOD_KIND && cash.quantity >= goods[place_of_buy_token(
        goods,
        token,
    )].1.buy->Some_0.price
}

/// The goods after a request to settle a purchase. An unknown or expired
/// token changes nothing, and neither does a payment that the market does not
/// take: the reservation stands as it was, for the buyer to come again. Where
/// the market takes the payment but holds less of the good than was
/// reserved, the reservation is released and its token expires. A purchase
/// that is settled releases the reservation and expires the token as well,
/// takes the reserved quantity out of the stock, lets the rate at which the
/// market sells the good rise by the stock over the stock that is left, and
/// adds the agreed price to the market's stock of the settlement kind.
pub open spec fn goods_after_buy(goods: Seq<EntryView>, token: Seq<char>, cash: GoodView) -> Seq<
    EntryView,
> {
    if no_buy_token(goods, token) || !payment_covers(goods, token, cash) {
        goods
    } else {
        let i = place_of_buy_token(goods, token);
        let lock = goods[i].1.buy->Some_0;
        if goods[i].0.quantity < lock.quantity {
            released_buy(goods, i)
        } else {
            let taken = goods.update(
                i,
                (
                    GoodView { kind: goods[i].0.kind, quantity: goods[i].0.quantity - lock.quantity },
                    MetaView {
                        buy_rate: fluctuated(
                            goods[i].1.buy_rate,
                            goods[i].0.quantity,
                            goods[i].0.quantity - lock.quantity,
                        ),
                        ..goods[i].1
                    },
                ),
            );
            with_payment(released_buy(taken, i), lock.price)
        }
    }
}

/// The buyer's payment after a request to settle a purchase: less the agreed
/// price where the purchase is settled, unchanged otherwise.
pub open spec fn cash_after_buy(goods: Seq<EntryView>, token: Seq<char>, cash: GoodView) -> GoodView {
    if buy_refusal(goods, token, cash) is Some {
        cash
    } else {
        GoodView {
            kind: cash.kind,
            quantity: cash.quantity - goods[place_of_buy_token(goods, token)].1.buy->Some_0.price,
        }
    }
}

/// The market after a request to settle a purchase: its goods, the event of
/// the purchase where it is settled, and the log line of the request.
pub open spec fn after_buy(market: MarketView, token: Seq<char>, cash: GoodView) -> MarketView {
    if buy_refusal(market.goods, token, cash) is Some {
        MarketView {
            goods: goods_after_buy(market.goods, token, cash),
            journal: market.journal.push("BUY-TOKEN:"@ + token + "-ERROR"@),
            ..market
        }
    } else {
        let lock = market.goods[place_of_buy_token(market.goods, token)].1.buy->Some_0;
        MarketView {
            goods: goods_after_buy(market.goods, token, cash),
            events: market.events.push(
                Event {
                    kind: EventKind::Bought,
                    good_kind: lock.kind,
                    quantity: lock.quantity as i64,
                    price: lock.price as i64,
                },
            ),
            journal: market.journal.push("BUY-TOKEN:"@ + token + "-OK"@),
        }
    }
}

/// Why the market does not settle the sale reserved with `token` against the
/// parcel `good`, or `None` where it does. A token that stands in no seller's
/// reservation has expired, if it is among the expired tokens of any good,
/// and is unknown otherwise. For a token that stands in a reservation, the
/// first reason that holds counts: the parcel is not of the reserved kind;
/// it holds less than the reserved quantity.
pub open spec fn sell_refusal(goods: Seq<EntryView>, token: Seq<char>, good: GoodView) -> Option<
    SellErrorView,
> {
    if no_sell_token(goods, token) {
        if expired_sell_token(goods, token) {
            Some(SellErrorView::ExpiredToken { expired_token: token })
        } else {
            Some(SellErrorView::UnrecognizedToken { unrecognized_token: token })
        }
    } else {
        let entry = goods[place_of_sell_token(goods, token)];
        let lock = entry.1.sell->Some_0;
        if good.kind != entry.0.kind {
            Some(
                SellErrorView::WrongGoodKind {
                    wrong_good_kind: good.kind,
                    pre_agreed_kind: entry.0.kind,
                },
            )
        } else if good.quantity < lock.quantity {
            Some(
                SellErrorView::InsufficientGoodQuantity {
                    contained_quantity: good.quantity,
                    pre_agreed_quantity: lock.quantity,
                },
            )
        } else {
            None
        }
    }
}

/// What a request to settle a sale returns: a parcel of the settlement kind
/// of exactly the agreed price, or the refusal.
pub open spec fn sell_result(goods: Seq<EntryView>, token: Seq<char>, good: GoodView) -> Result<
    GoodView,
    SellErrorView,
> {
    match sell_refusal(goods, token, good) {
        Some(refusal) => Err(refusal),
        None => Ok(
            GoodView {
                kind: DEFAULT_GOOD_KIND,
                quantity: goods[place_of_sell_token(goods, token)].1.sell->Some_0.price,
            },
        ),
    }
}

/// The goods after a request to settle a sale. A request that is refused
/// changes nothing: an unknown or expired token finds no reservation, and
/// one that is met with a parcel of the wrong kind or of too little stands
/// as it was, for the seller to come again. A sale that is settled releases
/// the reservation and expires the token, adds the reserved quantity to the
/// stock, capped at the largest amount, lets the rate at which the market
/// pays for the good fall by the old stock over the new, and takes the
/// agreed price out of the market's stock of the settlement kind, if the
/// market holds that much.
pub open spec fn goods_after_sell(goods: Seq<EntryView>, token: Seq<char>, good: GoodView) -> Seq<
    EntryView,
> {
    if sell_refusal(goods, token, good) is Some {
        goods
    } else {
        let i = place_of_sell_token(goods, token);
        let lock = goods[i].1.sell->Some_0;
        let grown = clamped(goods[i].0.quantity + lock.quantity);
        let given = goods.update(
            i,
            (
                GoodView { kind: goods[i].0.kind, quantity: grown },
                MetaView {
                    sell_rate: fluctuated(goods[i].1.sell_rate, goods[i].0.quantity, grown),
                    ..goods[i].1
                },
            ),
        );
        with_payout(released_sell(given, i), lock.price)
    }
}

/// The seller's parcel after a request to settle a sale: less the reserved
/// quantity where the sale is settled, unchanged otherwise.
pub open spec fn good_after_sell(goods: Seq<EntryView>, token: Seq<char>, good: GoodView) -> GoodView {
    if sell_refusal(goods, token, good) is Some {
        good
    } else {
        GoodView {
            kind: good.kind,
            quantity: good.quantity - goods[place_of_sell_token(goods, token)].1.sell->Some_0.quantity,
        }
    }
}

/// The market after a request to settle a sale: its goods, the event of the
/// sale where it is settled, and the log line of the request.
pub open spec fn after_sell(market: MarketView, token: Seq<char>, good: GoodView) -> MarketView {
    if sell_refusal(market.goods, token, good) is Some {
        MarketView {
            goods: goods_after_sell(market.goods, token, good),
            journal: market.journal.push("SELL-TOKEN:"@ + token + "-ERROR"@),
            ..market
        }
    } else {
        let lock = market.goods[place_of_sell_token(market.goods, token)].1.sell->Some_0;
        MarketView {
            goods: goods_after_sell(market.goods, token, good),
            events: market.events.push(
                Event {
                    kind: EventKind::Sold,
                    good_kind: lock.kind,
                    quantity: lock.quantity as i64,
                    price: lock.price as i64,
                },
            ),
            journal: market.journal.push("SELL-TOKEN:"@ + token + "-OK"@),
        }
    }
}

/// A token that stands in a buyer's reservation has a first place.
pub proof fn lemma_buy_token_has_place(goods: Seq<EntryView>, token: Seq<char>)
    requires
        !no_buy_token(goods, token),
    ensures
        first_with_buy_token(goods, token, place_of_buy_token(goods, token)),
{
    let j = choose|j: int| 0 <= j < goods.len() && holds_buy_token((#[trigger] goods[j]).1, token);
    lemma_first_buy_place(goods, token, j);
}

/// Below a place that holds a buyer's token there is a first one that does.
proof fn lemma_first_buy_place(goods: Seq<EntryView>, token: Seq<char>, j: int)
    requires
        0 <= j < goods.len(),
        holds_buy_token(goods[j].1, token),
    ensures
        exists|i: int| first_with_buy_token(goods, token, i),
    decreases j,
{
    if exists|k: int| 0 <= k < j && holds_buy_token((#[trigger] goods[k]).1, token) {
        let k = choose|k: int| 0 <= k < j && holds_buy_token((#[trigger] goods[k]).1, token);
        lemma_first_buy_place(goods, token, k);
    } else {
        assert(first_with_buy_token(goods, token, j));
    }
}

/// A token that stands in a seller's reservation has a first place.
pub proof fn lemma_sell_token_has_place(goods: Seq<EntryView>, token: Seq<char>)
    requires
        !no_sell_token(goods, token),
    ensures
        first_with_sell_token(goods, token, place_of_sell_token(goods, token)),
{
    let j = choose|j: int| 0 <= j < goods.len() && holds_sell_token((#[trigger] goods[j]).1, token);
    lemma_first_sell_place(goods, token, j);
}

/// Below a place that holds a seller's token there is a first one that does.
proof fn lemma_first_sell_place(goods: Seq<EntryView>, token: Seq<char>, j: int)
    requires
        0 <= j < goods.len(),
        holds_sell_token(goods[j].1, token),
    ensures
        exists|i: int| first_with_sell_token(goods, token, i),
    decreases j,
{
    if exists|k: int| 0 <= k < j && holds_sell_token((#[trigger] goods[k]).1, token) {
        let k = choose|k: int| 0 <= k < j && holds_sell_token((#[trigger] goods[k]).1, token);
        lemma_first_sell_place(goods, token, k);
    } else {
        assert(first_with_sell_token(goods, token, j));
    }
}

/// The first place of a buyer's token is the only first place.
pub proof fn lemma_place_of_buy_token(goods: Seq<EntryView>, token: Seq<char>, i: int)
    requires
        first_with_buy_token(goods, token, i),
    ensures
        place_of_buy_token(goods, token) == i,
        !no_buy_token(goods, token),
{
    let j = place_of_buy_token(goods, token);
    assert(first_with_buy_token(goods, token, j));
    if j < i {
        assert(!holds_buy_token(goods[j].1, token));
    }
    if i < j {
        assert(!holds_buy_token(goods[i].1, token));
    }
    assert(holds_buy_token(goods[i].1, token));
}

/// The first place of a seller's token is the only first place.
pub proof fn lemma_place_of_sell_token(goods: Seq<EntryView>, token: Seq<char>, i: int)
    requires
        first_with_sell_token(goods, token, i),
    ensures
        place_of_sell_token(goods, token) == i,
        !no_sell_token(goods, token),
{
    let j = place_of_sell_token(goods, token);
    assert(first_with_sell_token(goods, token, j));
    if j < i {
        assert(!holds_sell_token(goods[j].1, token));
    }
    if i < j {
        assert(!holds_sell_token(goods[i].1, token));
    }
    assert(holds_sell_token(goods[i].1, token));
}

/// A reservation one day later: one day older, or gone where it was fifteen
/// days old.
pub open spec fn aged(lock: Option<LockView>) -> Option<LockView> {
    match lock {
        Some(lock) => if lock.age < MAX_LOCK_AGE {
            Some(LockView { age: lock.age + 1, ..lock })
        } else {
            None
        },
        None => None,
    }
}

/// The expired tokens one day later: with the token of the reservation, where
/// that was fifteen days old.
pub open spec fn expired_with(lock: Option<LockView>, expired: Seq<Seq<char>>) -> Seq<Seq<char>> {
    if lock is Some && lock->Some_0.age >= MAX_LOCK_AGE {
        expired.push(lock->Some_0.token)
    } else {
        expired
    }
}

/// A good with its entry one day later. Its rates fall, the one at which the
/// market sells to nine tenths, the one at which it pays to nineteen
/// twentieths. Its reservations grow a day older; one that was fifteen days
/// old is released and its token expires.
pub open spec fn day_older(entry: EntryView) -> EntryView {
    (
        entry.0,
        MetaView {
            buy_rate: fluctuated(entry.1.buy_rate, DAILY_BUY_PERCENT as int, 100),
            sell_rate: fluctuated(entry.1.sell_rate, DAILY_SELL_PERCENT as int, 100),
            sell: aged(entry.1.sell),
            buy: aged(entry.1.buy),
            expired_sell: expired_with(entry.1.sell, entry.1.expired_sell),
            expired_buy: expired_with(entry.1.buy, entry.1.expired_buy),
        },
    )
}

/// The goods one day later.
pub open spec fn goods_after_day(goods: Seq<EntryView>) -> Seq<EntryView> {
    Seq::new(goods.len(), |i: int| day_older(goods[i]))
}

/// A price of an event as a factor's numerator: a negative price counts as
/// zero.
pub open spec fn price_paid(price: int) -> int {
    if price > 0 {
        price
    } else {
        0
    }
}

/// The goods after a purchase, or the reservation of one, of `quantity` of
/// `kind` at `price` on some market. Nothing changes where this market has no
/// price for that quantity. Otherwise the rate at which it pays for the good
/// rises by five percent, and where its own price is above `price`, the rate
/// at which it sells falls by `price` over its own price.
pub open spec fn goods_after_purchase(goods: Seq<EntryView>, kind: GoodKind, quantity: int, price: int) -> Seq<
    EntryView,
> {
    let entry = goods[kind.position()];
    if quantity <= 0 || quantity > entry.0.quantity {
        goods
    } else {
        let ours = buy_quote(goods, kind, quantity);
        goods.update(
            kind.position(),
            (
                entry.0,
                MetaView {
                    sell_rate: fluctuated(entry.1.sell_rate, RISE_PERCENT as int, 100),
                    buy_rate: if ours > price {
                        fluctuated(entry.1.buy_rate, price_paid(price), ours)
                    } else {
                        entry.1.buy_rate
                    },
                    ..entry.1
                },
            ),
        )
    }
}

/// The goods after a sale, or the reservation of one, of `quantity` of `kind`
/// at `price` on some market. Nothing changes where the quantity is not
/// positive. Otherwise the rate at which this market sells the good rises by
/// five percent, and where its own price is above `price`, the rate at which
/// it pays falls by `price` over its own price.
pub open spec fn goods_after_sale(goods: Seq<EntryView>, kind: GoodKind, quantity: int, price: int) -> Seq<
    EntryView,
> {
    let entry = goods[kind.position()];
    if quantity <= 0 {
        goods
    } else {
        let ours = sell_quote(goods, kind, quantity);
        goods.update(
            kind.position(),
            (
                entry.0,
                MetaView {
                    buy_rate: fluctuated(entry.1.buy_rate, RISE_PERCENT as int, 100),
                    sell_rate: if ours > price {
                        fluctuated(entry.1.sell_rate, price_paid(price), ours)
                    } else {
                        entry.1.sell_rate
                    },
                    ..entry.1
                },
            ),
        )
    }
}

/// The goods after the market has heard of `event`.
pub open spec fn goods_after_event(goods: Seq<EntryView>, event: Event) -> Seq<EntryView> {
    match event.kind {
        EventKind::Bought | EventKind::LockedBuy => goods_after_purchase(
            goods,
            event.good_kind,
            event.quantity as int,
            event.price as int,
        ),
        EventKind::Sold | EventKind::LockedSell => goods_after_sale(
            goods,
            event.good_kind,
            event.quantity as int,
            event.price as int,
        ),
        EventKind::Wait => goods_after_day(goods),
    }
}

/// What can be asked of a market.
pub enum Request {
    /// Reserve a purchase.
    LockBuy { kind: GoodKind, quantity: i64, bid: i64, trader: Seq<char> },
    /// Reserve a sale.
    LockSell { kind: GoodKind, quantity: i64, offer: i64, trader: Seq<char> },
    /// Settle a purchase against a payment.
    Buy { token: Seq<char>, cash: GoodView },
    /// Settle a sale against a parcel.
    Sell { token: Seq<char>, good: GoodView },
    /// Take note of an event.
    Hear { event: Event },
}

/// The market after one request.
pub open spec fn after_request(market: MarketView, request: Request) -> MarketView {
    match request {
        Request::LockBuy { kind, quantity, bid, trader } => after_lock_buy(
            market,
            kind,
            quantity as int,
            bid as int,
            trader,
        ),
        Request::LockSell { kind, quantity, offer, trader } => after_lock_sell(
            market,
            kind,
            quantity as int,
            offer as int,
            trader,
        ),
        Request::Buy { token, cash } => after_buy(market, token, cash),
        Request::Sell { token, good } => after_sell(market, token, good),
        Request::Hear { event } => MarketView {
            goods: goods_after_event(market.goods, event),
            ..market
        },
    }
}

/// The market after a sequence of requests, the first of them first.
pub open spec fn after_requests(market: MarketView, requests: Seq<Request>) -> MarketView
    decreases requests.len(),
{
    if requests.len() == 0 {
        market
    } else {
        after_request(after_requests(market, requests.drop_last()), requests.last())
    }
}

/// Whether the request makes the market reserve a purchase with `token`.
pub open spec fn issues_buy_token(market: MarketView, request: Request, token: Seq<char>) -> bool {
    match request {
        Request::LockBuy { kind, quantity, bid, trader } => token_text(
            trader,
            kind,
            quantity as int,
        ) == token && lock_buy_refusal(market.goods, kind, quantity as int, bid as int) is None,
        _ => false,
    }
}

/// Whether the request makes the market reserve a sale with `token`.
pub open spec fn issues_sell_token(market: MarketView, request: Request, token: Seq<char>) -> bool {
    match request {
        Request::LockSell { kind, quantity, offer, trader } => token_text(
            trader,
            kind,
            quantity as int,
        ) == token && lock_sell_refusal(market.goods, kind, quantity as int, offer as int) is None,
        _ => false,
    }
}

/// Whether none of the requests, made in turn, makes the market reserve a
/// purchase with `token`.
pub open spec fn never_issues_buy_token(
    market: MarketView,
    requests: Seq<Request>,
    token: Seq<char>,
) -> bool
    decreases requests.len(),
{
    requests.len() == 0 || (never_issues_buy_token(market, requests.drop_last(), token)
        && !issues_buy_token(
        after_requests(market, requests.drop_last()),
        requests.last(),
        token,
    ))
}

/// Whether none of the requests, made in turn, makes the market reserve a
/// sale with `token`.
pub open spec fn never_issues_sell_token(
    market: MarketView,
    requests: Seq<Request>,
    token: Seq<char>,
) -> bool
    decreases requests.len(),
{
    requests.len() == 0 || (never_issues_sell_token(market, requests.drop_last(), token)
        && !issues_sell_token(
        after_requests(market, requests.drop_last()),
        requests.last(),
        token,
    ))
}

/// The goods after `days` days on which nothing else happens.
pub open spec fn goods_after_days(goods: Seq<EntryView>, days: nat) -> Seq<EntryView>
    decreases days,
{
    if days == 0 {
        goods
    } else {
        goods_after_day(goods_after_days(goods, (days - 1) as nat))
    }
}

} // verus!
