//! The market itself: an inventory, the events it has to tell and the log
//! lines it has to write.

use vstd::prelude::*;
use vstd::string::*;
use vstd::pervasive::unreached;
use crate::goods::consts::DEFAULT_GOOD_KIND;
use crate::goods::good::{clamped, Good, GoodView};
use crate::goods::good_kind::GoodKind;
use crate::goods::good_label::GoodLabel;
use crate::goods::good_metadata::{fluctuated, texts, MetaView};
use crate::goods::good_storage::{
    buy_locks,
    first_with_buy_token,
    first_with_sell_token,
    four_goods,
    is_label_of,
    sell_locks,
    GoodStorage,
};
use crate::goods::goods_factory::{opening_goods, GoodWithMeta};
use crate::market::consts::{
    DAILY_BUY_PERCENT,
    DAILY_SELL_PERCENT,
    MAX_LOCK_AGE,
    NAME,
    RISE_PERCENT,
    UNLOCKED_GOODS,
};
use crate::market::errors::{BuyError, LockBuyError, LockSellError, MarketGetterError, SellError};
use crate::market::event::{Event, EventKind};
use crate::market::laws::{
    lemma_buy_well_formed,
    lemma_event_well_formed,
    lemma_lock_buy_well_formed,
    lemma_lock_sell_well_formed,
    lemma_opening_goods_well_formed,
    lemma_sell_well_formed,
};
use crate::market::log::{
    log_for_buy,
    log_for_buy_err,
    log_for_lock_buy,
    log_for_lock_buy_err,
    log_for_lock_sell,
    log_for_lock_sell_err,
    log_for_market_init,
    log_for_sell,
    log_for_sell_err,
    market_init_text,
};
use crate::market::model::{
    after_buy,
    after_lock_buy,
    after_lock_sell,
    after_sell,
    buy_quote,
    buy_result,
    cash_after_buy,
    day_older,
    good_after_sell,
    goods_after_day,
    goods_after_event,
    goods_after_lock_buy,
    goods_after_lock_sell,
    lemma_place_of_buy_token,
    lemma_place_of_sell_token,
    lock_buy_refusal,
    lock_buy_result,
    lock_fits,
    lock_sell_refusal,
    lock_sell_result,
    released_buy,
    released_sell,
    result_view,
    sell_quote,
    sell_result,
    well_formed,
    with_payment,
    with_payout,
    MarketView,
};
use crate::market::pricing::{quote_buy, quote_sell};

verus! {

/// The market.
pub struct SGX {
    good_storage: GoodStorage,
    events: Vec<Event>,
    journal: Vec<String>,
}

impl View for SGX {
    type V = MarketView;

    closed spec fn view(&self) -> MarketView {
        MarketView {
            goods: self.good_storage@,
            events: self.events@,
            journal: texts(self.journal@),
        }
    }
}

impl SGX {
    /// Whether the market is in order. Every market that this library makes
    /// is, and stays so.
    pub open spec fn wf(&self) -> bool {
        well_formed(self@.goods)
    }

    /// Puts `event` with the events that the market has to tell.
    fn notify(&mut self, event: Event)
        ensures
            final(self)@ == (MarketView { events: old(self)@.events.push(event), ..old(self)@ }),
    {
        self.events.push(event);
    }

    /// Puts `log_code` with the log lines that the market has to write.
    fn record(&mut self, log_code: String)
        ensures
            final(self)@ == (MarketView {
                journal: old(self)@.journal.push(log_code@),
                ..old(self)@
            }),
    {
        self.journal.push(log_code);
        assert(texts(self.journal@) =~= texts(old(self).journal@).push(log_code@));
    }

    /// Adds a payment to the market's stock of the settlement kind.
    fn merge_default_good(&mut self, other: Good)
        requires
            four_goods(old(self)@.goods),
            other@.kind == DEFAULT_GOOD_KIND,
        ensures
            final(self)@ == (MarketView {
                goods: with_payment(old(self)@.goods, other@.quantity),
                ..old(self)@
            }),
    {
        if let Some(entry) = self.good_storage.get_mut_good_for_kind(&DEFAULT_GOOD_KIND) {
            let _ = entry.0.merge(other);
        }
        assert(self@.goods =~= with_payment(old(self)@.goods, other@.quantity));
    }

    /// Takes a payout from the market's stock of the settlement kind, if the
    /// market holds that much.
    fn split_default_good(&mut self, eur_quantity: i64)
        requires
            four_goods(old(self)@.goods),
        ensures
            final(self)@ == (MarketView {
                goods: with_payout(old(self)@.goods, eur_quantity as int),
                ..old(self)@
            }),
    {
        if let Some(entry) = self.good_storage.get_mut_good_for_kind(&DEFAULT_GOOD_KIND) {
            let _ = entry.0.split(eur_quantity);
        }
        assert(self@.goods =~= with_payout(old(self)@.goods, eur_quantity as int));
    }

    /// Whether a buyer may reserve one more good: two goods must stay free.
    fn can_add_buy_lock(&self) -> (can: bool)
        requires
            self.wf(),
        ensures
            can == (buy_locks(self@.goods) + UNLOCKED_GOODS < self@.goods.len()),
    {
        self.good_storage.get_buy_locks_len() < self.good_storage.len() - UNLOCKED_GOODS
    }

    /// Whether a seller may reserve one more good: two goods must stay free.
    fn can_add_sell_lock(&self) -> (can: bool)
        requires
            self.wf(),
        ensures
            can == (sell_locks(self@.goods) + UNLOCKED_GOODS < self@.goods.len()),
    {
        self.good_storage.get_sell_locks_len() < self.good_storage.len() - UNLOCKED_GOODS
    }

    /// The events that the market has to tell, oldest first; the market keeps
    /// none of them.
    pub fn take_events(&mut self) -> (events: Vec<Event>)
        ensures
            events@ == old(self)@.events,
            final(self)@ == (MarketView { events: Seq::empty(), ..old(self)@ }),
    {
        let mut events: Vec<Event> = Vec::new();
        core::mem::swap(&mut events, &mut self.events);
        events
    }

    /// The log lines that the market has to write, oldest first; the market
    /// keeps none of them.
    pub fn take_log_codes(&mut self) -> (log_codes: Vec<String>)
        ensures
            texts(log_codes@) == old(self)@.journal,
            final(self)@ == (MarketView { journal: Seq::empty(), ..old(self)@ }),
    {
        let mut log_codes: Vec<String> = Vec::new();
        core::mem::swap(&mut log_codes, &mut self.journal);
        assert(texts(self.journal@) =~= Seq::empty());
        log_codes
    }

    /// A market whose four quantities are random and sum up to
    /// `available_quantity`. Its log says how it opened.
    pub fn new_random(available_quantity: i64) -> (market: SGX)
        requires
            available_quantity >= 0,
        ensures
            market.wf(),
            market@.goods == opening_goods(
                market@.goods[0].0.quantity,
                market@.goods[1].0.quantity,
                market@.goods[2].0.quantity,
                market@.goods[3].0.quantity,
            ),
            market@.goods[0].0.quantity + market@.goods[1].0.quantity + market@.goods[2].0.quantity
                + market@.goods[3].0.quantity == available_quantity,
            market@.events == Seq::<Event>::empty(),
            market@.journal == seq![
                market_init_text(
                    market@.goods[0].0.quantity,
                    market@.goods[1].0.quantity,
                    market@.goods[2].0.quantity,
                    market@.goods[3].0.quantity,
                ),
            ],
    {
        let good_storage = GoodStorage::new_random(available_quantity);
        proof {
            lemma_opening_goods_well_formed(
                good_storage@[0].0.quantity,
                good_storage@[1].0.quantity,
                good_storage@[2].0.quantity,
                good_storage@[3].0.quantity,
            );
        }
        let eur = SGX::quantity_of(&good_storage, GoodKind::EUR);
        let usd = SGX::quantity_of(&good_storage, GoodKind::USD);
        let yen = SGX::quantity_of(&good_storage, GoodKind::YEN);
        let yuan = SGX::quantity_of(&good_storage, GoodKind::YUAN);
        let mut journal: Vec<String> = Vec::new();
        journal.push(log_for_market_init(eur, yen, usd, yuan));
        let market = SGX { good_storage, events: Vec::new(), journal };
        assert(market@.journal =~= seq![
            market_init_text(eur as int, yen as int, usd as int, yuan as int),
        ]);
        market
    }

    /// How much of `kind` an inventory of the four goods holds.
    fn quantity_of(good_storage: &GoodStorage, kind: GoodKind) -> (quantity: i64)
        requires
            four_goods(good_storage@),
        ensures
            quantity == good_storage@[kind.position()].0.quantity,
    {
        match good_storage.get_good_for_kind(&kind) {
            Some(entry) => entry.0.get_qty(),
            None => unreached(),
        }
    }

    /// A market with the given quantities of the four goods. Its log says how
    /// it opened.
    pub fn new_with_quantities(eur: i64, yen: i64, usd: i64, yuan: i64) -> (market: SGX)
        requires
            eur >= 0,
            yen >= 0,
            usd >= 0,
            yuan >= 0,
        ensures
            market.wf(),
            market@ == (MarketView {
                goods: opening_goods(eur as int, yen as int, usd as int, yuan as int),
                events: Seq::empty(),
                journal: seq![market_init_text(eur as int, yen as int, usd as int, yuan as int)],
            }),
    {
        proof {
            lemma_opening_goods_well_formed(eur as int, yen as int, usd as int, yuan as int);
        }
        let mut journal: Vec<String> = Vec::new();
        journal.push(log_for_market_init(eur, yen, usd, yuan));
        let market = SGX {
            good_storage: GoodStorage::with_quantities(eur, yen, usd, yuan),
            events: Vec::new(),
            journal,
        };
        assert(market@.journal =~= seq![
            market_init_text(eur as int, yen as int, usd as int, yuan as int),
        ]);
        market
    }

    /// The name of the market.
    pub fn get_name(&self) -> (name: &'static str)
        ensures
            name@ == NAME@,
    {
        NAME
    }

    /// How much of the settlement kind the market holds.
    pub fn get_budget(&self) -> (budget: i64)
        requires
            self.wf(),
        ensures
            budget == self@.goods[0].0.quantity,
    {
        self.good_storage.get_default_good().0.get_qty()
    }

    /// What a trader pays for `quantity` of `kind`. A quantity that is not
    /// positive is refused, and so is one that the market does not hold.
    pub fn get_buy_price(&self, kind: GoodKind, quantity: i64) -> (r: Result<i64, MarketGetterError>)
        requires
            self.wf(),
        ensures
            quantity <= 0 ==> r == Err::<i64, MarketGetterError>(
                MarketGetterError::NonPositiveQuantityAsked,
            ),
            quantity > 0 && quantity > self@.goods[kind.position()].0.quantity ==> r is Err
                && r->Err_0.says_insufficient(
                kind,
                quantity as int,
                self@.goods[kind.position()].0.quantity,
            ),
            0 < quantity <= self@.goods[kind.position()].0.quantity ==> r is Ok && r->Ok_0
                == buy_quote(self@.goods, kind, quantity as int),
    {
        if quantity <= 0 {
            return Err(MarketGetterError::NonPositiveQuantityAsked);
        }
        let (good, meta) = match self.good_storage.get_good_for_kind(&kind) {
            Some(entry) => (&entry.0, &entry.1),
            None => unreached(),
        };
        let available_good_quantity = good.get_qty();
        if available_good_quantity < quantity {
            return Err(
                MarketGetterError::InsufficientGoodQuantityAvailable {
                    requested_good_kind: kind,
                    available_good_quantity,
                    requested_good_quantity: quantity,
                },
            );
        }
        Ok(quote_buy(available_good_quantity, meta.base_buy_price, quantity))
    }

    /// What the market pays for `quantity` of `kind`. A quantity that is not
    /// positive is refused; the market takes any other.
    pub fn get_sell_price(&self, kind: GoodKind, quantity: i64) -> (r: Result<i64, MarketGetterError>)
        requires
            self.wf(),
        ensures
            quantity <= 0 ==> r == Err::<i64, MarketGetterError>(
                MarketGetterError::NonPositiveQuantityAsked,
            ),
            quantity > 0 ==> r is Ok && r->Ok_0 == sell_quote(self@.goods, kind, quantity as int),
    {
        if quantity <= 0 {
            return Err(MarketGetterError::NonPositiveQuantityAsked);
        }
        let (good, meta) = match self.good_storage.get_good_for_kind(&kind) {
            Some(entry) => (&entry.0, &entry.1),
            None => unreached(),
        };
        Ok(quote_sell(good.get_qty(), meta.base_sell_price, quantity))
    }

    /// What the market shows of each of its goods.
    pub fn get_goods(&self) -> (labels: Vec<GoodLabel>)
        ensures
            labels.len() == self@.goods.len(),
            forall|i: int|
                0 <= i < labels.len() ==> is_label_of(#[trigger] labels[i], self@.goods[i]),
    {
        self.good_storage.get_good_labels()
    }

    /// The token of the buyer's reservation on `kind`, if there is one.
    fn buy_token_of(&self, kind: GoodKind) -> (token: Option<String>)
        requires
            self.wf(),
        ensures
            token is Some <==> self@.goods[kind.position()].1.buy is Some,
            token is Some ==> token->Some_0@ == self@.goods[kind.position()].1.buy->Some_0.token,
    {
        match self.good_storage.get_good_for_kind(&kind) {
            Some(entry) => match entry.1.get_buy_lock() {
                Some(lock) => Some(lock.transaction_token.clone()),
                None => None,
            },
            None => unreached(),
        }
    }

    /// Reserves `quantity_to_buy` of `kind_to_buy` for `trader_name` at the
    /// price `bid`, and returns the token to redeem the reservation with.
    pub fn lock_buy(
        &mut self,
        kind_to_buy: GoodKind,
        quantity_to_buy: i64,
        bid: i64,
        trader_name: String,
    ) -> (r: Result<String, LockBuyError>)
        requires
            old(self).wf(),
        ensures
            final(self).wf(),
            result_view(r) == lock_buy_result(
                old(self)@.goods,
                kind_to_buy,
                quantity_to_buy as int,
                bid as int,
                trader_name@,
            ),
            final(self)@ == after_lock_buy(
                old(self)@,
                kind_to_buy,
                quantity_to_buy as int,
                bid as int,
                trader_name@,
            ),
    {
        proof {
            if lock_buy_refusal(
                self@.goods,
                kind_to_buy,
                quantity_to_buy as int,
                bid as int,
            ) is None {
                lemma_lock_buy_well_formed(
                    self@.goods,
                    kind_to_buy,
                    quantity_to_buy as int,
                    bid as int,
                    trader_name@,
                );
            }
        }
        // Is the good reserved already?
        if let Some(token) = self.buy_token_of(kind_to_buy) {
            self.record(log_for_lock_buy_err(trader_name, kind_to_buy, quantity_to_buy, bid));
            return Err(LockBuyError::GoodAlreadyLocked { token });
        }
        // May one more good be reserved?
        if !self.can_add_buy_lock() {
            self.record(log_for_lock_buy_err(trader_name, kind_to_buy, quantity_to_buy, bid));
            return Err(LockBuyError::MaxAllowedLocksReached);
        }
        // Is the quantity there?
        let available = SGX::quantity_of(&self.good_storage, kind_to_buy);
        if quantity_to_buy <= 0 {
            self.record(log_for_lock_buy_err(trader_name, kind_to_buy, quantity_to_buy, bid));
            return Err(
                LockBuyError::NonPositiveQuantityToBuy { negative_quantity_to_buy: quantity_to_buy },
            );
        } else if quantity_to_buy > available {
            self.record(log_for_lock_buy_err(trader_name, kind_to_buy, quantity_to_buy, bid));
            return Err(
                LockBuyError::InsufficientGoodQuantityAvailable {
                    requested_good_kind: kind_to_buy,
                    requested_good_quantity: quantity_to_buy,
                    available_good_quantity: available,
                },
            );
        }
        let lowest_acceptable_bid = match self.get_buy_price(kind_to_buy, quantity_to_buy) {
            Ok(price) => price,
            Err(_) => unreached(),
        };
        if bid <= 0 {
            self.record(log_for_lock_buy_err(trader_name, kind_to_buy, quantity_to_buy, bid));
            return Err(LockBuyError::NonPositiveBid { negative_bid: bid });
        } else if bid < lowest_acceptable_bid {
            self.record(log_for_lock_buy_err(trader_name, kind_to_buy, quantity_to_buy, bid));
            return Err(
                LockBuyError::BidTooLow {
                    requested_good_kind: kind_to_buy,
                    requested_good_quantity: quantity_to_buy,
                    low_bid: bid,
                    lowest_acceptable_bid,
                },
            );
        }
        // Reserve the good and let its price rise.
        let entry = match self.good_storage.get_mut_good_for_kind(&kind_to_buy) {
            Some(entry) => entry,
            None => unreached(),
        };
        let token = entry.1.lock_for_buy(quantity_to_buy, kind_to_buy, bid, trader_name.clone());
        let new_quantity = available - quantity_to_buy;
        entry.1.fluctuate_buy_price_with_factor(available as u64, new_quantity as u64);
        assert(self@.goods =~= goods_after_lock_buy(
            old(self)@.goods,
            kind_to_buy,
            quantity_to_buy as int,
            bid as int,
            trader_name@,
        ));
        self.notify(
            Event {
                kind: EventKind::LockedBuy,
                good_kind: kind_to_buy,
                quantity: quantity_to_buy,
                price: bid,
            },
        );
        self.record(
            log_for_lock_buy(trader_name, kind_to_buy, quantity_to_buy, bid, token.clone()),
        );
        Ok(token)
    }

    /// The token of the seller's reservation on `kind`, if there is one.
    fn sell_token_of(&self, kind: GoodKind) -> (token: Option<String>)
        requires
            self.wf(),
        ensures
            token is Some <==> self@.goods[kind.position()].1.sell is Some,
            token is Some ==> token->Some_0@ == self@.goods[kind.position()].1.sell->Some_0.token,
    {
        match self.good_storage.get_good_for_kind(&kind) {
            Some(entry) => match entry.1.get_sell_lock() {
                Some(lock) => Some(lock.transaction_token.clone()),
                None => None,
            },
            None => unreached(),
        }
    }

    /// Reserves a sale of `quantity_to_sell` of `kind_to_sell` by
    /// `trader_name` at the price `offer`, and returns the token to redeem
    /// the reservation with.
    pub fn lock_sell(
        &mut self,
        kind_to_sell: GoodKind,
        quantity_to_sell: i64,
        offer: i64,
        trader_name: String,
    ) -> (r: Result<String, LockSellError>)
        requires
            old(self).wf(),
        ensures
            final(self).wf(),
            result_view(r) == lock_sell_result(
                old(self)@.goods,
                kind_to_sell,
                quantity_to_sell as int,
                offer as int,
                trader_name@,
            ),
            final(self)@ == after_lock_sell(
                old(self)@,
                kind_to_sell,
                quantity_to_sell as int,
                offer as int,
                trader_name@,
            ),
    {
        proof {
            if lock_sell_refusal(
                self@.goods,
                kind_to_sell,
                quantity_to_sell as int,
                offer as int,
            ) is None {
                lemma_lock_sell_well_formed(
                    self@.goods,
                    kind_to_sell,
                    quantity_to_sell as int,
                    offer as int,
                    trader_name@,
                );
            }
        }
        // Is the good reserved already?
        if let Some(token) = self.sell_token_of(kind_to_sell) {
            self.record(log_for_lock_sell_err(trader_name, kind_to_sell, quantity_to_sell, offer));
            return Err(LockSellError::GoodAlreadyLocked { token });
        }
        // May one more good be reserved?
        if !self.can_add_sell_lock() {
            self.record(log_for_lock_sell_err(trader_name, kind_to_sell, quantity_to_sell, offer));
            return Err(LockSellError::MaxAllowedLocksReached);
        }
        if quantity_to_sell <= 0 {
            self.record(log_for_lock_sell_err(trader_name, kind_to_sell, quantity_to_sell, offer));
            return Err(
                LockSellError::NonPositiveQuantityToSell {
                    negative_quantity_to_sell: quantity_to_sell,
                },
            );
        }
        // Can the market pay the offer?
        if offer > self.get_budget() {
            let available_good_quantity = self.get_budget();
            self.record(log_for_lock_sell_err(trader_name, kind_to_sell, quantity_to_sell, offer));
            return Err(
                LockSellError::InsufficientDefaultGoodQuantityAvailable {
                    offered_good_kind: kind_to_sell,
                    available_good_quantity,
                    offered_good_quantity: quantity_to_sell,
                },
            );
        }
        // Is the offer acceptable?
        let highest_acceptable_offer = match self.get_sell_price(kind_to_sell, quantity_to_sell) {
            Ok(price) => price,
            Err(_) => unreached(),
        };
        if offer <= 0 {
            self.record(log_for_lock_sell_err(trader_name, kind_to_sell, quantity_to_sell, offer));
            return Err(LockSellError::NonPositiveOffer { negative_offer: offer });
        } else if offer > highest_acceptable_offer {
            self.record(log_for_lock_sell_err(trader_name, kind_to_sell, quantity_to_sell, offer));
            return Err(
                LockSellError::OfferTooHigh {
                    offered_good_kind: kind_to_sell,
                    offered_good_quantity: quantity_to_sell,
                    high_offer: offer,
                    highest_acceptable_offer,
                },
            );
        }
        // Reserve the good and let its price fall.
        let entry = match self.good_storage.get_mut_good_for_kind(&kind_to_sell) {
            Some(entry) => entry,
            None => unreached(),
        };
        let token = entry.1.lock_for_sell(quantity_to_sell, kind_to_sell, offer, trader_name.clone());
        let available = entry.0.get_qty();
        let new_quantity: u64 = available as u64 + quantity_to_sell as u64;
        entry.1.fluctuate_sell_price_with_factor(available as u64, new_quantity);
        assert(self@.goods =~= goods_after_lock_sell(
            old(self)@.goods,
            kind_to_sell,
            quantity_to_sell as int,
            offer as int,
            trader_name@,
        ));
        self.notify(
            Event {
                kind: EventKind::LockedSell,
                good_kind: kind_to_sell,
                quantity: quantity_to_sell,
                price: offer,
            },
        );
        self.record(
            log_for_lock_sell(trader_name, kind_to_sell, quantity_to_sell, offer, token.clone()),
        );
        Ok(token)
    }

    /// Settles the purchase that was reserved with `token`: takes the agreed
    /// price out of `cash` and returns the reserved quantity of the good. A
    /// payment that the market does not take leaves the reservation as it
    /// was, for the buyer to come again.
    pub fn buy(&mut self, token: String, cash: &mut Good) -> (r: Result<Good, BuyError>)
        requires
            old(self).wf(),
        ensures
            final(self).wf(),
            result_view(r) == buy_result(old(self)@.goods, token@, old(cash)@),
            final(self)@ == after_buy(old(self)@, token@, old(cash)@),
            final(cash)@ == cash_after_buy(old(self)@.goods, token@, old(cash)@),
    {
        let ghost goods = self@.goods;
        proof {
            lemma_buy_well_formed(goods, token@, cash@);
        }
        let entry = match self.good_storage.get_mut_good_for_buy_token(&token) {
            Some(entry) => entry,
            None => {
                let expired = self.good_storage.has_good_expired_buy_token(&token);
                self.record(log_for_buy_err(token.clone()));
                return if expired {
                    Err(BuyError::ExpiredToken { expired_token: token })
                } else {
                    Err(BuyError::UnrecognizedToken { unrecognized_token: token })
                };
            },
        };
        let ghost place = choose|i: int|
            first_with_buy_token(goods, token@, i) && entry@ == goods[i];
        proof {
            lemma_place_of_buy_token(goods, token@, place);
        }
        let (locked_quantity, agreed_price, locked_kind) = match entry.1.get_buy_lock() {
            Some(lock) => (lock.locked_original_qty, lock.eur_quantity, lock.kind),
            None => unreached(),
        };
        // The market takes the settlement kind alone.
        if cash.get_kind() != DEFAULT_GOOD_KIND {
            assert(self@.goods =~= goods);
            self.record(log_for_buy_err(token.clone()));
            return Err(BuyError::GoodKindNotDefault { non_default_good_kind: cash.get_kind() });
        }
        // The payment must cover the agreed price.
        if cash.get_qty() < agreed_price {
            assert(self@.goods =~= goods);
            self.record(log_for_buy_err(token.clone()));
            return Err(
                BuyError::InsufficientGoodQuantity {
                    contained_quantity: cash.get_qty(),
                    pre_agreed_quantity: agreed_price,
                },
            );
        }
        let old_quantity = entry.0.get_qty();
        match entry.0.split(locked_quantity) {
            Ok(splitted_good) => {
                let new_quantity = old_quantity - locked_quantity;
                entry.1.fluctuate_buy_price_with_factor(old_quantity as u64, new_quantity as u64);
                entry.1.unlock_for_buy();
                let ghost taken = goods.update(
                    place,
                    (
                        GoodView { kind: goods[place].0.kind, quantity: new_quantity as int },
                        MetaView {
                            buy_rate: fluctuated(
                                goods[place].1.buy_rate,
                                old_quantity as int,
                                new_quantity as int,
                            ),
                            ..goods[place].1
                        },
                    ),
                );
                assert(self@.goods =~= released_buy(taken, place));
                self.merge_default_good(Good::new(DEFAULT_GOOD_KIND, agreed_price));
                let _ = cash.split(agreed_price);
                self.notify(
                    Event {
                        kind: EventKind::Bought,
                        good_kind: locked_kind,
                        quantity: locked_quantity,
                        price: agreed_price,
                    },
                );
                self.record(log_for_buy(token));
                Ok(splitted_good)
            },
            Err(_) => {
                entry.1.unlock_for_buy();
                assert(self@.goods =~= released_buy(goods, place));
                self.record(log_for_buy_err(token.clone()));
                Err(
                    BuyError::InsufficientGoodQuantity {
                        contained_quantity: cash.get_qty(),
                        pre_agreed_quantity: locked_quantity,
                    },
                )
            },
        }
    }

    /// Settles the sale that was reserved with `token`: takes the reserved
    /// quantity out of `good` and returns the agreed price. A parcel that
    /// the market does not take leaves the reservation as it was, for the
    /// seller to come again.
    pub fn sell(&mut self, token: String, good: &mut Good) -> (r: Result<Good, SellError>)
        requires
            old(self).wf(),
        ensures
            final(self).wf(),
            result_view(r) == sell_result(old(self)@.goods, token@, old(good)@),
            final(self)@ == after_sell(old(self)@, token@, old(good)@),
            final(good)@ == good_after_sell(old(self)@.goods, token@, old(good)@),
    {
        let ghost goods = self@.goods;
        proof {
            lemma_sell_well_formed(goods, token@, good@);
        }
        let entry = match self.good_storage.get_mut_good_for_sell_token(&token) {
            Some(entry) => entry,
            None => {
                let expired = self.good_storage.has_good_expired_sell_token(&token);
                self.record(log_for_sell_err(token.clone()));
                return if expired {
                    Err(SellError::ExpiredToken { expired_token: token })
                } else {
                    Err(SellError::UnrecognizedToken { unrecognized_token: token })
                };
            },
        };
        let ghost place = choose|i: int|
            first_with_sell_token(goods, token@, i) && entry@ == goods[i];
        proof {
            lemma_place_of_sell_token(goods, token@, place);
        }
        let (locked_quantity, agreed_price, locked_kind) = match entry.1.get_sell_lock() {
            Some(lock) => (lock.locked_original_qty, lock.eur_quantity, lock.kind),
            None => unreached(),
        };
        // The parcel must be of the reserved kind.
        if entry.0.get_kind() != good.get_kind() {
            let pre_agreed_kind = entry.0.get_kind();
            assert(self@.goods =~= goods);
            self.record(log_for_sell_err(token.clone()));
            return Err(
                SellError::WrongGoodKind { wrong_good_kind: good.get_kind(), pre_agreed_kind },
            );
        }
        // The parcel must hold the reserved quantity.
        if good.get_qty() < locked_quantity {
            assert(self@.goods =~= goods);
            self.record(log_for_sell_err(token.clone()));
            return Err(
                SellError::InsufficientGoodQuantity {
                    contained_quantity: good.get_qty(),
                    pre_agreed_quantity: locked_quantity,
                },
            );
        }
        let old_quantity = entry.0.get_qty();
        match good.split(locked_quantity) {
            Ok(remaining) => {
                let _ = entry.0.merge(remaining);
                entry.1.fluctuate_sell_price_with_factor(
                    old_quantity as u64,
                    entry.0.get_qty() as u64,
                );
                entry.1.unlock_for_sell();
                let ghost grown = clamped(old_quantity + locked_quantity);
                let ghost given = goods.update(
                    place,
                    (
                        GoodView { kind: goods[place].0.kind, quantity: grown },
                        MetaView {
                            sell_rate: fluctuated(goods[place].1.sell_rate, old_quantity as int, grown),
                            ..goods[place].1
                        },
                    ),
                );
                assert(self@.goods =~= released_sell(given, place));
                self.split_default_good(agreed_price);
                self.notify(
                    Event {
                        kind: EventKind::Sold,
                        good_kind: locked_kind,
                        quantity: locked_quantity,
                        price: agreed_price,
                    },
                );
                self.record(log_for_sell(token));
                Ok(Good::new(GoodKind::EUR, agreed_price))
            },
            Err(_) => unreached(),
        }
    }

    /// Lets one good with its entry grow a day older.
    fn age_good(entry: &mut GoodWithMeta)
        requires
            lock_fits(old(entry)@.1.buy, old(entry)@.0.kind),
            lock_fits(old(entry)@.1.sell, old(entry)@.0.kind),
        ensures
            final(entry)@ == day_older(old(entry)@),
    {
        // Prices fall from day to day.
        entry.1.fluctuate_buy_price_with_factor(DAILY_BUY_PERCENT, 100);
        entry.1.fluctuate_sell_price_with_factor(DAILY_SELL_PERCENT, 100);
        // Release the seller's reservation if it is due.
        let sell_is_due = match entry.1.get_mut_sell_lock() {
            Some(lock) => {
                if lock.age_in_days < MAX_LOCK_AGE {
                    lock.increase_age_by_one();
                    false
                } else {
                    true
                }
            },
            None => false,
        };
        if sell_is_due {
            entry.1.unlock_for_sell();
        }
        // Release the buyer's reservation if it is due.
        let buy_is_due = match entry.1.get_mut_buy_lock() {
            Some(lock) => {
                if lock.age_in_days < MAX_LOCK_AGE {
                    lock.increase_age_by_one();
                    false
                } else {
                    true
                }
            },
            None => false,
        };
        if buy_is_due {
            entry.1.unlock_for_buy();
        }
    }

    /// Takes note of `event`, which this market or another has told: a trade
    /// moves the rates of its good, a day gone by lets rates fall and
    /// reservations grow older.
    pub fn on_event(&mut self, event: Event)
        requires
            old(self).wf(),
        ensures
            final(self).wf(),
            final(self)@ == (MarketView {
                goods: goods_after_event(old(self)@.goods, event),
                ..old(self)@
            }),
    {
        proof {
            lemma_event_well_formed(self@.goods, event);
        }
        match event.kind {
            EventKind::Bought | EventKind::LockedBuy => {
                let our_price = match self.get_buy_price(event.good_kind, event.quantity) {
                    Ok(our_price) => our_price,
                    _ => {
                        return ;
                    },
                };
                let entry = match self.good_storage.get_mut_good_for_kind(&event.good_kind) {
                    Some(entry) => entry,
                    _ => {
                        return ;
                    },
                };
                entry.1.fluctuate_sell_price_with_factor(RISE_PERCENT, 100);
                // Follow the price down where ours is higher.
                if our_price > event.price {
                    let paid: u64 = if event.price > 0 {
                        event.price as u64
                    } else {
                        0
                    };
                    entry.1.fluctuate_buy_price_with_factor(paid, our_price as u64);
                }
                assert(self@.goods =~= goods_after_event(old(self)@.goods, event));
            },
            EventKind::Sold | EventKind::LockedSell => {
                let our_price = match self.get_sell_price(event.good_kind, event.quantity) {
                    Ok(our_price) => our_price,
                    _ => {
                        return ;
                    },
                };
                let entry = match self.good_storage.get_mut_good_for_kind(&event.good_kind) {
                    Some(entry) => entry,
                    _ => {
                        return ;
                    },
                };
                entry.1.fluctuate_buy_price_with_factor(RISE_PERCENT, 100);
                // Follow the price down where ours is higher.
                if our_price > event.price {
                    let paid: u64 = if event.price > 0 {
                        event.price as u64
                    } else {
                        0
                    };
                    entry.1.fluctuate_sell_price_with_factor(paid, our_price as u64);
                }
                assert(self@.goods =~= goods_after_event(old(self)@.goods, event));
            },
            EventKind::Wait => {
                let ghost goods = self@.goods;
                let mut i: usize = 0;
                while i < self.good_storage.len()
                    invariant
                        well_formed(goods),
                        goods == old(self)@.goods,
                        self@.events == old(self)@.events,
                        self@.journal == old(self)@.journal,
                        self@.goods.len() == goods.len(),
                        i <= goods.len(),
                        forall|j: int| 0 <= j < i ==> self@.goods[j] == day_older(#[trigger] goods[j]),
                        forall|j: int| i <= j < goods.len() ==> self@.goods[j] == #[trigger] goods[j],
                    decreases goods.len() - i,
                {
                    let entry = self.good_storage.get_mut_good_at(i);
                    SGX::age_good(entry);
                    i += 1;
                }
                assert(self@.goods =~= goods_after_day(goods));
            },
        }
    }
}

} // verus!
