use sgx_market::goods::consts::{MAX_AMOUNT, RATE_SCALE, STARTING_CAPITAL};
use sgx_market::goods::good::Good;
use sgx_market::goods::good_kind::GoodKind;
use sgx_market::goods::good_label::GoodLabel;
use sgx_market::market::errors::{
    BuyError, LockBuyError, LockSellError, MarketGetterError, SellError,
};
use sgx_market::market::event::{Event, EventKind};
use sgx_market::market::sgx::SGX;

fn thousand_each() -> SGX {
    SGX::new_with_quantities(1000, 1000, 1000, 1000)
}

fn label(market: &SGX, kind: GoodKind) -> GoodLabel {
    *market
        .get_goods()
        .iter()
        .find(|l| l.good_kind == kind)
        .unwrap()
}

fn a_day() -> Event {
    Event {
        kind: EventKind::Wait,
        good_kind: GoodKind::EUR,
        quantity: 0,
        price: 0,
    }
}

#[test]
fn test_name() {
    let market = SGX::new_random(STARTING_CAPITAL);
    assert_eq!("SGX", market.get_name());
}

#[test]
fn test_get_name() {
    let market = thousand_each();
    assert_eq!("SGX", market.get_name());
}

#[test]
fn test_get_buy_price_success() {
    let market = thousand_each();
    let price = market.get_buy_price(GoodKind::USD, 100).unwrap();
    assert!(price > 0);
    assert_eq!(120, price);
    assert_eq!(Ok(1), market.get_buy_price(GoodKind::USD, 1));
    assert_eq!(Ok(1535), market.get_buy_price(GoodKind::YEN, 10));
    assert_eq!(Ok(78), market.get_buy_price(GoodKind::YUAN, 10));
    assert_eq!(Ok(10), market.get_buy_price(GoodKind::EUR, 10));
}

#[test]
fn test_get_buy_price_insufficient_qty_error() {
    let market = thousand_each();
    assert_eq!(
        Err(MarketGetterError::InsufficientGoodQuantityAvailable {
            requested_good_kind: GoodKind::USD,
            requested_good_quantity: 1001,
            available_good_quantity: 1000,
        }),
        market.get_buy_price(GoodKind::USD, 1001)
    );
}

#[test]
fn test_get_buy_price_non_positive_error() {
    let market = thousand_each();
    assert_eq!(
        Err(MarketGetterError::NonPositiveQuantityAsked),
        market.get_buy_price(GoodKind::USD, 0)
    );
    assert_eq!(
        Err(MarketGetterError::NonPositiveQuantityAsked),
        market.get_buy_price(GoodKind::USD, -1)
    );
}

#[test]
fn test_get_sell_price_success() {
    let market = thousand_each();
    let price = market.get_sell_price(GoodKind::USD, 100).unwrap();
    assert!(price > 0);
    assert_eq!(100, price);
    assert_eq!(Ok(11), market.get_sell_price(GoodKind::EUR, 10));
    assert_eq!(Ok(14), market.get_sell_price(GoodKind::YUAN, 100));
    assert_eq!(Ok(0), market.get_sell_price(GoodKind::YEN, 10));
    // The market takes more than it holds.
    assert_eq!(Ok(554), market.get_sell_price(GoodKind::USD, 999));
    assert!(market.get_sell_price(GoodKind::USD, MAX_AMOUNT).is_ok());
}

#[test]
fn test_get_sell_price_non_positive_error() {
    let market = thousand_each();
    assert_eq!(
        Err(MarketGetterError::NonPositiveQuantityAsked),
        market.get_sell_price(GoodKind::USD, 0)
    );
    assert_eq!(
        Err(MarketGetterError::NonPositiveQuantityAsked),
        market.get_sell_price(GoodKind::USD, -7)
    );
}

#[test]
fn test_deadlock_prevention() {
    let mut market = thousand_each();
    assert!(market
        .lock_buy(GoodKind::YEN, 10, 1535, "t".to_string())
        .is_ok());
    assert!(market
        .lock_buy(GoodKind::USD, 100, 120, "t".to_string())
        .is_ok());
    assert_eq!(
        Err(LockBuyError::MaxAllowedLocksReached),
        market.lock_buy(GoodKind::YUAN, 10, 78, "t".to_string())
    );
    assert_eq!(
        Err(LockBuyError::MaxAllowedLocksReached),
        market.lock_buy(GoodKind::EUR, -10, -78, "t".to_string())
    );

    assert!(market
        .lock_sell(GoodKind::EUR, 10, 11, "t".to_string())
        .is_ok());
    assert!(market
        .lock_sell(GoodKind::YUAN, 100, 14, "t".to_string())
        .is_ok());
    assert_eq!(
        Err(LockSellError::MaxAllowedLocksReached),
        market.lock_sell(GoodKind::USD, 100, 100, "t".to_string())
    );
    assert_eq!(
        Err(LockSellError::MaxAllowedLocksReached),
        market.lock_sell(GoodKind::YEN, 0, 0, "t".to_string())
    );
}

#[test]
fn test_new_random() {
    let market = SGX::new_random(STARTING_CAPITAL);
    let goods = market.get_goods();
    assert_eq!(4, goods.len());
    assert!(goods.iter().all(|l| l.quantity >= 0));
    assert_eq!(
        STARTING_CAPITAL,
        goods.iter().map(|l| l.quantity).sum::<i64>()
    );
    let other = SGX::new_random(7);
    assert_eq!(7, other.get_goods().iter().map(|l| l.quantity).sum::<i64>());
    let empty = SGX::new_random(0);
    assert!(empty.get_goods().iter().all(|l| l.quantity == 0));
}

#[test]
fn new_random_should_not_exceed_starting_capital() {
    for _ in 0..20 {
        let market = SGX::new_random(STARTING_CAPITAL);
        let total: i64 = market.get_goods().iter().map(|l| l.quantity).sum();
        assert!(total <= STARTING_CAPITAL);
        assert!(market.get_budget() >= 1);
    }
}

#[test]
fn should_initialize_with_right_quantity() {
    let market = SGX::new_with_quantities(15, 25, 35, 45);
    assert_eq!(15, label(&market, GoodKind::EUR).quantity);
    assert_eq!(25, label(&market, GoodKind::YEN).quantity);
    assert_eq!(35, label(&market, GoodKind::USD).quantity);
    assert_eq!(45, label(&market, GoodKind::YUAN).quantity);
}

#[test]
fn test_price_change_after_buy() {
    let mut market = thousand_each();
    let before = market.get_buy_price(GoodKind::USD, 100).unwrap();
    let token = market
        .lock_buy(GoodKind::USD, 100, before, "bob".to_string())
        .unwrap();
    assert_eq!(1_150_844, label(&market, GoodKind::USD).exchange_rate_buy);
    let mut cash = Good::new(GoodKind::EUR, before);
    market.buy(token, &mut cash).unwrap();
    assert_eq!(1_278_715, label(&market, GoodKind::USD).exchange_rate_buy);
    let after = market.get_buy_price(GoodKind::USD, 100).unwrap();
    assert_eq!(151, after);
    assert!(after > before);
}

#[test]
fn test_price_increase() {
    let mut market = thousand_each();
    let before = market.get_buy_price(GoodKind::USD, 100).unwrap();
    market
        .lock_buy(GoodKind::USD, 100, before, "bob".to_string())
        .unwrap();
    let after = market.get_buy_price(GoodKind::USD, 100).unwrap();
    assert_eq!(120, before);
    assert_eq!(134, after);
}

#[test]
fn test_price_change_after_sell() {
    let mut market = thousand_each();
    let before = market.get_sell_price(GoodKind::USD, 100).unwrap();
    let token = market
        .lock_sell(GoodKind::USD, 100, before, "bob".to_string())
        .unwrap();
    assert_eq!(877_703, label(&market, GoodKind::USD).exchange_rate_sell);
    let mut parcel = Good::new(GoodKind::USD, 100);
    market.sell(token, &mut parcel).unwrap();
    assert_eq!(797_911, label(&market, GoodKind::USD).exchange_rate_sell);
    let after = market.get_sell_price(GoodKind::USD, 100).unwrap();
    assert_eq!(84, after);
    assert!(after < before);
}

#[test]
fn price_changes_waiting() {
    let mut market = thousand_each();
    let before = market.get_goods();
    market.on_event(a_day());
    let after = market.get_goods();
    for (old, new) in before.iter().zip(after.iter()) {
        assert_eq!(old.good_kind, new.good_kind);
        assert_eq!(old.quantity, new.quantity);
        assert_eq!(old.exchange_rate_buy * 90 / 100, new.exchange_rate_buy);
        assert_eq!(old.exchange_rate_sell * 95 / 100, new.exchange_rate_sell);
        assert!(new.exchange_rate_buy < old.exchange_rate_buy);
        assert!(new.exchange_rate_sell < old.exchange_rate_sell);
        // The market sells at the rate that fell further.
        assert!(new.exchange_rate_buy * old.exchange_rate_sell
            < new.exchange_rate_sell * old.exchange_rate_buy);
    }
    assert_eq!(900_000, label(&market, GoodKind::EUR).exchange_rate_buy);
    assert_eq!(950_000, label(&market, GoodKind::EUR).exchange_rate_sell);
    assert_eq!(932_184, label(&market, GoodKind::USD).exchange_rate_buy);
    assert_eq!(917_200, label(&market, GoodKind::USD).exchange_rate_sell);
}

#[test]
fn test_sell_success() {
    let mut market = thousand_each();
    let offer = market.get_sell_price(GoodKind::USD, 100).unwrap();
    let token = market
        .lock_sell(GoodKind::USD, 100, offer, "bob".to_string())
        .unwrap();
    let mut parcel = Good::new(GoodKind::USD, 150);
    let paid = market.sell(token, &mut parcel).unwrap();
    assert_eq!(GoodKind::EUR, paid.get_kind());
    assert_eq!(offer, paid.get_qty());
    assert_eq!(50, parcel.get_qty());
    assert_eq!(1100, label(&market, GoodKind::USD).quantity);
    assert_eq!(900, market.get_budget());
}

#[test]
fn test_sell_err_unrecognized_token() {
    let mut market = thousand_each();
    let mut parcel = Good::new(GoodKind::USD, 100);
    assert_eq!(
        Err(SellError::UnrecognizedToken {
            unrecognized_token: "nobody-USD-100".to_string()
        }),
        market.sell("nobody-USD-100".to_string(), &mut parcel)
    );
    assert_eq!(100, parcel.get_qty());
    // A buyer's token is none that a seller can redeem.
    let token = market
        .lock_buy(GoodKind::USD, 100, 120, "bob".to_string())
        .unwrap();
    assert_eq!(
        Err(SellError::UnrecognizedToken {
            unrecognized_token: token.clone()
        }),
        market.sell(token, &mut parcel)
    );
}

#[test]
fn test_sell_err_expired_token() {
    let mut market = thousand_each();
    let token = market
        .lock_sell(GoodKind::USD, 100, 100, "bob".to_string())
        .unwrap();
    for _ in 0..15 {
        market.on_event(a_day());
    }
    let mut parcel = Good::new(GoodKind::USD, 100);
    assert_eq!(
        Err(SellError::ExpiredToken {
            expired_token: token.clone()
        }),
        market.sell(token, &mut parcel)
    );
    assert_eq!(100, parcel.get_qty());
    assert_eq!(1000, label(&market, GoodKind::USD).quantity);
}

#[test]
fn test_sell_err_wrong_good_kind() {
    let mut market = thousand_each();
    let token = market
        .lock_sell(GoodKind::USD, 100, 100, "bob".to_string())
        .unwrap();
    let mut parcel = Good::new(GoodKind::YEN, 100);
    assert_eq!(
        Err(SellError::WrongGoodKind {
            wrong_good_kind: GoodKind::YEN,
            pre_agreed_kind: GoodKind::USD,
        }),
        market.sell(token.clone(), &mut parcel)
    );
    assert_eq!(100, parcel.get_qty());
    // The reservation stands: the good is still reserved, and the seller
    // who comes again with the right parcel is paid.
    assert_eq!(
        Err(LockSellError::GoodAlreadyLocked {
            token: token.clone()
        }),
        market.lock_sell(GoodKind::USD, 1, 1, "eve".to_string())
    );
    let mut parcel = Good::new(GoodKind::USD, 100);
    let paid = market.sell(token.clone(), &mut parcel).unwrap();
    assert_eq!(100, paid.get_qty());
    assert_eq!(0, parcel.get_qty());
    assert_eq!(1100, label(&market, GoodKind::USD).quantity);
    assert_eq!(
        Err(SellError::ExpiredToken {
            expired_token: token.clone()
        }),
        market.sell(token, &mut Good::new(GoodKind::USD, 100))
    );
}

#[test]
fn test_sell_err_insufficient_good_quantity() {
    let mut market = thousand_each();
    let token = market
        .lock_sell(GoodKind::USD, 100, 100, "bob".to_string())
        .unwrap();
    let mut parcel = Good::new(GoodKind::USD, 99);
    assert_eq!(
        Err(SellError::InsufficientGoodQuantity {
            contained_quantity: 99,
            pre_agreed_quantity: 100,
        }),
        market.sell(token.clone(), &mut parcel)
    );
    assert_eq!(99, parcel.get_qty());
    assert_eq!(1000, label(&market, GoodKind::USD).quantity);
    assert_eq!(1000, market.get_budget());
    // The reservation stands: the seller who comes again with enough is
    // paid the agreed price.
    let mut parcel = Good::new(GoodKind::USD, 100);
    let paid = market.sell(token, &mut parcel).unwrap();
    assert_eq!(GoodKind::EUR, paid.get_kind());
    assert_eq!(100, paid.get_qty());
    assert_eq!(0, parcel.get_qty());
    assert_eq!(900, market.get_budget());
}

#[test]
#[allow(non_snake_case)]
fn test_lock_sell_nonPositiveOffer() {
    let mut market = thousand_each();
    assert_eq!(
        Err(LockSellError::NonPositiveOffer { negative_offer: 0 }),
        market.lock_sell(GoodKind::USD, 100, 0, "bob".to_string())
    );
    assert_eq!(
        Err(LockSellError::NonPositiveOffer { negative_offer: -5 }),
        market.lock_sell(GoodKind::USD, 100, -5, "bob".to_string())
    );
}

#[test]
#[allow(non_snake_case)]
fn test_lock_sell_defaultGoodAlreadyLocked() {
    let mut market = thousand_each();
    let token = market
        .lock_sell(GoodKind::EUR, 10, 11, "bob".to_string())
        .unwrap();
    assert_eq!("bob-EUR-10", token);
    assert_eq!(
        Err(LockSellError::GoodAlreadyLocked {
            token: token.clone()
        }),
        market.lock_sell(GoodKind::EUR, 10, 11, "bob".to_string())
    );
    assert_eq!(
        Err(LockSellError::GoodAlreadyLocked { token }),
        market.lock_sell(GoodKind::EUR, -1, 0, "eve".to_string())
    );
}

#[test]
#[allow(non_snake_case)]
fn test_lock_sell_insufficientDefaultGoodQuantityAvailable() {
    let mut market = thousand_each();
    assert_eq!(
        Err(LockSellError::InsufficientDefaultGoodQuantityAvailable {
            offered_good_kind: GoodKind::USD,
            offered_good_quantity: 100,
            available_good_quantity: 1000,
        }),
        market.lock_sell(GoodKind::USD, 100, 1001, "bob".to_string())
    );
}

#[test]
#[allow(non_snake_case)]
fn test_lock_sell_offerTooHigh() {
    let mut market = thousand_each();
    assert_eq!(
        Err(LockSellError::OfferTooHigh {
            offered_good_kind: GoodKind::USD,
            offered_good_quantity: 100,
            high_offer: 101,
            highest_acceptable_offer: 100,
        }),
        market.lock_sell(GoodKind::USD, 100, 101, "bob".to_string())
    );
    assert!(market
        .lock_sell(GoodKind::USD, 100, 100, "bob".to_string())
        .is_ok());
}

#[test]
fn test_working_function_lock_sell_token() {
    let mut market = thousand_each();
    assert_eq!(
        Ok("bob-USD-100".to_string()),
        market.lock_sell(GoodKind::USD, 100, 50, "bob".to_string())
    );
    assert_eq!(877_703, label(&market, GoodKind::USD).exchange_rate_sell);
    assert_eq!(1000, label(&market, GoodKind::USD).quantity);
}

#[test]
fn test_lock_buy_non_positive_quantity_to_buy() {
    let mut market = thousand_each();
    assert_eq!(
        Err(LockBuyError::NonPositiveQuantityToBuy {
            negative_quantity_to_buy: 0
        }),
        market.lock_buy(GoodKind::USD, 0, 10, "bob".to_string())
    );
    assert_eq!(
        Err(LockBuyError::NonPositiveQuantityToBuy {
            negative_quantity_to_buy: -3
        }),
        market.lock_buy(GoodKind::USD, -3, 10, "bob".to_string())
    );
}

#[test]
fn test_lock_buy_non_positive_bid() {
    let mut market = thousand_each();
    assert_eq!(
        Err(LockBuyError::NonPositiveBid { negative_bid: 0 }),
        market.lock_buy(GoodKind::USD, 100, 0, "bob".to_string())
    );
    assert_eq!(
        Err(LockBuyError::NonPositiveBid { negative_bid: -120 }),
        market.lock_buy(GoodKind::USD, 100, -120, "bob".to_string())
    );
}

#[test]
fn test_lock_buy_insufficient_good_quantity_available() {
    let mut market = thousand_each();
    assert_eq!(
        Err(LockBuyError::InsufficientGoodQuantityAvailable {
            requested_good_kind: GoodKind::USD,
            requested_good_quantity: 1001,
            available_good_quantity: 1000,
        }),
        market.lock_buy(GoodKind::USD, 1001, 1_000_000, "bob".to_string())
    );
}

#[test]
fn test_lock_buy_bid_too_low() {
    let mut market = thousand_each();
    assert_eq!(
        Err(LockBuyError::BidTooLow {
            requested_good_kind: GoodKind::USD,
            requested_good_quantity: 100,
            low_bid: 119,
            lowest_acceptable_bid: 120,
        }),
        market.lock_buy(GoodKind::USD, 100, 119, "bob".to_string())
    );
    assert!(market
        .lock_buy(GoodKind::USD, 100, 120, "bob".to_string())
        .is_ok());
}

#[test]
fn test_buy_unrecognized_token() {
    let mut market = thousand_each();
    assert_eq!(
        Err(LockBuyError::BidTooLow {
            requested_good_kind: GoodKind::USD,
            requested_good_quantity: 100,
            low_bid: 1,
            lowest_acceptable_bid: 120,
        }),
        market.lock_buy(GoodKind::USD, 100, 1, "bob".to_string())
    );
    let mut cash = Good::new(GoodKind::EUR, 500);
    assert_eq!(
        Err(BuyError::UnrecognizedToken {
            unrecognized_token: "bob-USD-100".to_string()
        }),
        market.buy("bob-USD-100".to_string(), &mut cash)
    );
    assert_eq!(500, cash.get_qty());
}

#[test]
fn test_buy_good_kind_not_default() {
    let mut market = thousand_each();
    let token = market
        .lock_buy(GoodKind::USD, 100, 120, "bob".to_string())
        .unwrap();
    let mut cash = Good::new(GoodKind::USD, 1000);
    assert_eq!(
        Err(BuyError::GoodKindNotDefault {
            non_default_good_kind: GoodKind::USD
        }),
        market.buy(token.clone(), &mut cash)
    );
    assert_eq!(1000, cash.get_qty());
    assert_eq!(1000, label(&market, GoodKind::USD).quantity);
    // The reservation stands: the good is still reserved, and the buyer who
    // comes again with the settlement kind gets the good.
    assert_eq!(
        Err(LockBuyError::GoodAlreadyLocked {
            token: token.clone()
        }),
        market.lock_buy(GoodKind::USD, 1, 1_000, "eve".to_string())
    );
    let mut cash = Good::new(GoodKind::EUR, 1000);
    let bought = market.buy(token.clone(), &mut cash).unwrap();
    assert_eq!(100, bought.get_qty());
    assert_eq!(880, cash.get_qty());
    assert_eq!(
        Err(BuyError::ExpiredToken {
            expired_token: token.clone()
        }),
        market.buy(token, &mut cash)
    );
}

#[test]
fn test_buy_insufficient_good_quantity() {
    let mut market = thousand_each();
    let token = market
        .lock_buy(GoodKind::USD, 100, 120, "bob".to_string())
        .unwrap();
    let mut cash = Good::new(GoodKind::EUR, 119);
    assert_eq!(
        Err(BuyError::InsufficientGoodQuantity {
            contained_quantity: 119,
            pre_agreed_quantity: 120,
        }),
        market.buy(token.clone(), &mut cash)
    );
    assert_eq!(119, cash.get_qty());
    assert_eq!(1000, market.get_budget());
    // The reservation stands: the buyer who comes again with enough gets
    // the good at the agreed price.
    let mut cash = Good::new(GoodKind::EUR, 120);
    let bought = market.buy(token, &mut cash).unwrap();
    assert_eq!(GoodKind::USD, bought.get_kind());
    assert_eq!(100, bought.get_qty());
    assert_eq!(0, cash.get_qty());
    assert_eq!(1120, market.get_budget());
    assert_eq!(900, label(&market, GoodKind::USD).quantity);
}

#[test]
fn test_buy_success() {
    let mut market = thousand_each();
    let price = market.get_buy_price(GoodKind::USD, 100).unwrap();
    assert!(price > 0);
    let t = market
        .lock_buy(GoodKind::USD, 100, price, "bob".to_string())
        .unwrap();
    let mut cash = Good::new(GoodKind::EUR, price);
    let bought = market.buy(t.clone(), &mut cash).unwrap();
    assert_eq!(GoodKind::USD, bought.get_kind());
    assert_eq!(100, bought.get_qty());
    assert_eq!(0, cash.get_qty());
    assert_eq!(900, label(&market, GoodKind::USD).quantity);
    assert_eq!(1000 + price, market.get_budget());
    let mut more = Good::new(GoodKind::EUR, price);
    assert_eq!(
        Err(BuyError::ExpiredToken {
            expired_token: t.clone()
        }),
        market.buy(t, &mut more)
    );
    assert_eq!(price, more.get_qty());
}

#[test]
fn test_get_budget() {
    let market = SGX::new_with_quantities(123, 1, 2, 3);
    assert_eq!(123, market.get_budget());
}

#[test]
fn test_get_goods() {
    let market = SGX::new_with_quantities(1, 2, 3, 4);
    assert_eq!(
        vec![
            GoodLabel {
                good_kind: GoodKind::EUR,
                quantity: 1,
                exchange_rate_buy: RATE_SCALE,
                exchange_rate_sell: RATE_SCALE,
            },
            GoodLabel {
                good_kind: GoodKind::YEN,
                quantity: 2,
                exchange_rate_buy: 144_803_800,
                exchange_rate_sell: 6_905,
            },
            GoodLabel {
                good_kind: GoodKind::USD,
                quantity: 3,
                exchange_rate_buy: 1_035_760,
                exchange_rate_sell: 965_474,
            },
            GoodLabel {
                good_kind: GoodKind::YUAN,
                quantity: 4,
                exchange_rate_buy: 7_359_900,
                exchange_rate_sell: 135_871,
            },
        ],
        market.get_goods()
    );
}

#[test]
fn a_second_lock_buy_is_refused_and_changes_nothing() {
    let mut market = thousand_each();
    let token = market
        .lock_buy(GoodKind::USD, 100, 120, "alice".to_string())
        .unwrap();
    market.take_events();
    let goods = market.get_goods();
    for (quantity, bid, trader) in [(100, 120, "alice"), (1, 1_000_000, "bob"), (-1, -1, "eve")] {
        assert_eq!(
            Err(LockBuyError::GoodAlreadyLocked {
                token: token.clone()
            }),
            market.lock_buy(GoodKind::USD, quantity, bid, trader.to_string())
        );
        assert_eq!(goods, market.get_goods());
        assert!(market.take_events().is_empty());
    }
    // The other side of the good is free.
    assert!(market
        .lock_sell(GoodKind::USD, 100, 1, "alice".to_string())
        .is_ok());
}

#[test]
fn tokens_are_determined_by_trader_kind_and_quantity() {
    let mut first = thousand_each();
    let mut second = SGX::new_with_quantities(5000, 5000, 5000, 5000);
    let one = first
        .lock_buy(GoodKind::USD, 10, 1_000, "Alice".to_string())
        .unwrap();
    let other = second
        .lock_buy(GoodKind::USD, 10, 77, "Alice".to_string())
        .unwrap();
    assert_eq!("Alice-USD-10", one);
    assert_eq!(one, other);
    let sold = first
        .lock_sell(GoodKind::USD, 10, 1, "Alice".to_string())
        .unwrap();
    assert_eq!(one, sold);
    let third = first
        .lock_buy(GoodKind::YEN, 10, 100_000, "Alice".to_string())
        .unwrap();
    let fourth = second
        .lock_buy(GoodKind::YEN, 11, 100_000, "Alice".to_string())
        .unwrap();
    let fifth = second
        .lock_sell(GoodKind::YEN, 10, 1, "Alice-YEN".to_string());
    assert_eq!("Alice-YEN-10", third);
    assert_eq!("Alice-YEN-11", fourth);
    assert_ne!(one, third);
    assert_ne!(third, fourth);
    assert!(fifth.is_err());
}

#[test]
fn an_expired_token_stays_expired() {
    let mut market = thousand_each();
    let token = market
        .lock_buy(GoodKind::USD, 100, 120, "bob".to_string())
        .unwrap();
    let mut cash = Good::new(GoodKind::EUR, 10_000);
    market.buy(token.clone(), &mut cash).unwrap();
    let expired = Err(BuyError::ExpiredToken {
        expired_token: token.clone(),
    });
    assert_eq!(expired, market.buy(token.clone(), &mut cash));
    // Whatever else happens, short of the same reservation being made again.
    market
        .lock_buy(GoodKind::USD, 50, 10_000, "bob".to_string())
        .unwrap();
    assert_eq!(expired, market.buy(token.clone(), &mut cash));
    market
        .lock_sell(GoodKind::USD, 100, 1, "bob".to_string())
        .unwrap();
    assert_eq!(expired, market.buy(token.clone(), &mut cash));
    for _ in 0..20 {
        market.on_event(a_day());
    }
    market.on_event(Event {
        kind: EventKind::Bought,
        good_kind: GoodKind::USD,
        quantity: 10,
        price: 1,
    });
    assert_eq!(expired, market.buy(token.clone(), &mut cash));
    assert_eq!(
        Err(SellError::ExpiredToken {
            expired_token: token.clone()
        }),
        market.sell(token, &mut Good::new(GoodKind::USD, 100))
    );
}

#[test]
fn the_same_reservation_made_again_revives_its_token() {
    let mut market = thousand_each();
    let token = market
        .lock_buy(GoodKind::USD, 100, 120, "bob".to_string())
        .unwrap();
    let mut cash = Good::new(GoodKind::EUR, 10_000);
    market.buy(token.clone(), &mut cash).unwrap();
    let again = market
        .lock_buy(GoodKind::USD, 100, 200, "bob".to_string())
        .unwrap();
    assert_eq!(token, again);
    assert!(market.buy(token, &mut cash).is_ok());
    assert_eq!(10_000 - 120 - 200, cash.get_qty());
}

#[test]
fn a_lock_times_out_on_the_fifteenth_day() {
    let mut market = thousand_each();
    let token = market
        .lock_buy(GoodKind::USD, 100, 120, "bob".to_string())
        .unwrap();
    let sold = market
        .lock_sell(GoodKind::YUAN, 100, 14, "bob".to_string())
        .unwrap();
    for _ in 0..14 {
        market.on_event(a_day());
    }
    // Still reserved on the fourteenth day.
    assert_eq!(
        Err(LockBuyError::GoodAlreadyLocked {
            token: token.clone()
        }),
        market.lock_buy(GoodKind::USD, 1, 1, "eve".to_string())
    );
    assert_eq!(
        Err(LockSellError::GoodAlreadyLocked {
            token: sold.clone()
        }),
        market.lock_sell(GoodKind::YUAN, 1, 1, "eve".to_string())
    );
    market.on_event(a_day());
    let mut cash = Good::new(GoodKind::EUR, 10_000);
    assert_eq!(
        Err(BuyError::ExpiredToken {
            expired_token: token.clone()
        }),
        market.buy(token, &mut cash)
    );
    assert_eq!(
        Err(SellError::ExpiredToken {
            expired_token: sold.clone()
        }),
        market.sell(sold, &mut Good::new(GoodKind::YUAN, 100))
    );
    assert_eq!(1000, label(&market, GoodKind::USD).quantity);
    assert_eq!(10_000, cash.get_qty());
    // The goods are free again.
    assert!(market
        .lock_buy(GoodKind::USD, 1, 1_000_000, "eve".to_string())
        .is_ok());
    assert!(market
        .lock_sell(GoodKind::YUAN, 1, 0, "eve".to_string())
        .is_err());
}

#[test]
fn a_redeemed_lock_in_time_is_honoured_on_the_fourteenth_day() {
    let mut market = thousand_each();
    let token = market
        .lock_buy(GoodKind::USD, 100, 120, "bob".to_string())
        .unwrap();
    for _ in 0..14 {
        market.on_event(a_day());
    }
    let mut cash = Good::new(GoodKind::EUR, 120);
    let bought = market.buy(token, &mut cash).unwrap();
    assert_eq!(100, bought.get_qty());
}

#[test]
fn events_are_told_once_and_in_order() {
    let mut market = thousand_each();
    assert!(market.take_events().is_empty());
    let bought = market
        .lock_buy(GoodKind::USD, 100, 130, "bob".to_string())
        .unwrap();
    let sold = market
        .lock_sell(GoodKind::YUAN, 100, 14, "ann".to_string())
        .unwrap();
    let _ = market.lock_buy(GoodKind::USD, 100, 130, "bob".to_string());
    let mut cash = Good::new(GoodKind::EUR, 500);
    market.buy(bought, &mut cash).unwrap();
    let mut parcel = Good::new(GoodKind::YUAN, 100);
    market.sell(sold, &mut parcel).unwrap();
    let _ = market.buy("nothing".to_string(), &mut cash);
    market.on_event(a_day());
    assert_eq!(
        vec![
            Event {
                kind: EventKind::LockedBuy,
                good_kind: GoodKind::USD,
                quantity: 100,
                price: 130,
            },
            Event {
                kind: EventKind::LockedSell,
                good_kind: GoodKind::YUAN,
                quantity: 100,
                price: 14,
            },
            Event {
                kind: EventKind::Bought,
                good_kind: GoodKind::USD,
                quantity: 100,
                price: 130,
            },
            Event {
                kind: EventKind::Sold,
                good_kind: GoodKind::YUAN,
                quantity: 100,
                price: 14,
            },
        ],
        market.take_events()
    );
    assert!(market.take_events().is_empty());
    assert_eq!(370, cash.get_qty());
    assert_eq!(1000 + 130 - 14, market.get_budget());
}

#[test]
fn the_log_holds_a_line_for_every_request() {
    let mut market = SGX::new_with_quantities(1000, 1000, 1000, 25);
    let bought = market
        .lock_buy(GoodKind::USD, 100, 130, "bob".to_string())
        .unwrap();
    let _ = market.lock_buy(GoodKind::USD, 5, -1, "bob".to_string());
    let sold = market
        .lock_sell(GoodKind::YUAN, 100, 1, "ann".to_string())
        .unwrap();
    let _ = market.lock_sell(GoodKind::YEN, 0, 3, "ann".to_string());
    let mut cash = Good::new(GoodKind::EUR, 500);
    market.buy(bought, &mut cash).unwrap();
    let _ = market.buy("nothing".to_string(), &mut cash);
    let mut parcel = Good::new(GoodKind::YUAN, 100);
    market.sell(sold, &mut parcel).unwrap();
    let _ = market.sell("nothing".to_string(), &mut parcel);
    let _ = market.get_buy_price(GoodKind::USD, 0);
    market.on_event(a_day());
    assert_eq!(
        vec![
            "\nMARKET_INITIALIZATION\nEUR+1e3\nUSD:+1e3\nYEN:+1e3\nYUAN:+2.5e1\nEND_MARKET_INITIALIZATION",
            "LOCK_BUY-bob-KIND_TO_BUY:USD-QUANTITY_TO_BUY:100-BID:130-TOKEN:bob-USD-100",
            "LOCK_BUY-bob-KIND_TO_BUY:USD-QUANTITY_TO_BUY:5-BID:-1-ERROR",
            "LOCK-SELL-ann-KIND_TO_SELL:YUAN-QUANTITY_TO_SELL:100-OFFER:1-TOKEN:ann-YUAN-100",
            "LOCK-SELL-ann-KIND_TO_SELL:YEN-QUANTITY_TO_SELL:0-OFFER:3-ERROR",
            "BUY-TOKEN:bob-USD-100-OK",
            "BUY-TOKEN:nothing-ERROR",
            "SELL-TOKEN:ann-YUAN-100-OK",
            "SELL-TOKEN:nothing-ERROR",
        ],
        market.take_log_codes()
    );
    assert!(market.take_log_codes().is_empty());
}

#[test]
fn a_purchase_elsewhere_moves_the_rates() {
    let mut market = thousand_each();
    market.on_event(Event {
        kind: EventKind::Bought,
        good_kind: GoodKind::USD,
        quantity: 100,
        price: 100,
    });
    // Our price of 120 is above 100: the buy rate follows by 100 / 120.
    assert_eq!(863_133, label(&market, GoodKind::USD).exchange_rate_buy);
    assert_eq!(1_013_747, label(&market, GoodKind::USD).exchange_rate_sell);
    let mut market = thousand_each();
    market.on_event(Event {
        kind: EventKind::LockedBuy,
        good_kind: GoodKind::USD,
        quantity: 100,
        price: 120,
    });
    assert_eq!(1_035_760, label(&market, GoodKind::USD).exchange_rate_buy);
    assert_eq!(1_013_747, label(&market, GoodKind::USD).exchange_rate_sell);
    // No price of ours for that quantity: nothing moves.
    let mut market = thousand_each();
    let before = market.get_goods();
    market.on_event(Event {
        kind: EventKind::Bought,
        good_kind: GoodKind::USD,
        quantity: 1001,
        price: 1,
    });
    market.on_event(Event {
        kind: EventKind::LockedBuy,
        good_kind: GoodKind::USD,
        quantity: 0,
        price: 1,
    });
    assert_eq!(before, market.get_goods());
    // A negative price counts as zero.
    market.on_event(Event {
        kind: EventKind::Bought,
        good_kind: GoodKind::USD,
        quantity: 100,
        price: -5,
    });
    assert_eq!(0, label(&market, GoodKind::USD).exchange_rate_buy);
}

#[test]
fn a_sale_elsewhere_moves_the_rates() {
    let mut market = thousand_each();
    market.on_event(Event {
        kind: EventKind::Sold,
        good_kind: GoodKind::USD,
        quantity: 100,
        price: 90,
    });
    assert_eq!(1_087_548, label(&market, GoodKind::USD).exchange_rate_buy);
    assert_eq!(868_926, label(&market, GoodKind::USD).exchange_rate_sell);
    let mut market = thousand_each();
    market.on_event(Event {
        kind: EventKind::LockedSell,
        good_kind: GoodKind::USD,
        quantity: 100,
        price: 100,
    });
    assert_eq!(1_087_548, label(&market, GoodKind::USD).exchange_rate_buy);
    assert_eq!(965_474, label(&market, GoodKind::USD).exchange_rate_sell);
    let before = market.get_goods();
    market.on_event(Event {
        kind: EventKind::Sold,
        good_kind: GoodKind::USD,
        quantity: -1,
        price: 1,
    });
    assert_eq!(before, market.get_goods());
    assert!(market.take_events().is_empty());
}

#[test]
fn the_whole_stock_has_no_price_that_can_be_paid_below_the_cap() {
    let mut market = thousand_each();
    assert_eq!(Ok(MAX_AMOUNT), market.get_buy_price(GoodKind::USD, 1000));
    assert_eq!(Ok(1_086_460), market.get_buy_price(GoodKind::USD, 999));
    assert!(matches!(
        market.lock_buy(GoodKind::USD, 1000, MAX_AMOUNT - 1, "bob".to_string()),
        Err(LockBuyError::BidTooLow { .. })
    ));
    let token = market
        .lock_buy(GoodKind::USD, 1000, MAX_AMOUNT, "bob".to_string())
        .unwrap();
    assert_eq!(u64::MAX, label(&market, GoodKind::USD).exchange_rate_buy);
    let mut cash = Good::new(GoodKind::EUR, MAX_AMOUNT);
    let bought = market.buy(token, &mut cash).unwrap();
    assert_eq!(1000, bought.get_qty());
    assert_eq!(0, label(&market, GoodKind::USD).quantity);
    // The market's stock of the settlement kind is capped.
    assert_eq!(MAX_AMOUNT, market.get_budget());
    assert_eq!(0, cash.get_qty());
}

#[test]
fn buying_the_settlement_kind_can_fail_at_the_split() {
    let mut market = thousand_each();
    let token = market
        .lock_buy(GoodKind::EUR, 900, 1_000_000, "bob".to_string())
        .unwrap();
    // A sale takes the agreed price out of the market's stock.
    let sold = market
        .lock_sell(GoodKind::USD, 500, 300, "ann".to_string())
        .unwrap();
    market
        .sell(sold, &mut Good::new(GoodKind::USD, 500))
        .unwrap();
    assert_eq!(700, market.get_budget());
    let mut cash = Good::new(GoodKind::EUR, 1_000_000);
    assert_eq!(
        Err(BuyError::InsufficientGoodQuantity {
            contained_quantity: 1_000_000,
            pre_agreed_quantity: 900,
        }),
        market.buy(token.clone(), &mut cash)
    );
    assert_eq!(1_000_000, cash.get_qty());
    assert_eq!(700, market.get_budget());
    assert_eq!(
        Err(BuyError::ExpiredToken {
            expired_token: token.clone()
        }),
        market.buy(token, &mut cash)
    );
}

#[test]
fn a_payout_that_the_market_cannot_make_leaves_its_stock() {
    let mut market = thousand_each();
    assert_eq!(Ok(1009), market.get_sell_price(GoodKind::USD, 10_000));
    assert_eq!(Ok(154), market.get_sell_price(GoodKind::YUAN, 100_000));
    let first = market
        .lock_sell(GoodKind::USD, 10_000, 900, "ann".to_string())
        .unwrap();
    let second = market
        .lock_sell(GoodKind::YUAN, 100_000, 150, "ann".to_string())
        .unwrap();
    let paid = market
        .sell(first, &mut Good::new(GoodKind::USD, 10_000))
        .unwrap();
    assert_eq!(900, paid.get_qty());
    assert_eq!(100, market.get_budget());
    // The market holds less than it agreed to pay: the seller is paid, the
    // market's stock of the settlement kind stays as it is.
    let paid = market
        .sell(second, &mut Good::new(GoodKind::YUAN, 100_000))
        .unwrap();
    assert_eq!(GoodKind::EUR, paid.get_kind());
    assert_eq!(150, paid.get_qty());
    assert_eq!(100, market.get_budget());
    assert_eq!(101_000, label(&market, GoodKind::YUAN).quantity);
}

#[test]
fn a_sale_of_nothing_is_refused() {
    let mut market = thousand_each();
    assert_eq!(
        Err(LockSellError::NonPositiveQuantityToSell {
            negative_quantity_to_sell: 0
        }),
        market.lock_sell(GoodKind::USD, 0, 10, "bob".to_string())
    );
    assert_eq!(
        Err(LockSellError::NonPositiveQuantityToSell {
            negative_quantity_to_sell: -8
        }),
        market.lock_sell(GoodKind::USD, -8, 10, "bob".to_string())
    );
}

#[test]
fn the_first_reason_to_refuse_counts() {
    // A quantity that is not positive comes before everything about the bid.
    let mut market = thousand_each();
    assert_eq!(
        Err(LockBuyError::NonPositiveQuantityToBuy {
            negative_quantity_to_buy: 0
        }),
        market.lock_buy(GoodKind::USD, 0, 0, "bob".to_string())
    );
    // A quantity that the market does not hold comes before the bid.
    assert_eq!(
        Err(LockBuyError::InsufficientGoodQuantityAvailable {
            requested_good_kind: GoodKind::USD,
            requested_good_quantity: 5000,
            available_good_quantity: 1000,
        }),
        market.lock_buy(GoodKind::USD, 5000, -1, "bob".to_string())
    );
    // A bid that is not positive comes before one that is too low.
    assert_eq!(
        Err(LockBuyError::NonPositiveBid { negative_bid: -1 }),
        market.lock_buy(GoodKind::USD, 100, -1, "bob".to_string())
    );
    // An offer above the market's budget comes before one that is not
    // positive or too high.
    assert_eq!(
        Err(LockSellError::InsufficientDefaultGoodQuantityAvailable {
            offered_good_kind: GoodKind::YEN,
            offered_good_quantity: 1,
            available_good_quantity: 1000,
        }),
        market.lock_sell(GoodKind::YEN, 1, 1001, "bob".to_string())
    );
    assert_eq!(
        Err(LockSellError::NonPositiveOffer { negative_offer: 0 }),
        market.lock_sell(GoodKind::YEN, 1, 0, "bob".to_string())
    );
    assert_eq!(
        Err(LockSellError::OfferTooHigh {
            offered_good_kind: GoodKind::YEN,
            offered_good_quantity: 1,
            high_offer: 1,
            highest_acceptable_offer: 0,
        }),
        market.lock_sell(GoodKind::YEN, 1, 1, "bob".to_string())
    );
    // A reservation that stands comes before everything else.
    let token = market
        .lock_buy(GoodKind::USD, 100, 120, "bob".to_string())
        .unwrap();
    market
        .lock_buy(GoodKind::YEN, 1, 1000, "bob".to_string())
        .unwrap();
    assert_eq!(
        Err(LockBuyError::GoodAlreadyLocked { token }),
        market.lock_buy(GoodKind::USD, 0, 0, "bob".to_string())
    );
    // A payment of the wrong kind comes before one that is too small.
    let mut market = thousand_each();
    let token = market
        .lock_buy(GoodKind::USD, 100, 120, "bob".to_string())
        .unwrap();
    assert_eq!(
        Err(BuyError::GoodKindNotDefault {
            non_default_good_kind: GoodKind::YEN
        }),
        market.buy(token, &mut Good::new(GoodKind::YEN, 1))
    );
    // A parcel of the wrong kind comes before one that is too small.
    let token = market
        .lock_sell(GoodKind::USD, 100, 100, "bob".to_string())
        .unwrap();
    assert_eq!(
        Err(SellError::WrongGoodKind {
            wrong_good_kind: GoodKind::EUR,
            pre_agreed_kind: GoodKind::USD,
        }),
        market.sell(token, &mut Good::new(GoodKind::EUR, 1))
    );
}

#[test]
fn a_refused_payment_leaves_the_reservation_to_age() {
    let mut market = thousand_each();
    let token = market
        .lock_buy(GoodKind::USD, 100, 120, "bob".to_string())
        .unwrap();
    let sold = market
        .lock_sell(GoodKind::YUAN, 100, 14, "ann".to_string())
        .unwrap();
    market.take_events();
    let goods = market.get_goods();
    for _ in 0..3 {
        assert!(market
            .buy(token.clone(), &mut Good::new(GoodKind::EUR, 1))
            .is_err());
        assert!(market
            .buy(token.clone(), &mut Good::new(GoodKind::YEN, 1_000))
            .is_err());
        assert!(market
            .sell(sold.clone(), &mut Good::new(GoodKind::YUAN, 99))
            .is_err());
        assert!(market
            .sell(sold.clone(), &mut Good::new(GoodKind::USD, 100))
            .is_err());
    }
    // Nothing has moved and nothing is to be told.
    assert_eq!(goods, market.get_goods());
    assert!(market.take_events().is_empty());
    // The refusals have not made the reservations younger either: they run
    // out on the fifteenth day.
    for _ in 0..14 {
        market.on_event(a_day());
    }
    assert!(market
        .buy(token.clone(), &mut Good::new(GoodKind::USD, 1))
        .is_err());
    market.on_event(a_day());
    assert_eq!(
        Err(BuyError::ExpiredToken {
            expired_token: token.clone()
        }),
        market.buy(token, &mut Good::new(GoodKind::EUR, 1_000))
    );
    assert_eq!(
        Err(SellError::ExpiredToken {
            expired_token: sold.clone()
        }),
        market.sell(sold, &mut Good::new(GoodKind::YUAN, 100))
    );
}
