use sgx_market::goods::good_kind::GoodKind;
use sgx_market::goods::good_status::GoodLock;
use sgx_market::market::log::{
    format_date, get_date, log_for_buy, log_for_buy_err, log_for_lock_buy, log_for_lock_buy_err,
    log_for_lock_sell, log_for_lock_sell_err, log_for_market_init, log_for_sell,
    log_for_sell_err, log_line, Moment,
};
use sgx_market::text::{decimal_string, push_decimal, push_digits, push_scientific};

fn scientific(n: i64) -> String {
    let mut out = String::new();
    push_scientific(&mut out, n);
    out
}

#[test]
fn decimal_text_of_integers() {
    assert_eq!("0", decimal_string(0));
    assert_eq!("7", decimal_string(7));
    assert_eq!("10", decimal_string(10));
    assert_eq!("1000000", decimal_string(1_000_000));
    assert_eq!("-1", decimal_string(-1));
    assert_eq!("-120", decimal_string(-120));
    assert_eq!("9223372036854775807", decimal_string(i64::MAX));
    assert_eq!("-9223372036854775808", decimal_string(i64::MIN));
    for n in [0i64, 5, 42, 99, 100, 101, 65_535, -65_536, 123_456_789_012] {
        assert_eq!(n.to_string(), decimal_string(n));
    }
}

#[test]
fn digits_are_appended() {
    let mut out = "x=".to_string();
    push_digits(&mut out, 0);
    push_digits(&mut out, 18_446_744_073_709_551_615);
    push_decimal(&mut out, -30);
    assert_eq!("x=018446744073709551615-30", out);
}

#[test]
fn scientific_text_of_integers() {
    assert_eq!("+0e0", scientific(0));
    assert_eq!("+1e0", scientific(1));
    assert_eq!("+1e1", scientific(10));
    assert_eq!("+1.2e1", scientific(12));
    assert_eq!("+1e3", scientific(1000));
    assert_eq!("+1.234e3", scientific(1234));
    assert_eq!("+1.05e5", scientific(105_000));
    assert_eq!("-2.5e1", scientific(-25));
    assert_eq!("+9.223372036854775807e18", scientific(i64::MAX));
    assert_eq!("-9.223372036854775808e18", scientific(i64::MIN));
    for n in [0i64, 3, 70, 705, 7050, 1_000_000, -40, 123_456_789, 100_100] {
        assert_eq!(format!("{:+e}", n), scientific(n));
    }
}

#[test]
fn tokens_join_trader_kind_and_quantity() {
    assert_eq!(
        "Alice-USD-10",
        GoodLock::gen_token("Alice".to_string(), GoodKind::USD, 10)
    );
    assert_eq!(
        "-YUAN-0",
        GoodLock::gen_token("".to_string(), GoodKind::YUAN, 0)
    );
    assert_eq!(
        "a-b-YEN-15",
        GoodLock::gen_token("a-b".to_string(), GoodKind::YEN, 15)
    );
    assert_ne!(
        GoodLock::gen_token("a".to_string(), GoodKind::EUR, 15),
        GoodLock::gen_token("a".to_string(), GoodKind::EUR, 1)
    );
    assert_ne!(
        GoodLock::gen_token("a-EUR".to_string(), GoodKind::USD, 1),
        GoodLock::gen_token("a".to_string(), GoodKind::EUR, 1)
    );
}

#[test]
fn log_codes_of_requests() {
    assert_eq!(
        "LOCK_BUY-bob-KIND_TO_BUY:USD-QUANTITY_TO_BUY:100-BID:120-ERROR",
        log_for_lock_buy_err("bob".to_string(), GoodKind::USD, 100, 120)
    );
    assert_eq!(
        "LOCK_BUY-bob-KIND_TO_BUY:YEN-QUANTITY_TO_BUY:-1-BID:0-TOKEN:bob-YEN--1",
        log_for_lock_buy(
            "bob".to_string(),
            GoodKind::YEN,
            -1,
            0,
            "bob-YEN--1".to_string()
        )
    );
    assert_eq!(
        "LOCK-SELL-ann-KIND_TO_SELL:YUAN-QUANTITY_TO_SELL:7-OFFER:9-ERROR",
        log_for_lock_sell_err("ann".to_string(), GoodKind::YUAN, 7, 9)
    );
    assert_eq!(
        "LOCK-SELL-ann-KIND_TO_SELL:EUR-QUANTITY_TO_SELL:7-OFFER:9-TOKEN:t",
        log_for_lock_sell("ann".to_string(), GoodKind::EUR, 7, 9, "t".to_string())
    );
    assert_eq!("BUY-TOKEN:t-1-ERROR", log_for_buy_err("t-1".to_string()));
    assert_eq!("BUY-TOKEN:t-1-OK", log_for_buy("t-1".to_string()));
    assert_eq!("SELL-TOKEN:-ERROR", log_for_sell_err("".to_string()));
    assert_eq!("SELL-TOKEN:t-OK", log_for_sell("t".to_string()));
}

#[test]
fn log_code_of_an_opening_market() {
    assert_eq!(
        "\nMARKET_INITIALIZATION\nEUR+1e3\nUSD:+3.5e1\nYEN:+2e0\nYUAN:+0e0\nEND_MARKET_INITIALIZATION",
        log_for_market_init(1000, 2, 35, 0)
    );
}

#[test]
fn the_head_of_a_log_line() {
    let moment = Moment {
        year: 2022,
        month: 11,
        day: 20,
        hour: 6,
        minute: 30,
        second: 20,
        nanosecond: 1423,
    };
    assert_eq!("SGX|2022::11::20::6::30::20::1423|", format_date(moment));
    let origin = Moment {
        year: -1,
        month: 1,
        day: 1,
        hour: 0,
        minute: 0,
        second: 0,
        nanosecond: 0,
    };
    assert_eq!("SGX|-1::1::1::0::0::0::0|", format_date(origin));
    assert_eq!(
        "SGX|2022::11::20::6::30::20::1423|BUY-TOKEN:t-OK\n",
        log_line(&format_date(moment), "BUY-TOKEN:t-OK")
    );
}

#[test]
fn the_head_of_a_log_line_for_now() {
    let date = get_date();
    assert!(date.starts_with("SGX|"));
    assert!(date.ends_with('|'));
    let inner = &date[4..date.len() - 1];
    let parts: Vec<u64> = inner.split("::").map(|p| p.parse().unwrap()).collect();
    assert_eq!(7, parts.len());
    assert!((1..=12).contains(&parts[1]));
    assert!((1..=31).contains(&parts[2]));
    assert!(parts[3] <= 23);
    assert!(parts[4] <= 59);
    assert!(parts[5] <= 59);
    assert!(parts[6] <= 1_999_999_999);
}
