//! The lines of the market's log. The market keeps the lines of what it did;
//! writing them to a file is left to the caller.

use chrono::{DateTime, Datelike, Local, Timelike};
use vstd::prelude::*;
use vstd::string::*;
use crate::goods::good_kind::GoodKind;
use crate::market::consts::NAME;
use crate::text::{decimal, decimal_digits, push_decimal, push_digits, push_scientific, scientific};

verus! {

/// A moment of the local calendar and clock.
#[derive(Debug, Clone, Copy, PartialEq, Eq, Structural)]
pub struct Moment {
    pub year: i32,
    pub month: u32,
    pub day: u32,
    pub hour: u32,
    pub minute: u32,
    pub second: u32,
    pub nanosecond: u32,
}

/// Whether the parts of a moment are within the calendar and the clock: the
/// month from 1 to 12, the day from 1 to 31, the hour up to 23, the minute
/// and the second up to 59, the nanoseconds below two thousand million.
pub open spec fn on_the_calendar(moment: Moment) -> bool {
    &&& 1 <= moment.month <= 12
    &&& 1 <= moment.day <= 31
    &&& moment.hour <= 23
    &&& moment.minute <= 59
    &&& moment.second <= 59
    &&& moment.nanosecond <= 1_999_999_999
}

/// `chrono::Local::now`, read with the getters of `Datelike` and `Timelike`:
/// the moment at which it is called, in the local time zone. A month is from
/// 1 to 12, a day from 1 to 31, an hour from 0 to 23, a minute and a second
/// from 0 to 59, and the nanoseconds stay below two thousand million (a leap
/// second counts from one thousand million on).
#[verifier::external_body]
fn local_now() -> (now: Moment)
    ensures
        on_the_calendar(now),
{
    let local: DateTime<Local> = Local::now();
    Moment {
        year: local.year(),
        month: local.month(),
        day: local.day(),
        hour: local.hour(),
        minute: local.minute(),
        second: local.second(),
        nanosecond: local.nanosecond(),
    }
}

/// The head of a log line: the market's name and the moment, its parts
/// joined by double colons, between bars.
pub open spec fn date_text(moment: Moment) -> Seq<char> {
    NAME@ + "|"@ + decimal(moment.year as int) + "::"@ + decimal_digits(moment.month as nat) + "::"@
        + decimal_digits(moment.day as nat) + "::"@ + decimal_digits(moment.hour as nat) + "::"@
        + decimal_digits(moment.minute as nat) + "::"@ + decimal_digits(moment.second as nat)
        + "::"@ + decimal_digits(moment.nanosecond as nat) + "|"@
}

/// The head of a log line for `moment`.
pub fn format_date(moment: Moment) -> (date: String)
    ensures
        date@ == date_text(moment),
{
    let mut date = String::from_str(NAME);
    date.append("|");
    push_decimal(&mut date, moment.year as i64);
    date.append("::");
    push_digits(&mut date, moment.month as u64);
    date.append("::");
    push_digits(&mut date, moment.day as u64);
    date.append("::");
    push_digits(&mut date, moment.hour as u64);
    date.append("::");
    push_digits(&mut date, moment.minute as u64);
    date.append("::");
    push_digits(&mut date, moment.second as u64);
    date.append("::");
    push_digits(&mut date, moment.nanosecond as u64);
    date.append("|");
    assert(date@ =~= date_text(moment));
    date
}

/// The head of a log line for the moment of the call.
pub fn get_date() -> (date: String)
    ensures
        exists|moment: Moment| on_the_calendar(moment) && date@ == date_text(moment),
{
    let now = local_now();
    format_date(now)
}

/// A full log line: the head, what happened, and a line feed.
pub open spec fn log_line_text(date: Seq<char>, log_code: Seq<char>) -> Seq<char> {
    date + log_code + "\n"@
}

/// The log line that says `log_code` under the head `date`.
pub fn log_line(date: &str, log_code: &str) -> (line: String)
    ensures
        line@ == log_line_text(date@, log_code@),
{
    let mut line = String::from_str(date);
    line.append(log_code);
    line.append("\n");
    line
}

/// What the log says when a market opens: the four quantities in scientific
/// notation.
pub open spec fn market_init_text(eur: int, yen: int, usd: int, yuan: int) -> Seq<char> {
    "\nMARKET_INITIALIZATION\nEUR"@ + scientific(eur) + "\nUSD:"@ + scientific(usd) + "\nYEN:"@
        + scientific(yen) + "\nYUAN:"@ + scientific(yuan) + "\nEND_MARKET_INITIALIZATION"@
}

/// What the log says when a market opens with the given quantities.
pub fn log_for_market_init(eur: i64, yen: i64, usd: i64, yuan: i64) -> (log_code: String)
    ensures
        log_code@ == market_init_text(eur as int, yen as int, usd as int, yuan as int),
{
    let mut log_code = String::from_str("\nMARKET_INITIALIZATION\nEUR");
    push_scientific(&mut log_code, eur);
    log_code.append("\nUSD:");
    push_scientific(&mut log_code, usd);
    log_code.append("\nYEN:");
    push_scientific(&mut log_code, yen);
    log_code.append("\nYUAN:");
    push_scientific(&mut log_code, yuan);
    log_code.append("\nEND_MARKET_INITIALIZATION");
    assert(log_code@ =~= market_init_text(eur as int, yen as int, usd as int, yuan as int));
    log_code
}

/// What the log says of a request to reserve a purchase, up to its outcome.
pub open spec fn lock_buy_text(trader: Seq<char>, kind: GoodKind, quantity: int, bid: int) -> Seq<
    char,
> {
    "LOCK_BUY-"@ + trader + "-KIND_TO_BUY:"@ + kind.text() + "-QUANTITY_TO_BUY:"@ + decimal(
        quantity,
    ) + "-BID:"@ + decimal(bid)
}

/// What the log says of a request to reserve a sale, up to its outcome.
pub open spec fn lock_sell_text(trader: Seq<char>, kind: GoodKind, quantity: int, offer: int) -> Seq<
    char,
> {
    "LOCK-SELL-"@ + trader + "-KIND_TO_SELL:"@ + kind.text() + "-QUANTITY_TO_SELL:"@ + decimal(
        quantity,
    ) + "-OFFER:"@ + decimal(offer)
}

/// What the log says of a request to reserve a purchase, up to its outcome.
fn lock_buy_head(trader_name: String, kind_to_buy: GoodKind, quantity_to_buy: i64, bid: i64) -> (log_code:
    String)
    ensures
        log_code@ == lock_buy_text(trader_name@, kind_to_buy, quantity_to_buy as int, bid as int),
{
    let mut log_code = String::from_str("LOCK_BUY-");
    log_code.append(trader_name.as_str());
    log_code.append("-KIND_TO_BUY:");
    log_code.append(kind_to_buy.name());
    log_code.append("-QUANTITY_TO_BUY:");
    push_decimal(&mut log_code, quantity_to_buy);
    log_code.append("-BID:");
    push_decimal(&mut log_code, bid);
    assert(log_code@ =~= lock_buy_text(
        trader_name@,
        kind_to_buy,
        quantity_to_buy as int,
        bid as int,
    ));
    log_code
}

/// What the log says of a request to reserve a sale, up to its outcome.
fn lock_sell_head(trader_name: String, kind_to_sell: GoodKind, quantity_to_sell: i64, offer: i64) -> (log_code:
    String)
    ensures
        log_code@ == lock_sell_text(
            trader_name@,
            kind_to_sell,
            quantity_to_sell as int,
            offer as int,
        ),
{
    let mut log_code = String::from_str("LOCK-SELL-");
    log_code.append(trader_name.as_str());
    log_code.append("-KIND_TO_SELL:");
    log_code.append(kind_to_sell.name());
    log_code.append("-QUANTITY_TO_SELL:");
    push_decimal(&mut log_code, quantity_to_sell);
    log_code.append("-OFFER:");
    push_decimal(&mut log_code, offer);
    assert(log_code@ =~= lock_sell_text(
        trader_name@,
        kind_to_sell,
        quantity_to_sell as int,
        offer as int,
    ));
    log_code
}

/// What the log says when a purchase was not reserved.
pub fn log_for_lock_buy_err(trader_name: String, kind_to_buy: GoodKind, quantity_to_buy: i64, bid: i64) -> (log_code:
    String)
    ensures
        log_code@ == lock_buy_text(trader_name@, kind_to_buy, quantity_to_buy as int, bid as int)
            + "-ERROR"@,
{
    let mut log_code = lock_buy_head(trader_name, kind_to_buy, quantity_to_buy, bid);
    log_code.append("-ERROR");
    log_code
}

/// What the log says when a purchase was reserved with `token`.
pub fn log_for_lock_buy(
    trader_name: String,
    kind_to_buy: GoodKind,
    quantity_to_buy: i64,
    bid: i64,
    token: String,
) -> (log_code: String)
    ensures
        log_code@ == lock_buy_text(trader_name@, kind_to_buy, quantity_to_buy as int, bid as int)
            + "-TOKEN:"@ + token@,
{
    let mut log_code = lock_buy_head(trader_name, kind_to_buy, quantity_to_buy, bid);
    log_code.append("-TOKEN:");
    log_code.append(token.as_str());
    log_code
}

/// What the log says when a sale was not reserved.
pub fn log_for_lock_sell_err(
    trader_name: String,
    kind_to_sell: GoodKind,
    quantity_to_sell: i64,
    offer: i64,
) -> (log_code: String)
    ensures
        log_code@ == lock_sell_text(
            trader_name@,
            kind_to_sell,
            quantity_to_sell as int,
            offer as int,
        ) + "-ERROR"@,
{
    let mut log_code = lock_sell_head(trader_name, kind_to_sell, quantity_to_sell, offer);
    log_code.append("-ERROR");
    log_code
}

/// What the log says when a sale was reserved with `token`.
pub fn log_for_lock_sell(
    trader_name: String,
    kind_to_sell: GoodKind,
    quantity_to_sell: i64,
    offer: i64,
    token: String,
) -> (log_code: String)
    ensures
        log_code@ == lock_sell_text(
            trader_name@,
            kind_to_sell,
            quantity_to_sell as int,
            offer as int,
        ) + "-TOKEN:"@ + token@,
{
    let mut log_code = lock_sell_head(trader_name, kind_to_sell, quantity_to_sell, offer);
    log_code.append("-TOKEN:");
    log_code.append(token.as_str());
    log_code
}

/// What the log says when the purchase of `token` was not settled.
pub fn log_for_buy_err(token: String) -> (log_code: String)
    ensures
        log_code@ == "BUY-TOKEN:"@ + token@ + "-ERROR"@,
{
    let mut log_code = String::from_str("BUY-TOKEN:");
    log_code.append(token.as_str());
    log_code.append("-ERROR");
    log_code
}

/// What the log says when the purchase of `token` was settled.
pub fn log_for_buy(token: String) -> (log_code: String)
    ensures
        log_code@ == "BUY-TOKEN:"@ + token@ + "-OK"@,
{
    let mut log_code = String::from_str("BUY-TOKEN:");
    log_code.append(token.as_str());
    log_code.append("-OK");
    log_code
}

/// What the log says when the sale of `token` was not settled.
pub fn log_for_sell_err(token: String) -> (log_code: String)
    ensures
        log_code@ == "SELL-TOKEN:"@ + token@ + "-ERROR"@,
{
    let mut log_code = String::from_str("SELL-TOKEN:");
    log_code.append(token.as_str());
    log_code.append("-ERROR");
    log_code
}

/// What the log says when the sale of `token` was settled.
pub fn log_for_sell(token: String) -> (log_code: String)
    ensures
        log_code@ == "SELL-TOKEN:"@ + token@ + "-OK"@,
{
    let mut log_code = String::from_str("SELL-TOKEN:");
    log_code.append(token.as_str());
    log_code.append("-OK");
    log_code
}

} // verus!
