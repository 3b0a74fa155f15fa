//! What a trader on the markets is told apart by, and which markets it can
//! be sent to.

use vstd::prelude::*;
use vstd::string::*;
use crate::text::{ascii_lowercase, lowered_text};

verus! {

/// The strategies that a trader can follow.
#[derive(Clone, Copy, Debug, Eq, Ord, PartialOrd, PartialEq, Structural)]
pub enum StrategyIdentifier {
    MostSimple,
    Stingy,
    AverageSeller,
}

/// The markets that a trader can be sent to.
#[derive(Clone, Copy, Debug, Eq, PartialEq, Structural)]
pub enum MarketName {
    Sgx,
    Smse,
    Tase,
    Zse,
}

/// The minutes of a day.
pub const MINUTES_PER_DAY: u32 = 1440;

/// How many times a day a strategy is applied that is applied every
/// `apply_every_minutes` minutes.
pub fn applications_per_day(apply_every_minutes: u32) -> (times: u32)
    requires
        1 <= apply_every_minutes <= MINUTES_PER_DAY,
    ensures
        times == MINUTES_PER_DAY / apply_every_minutes,
        times >= 1,
{
    assert(MINUTES_PER_DAY as int / apply_every_minutes as int >= 1) by (nonlinear_arith)
        requires
            1 <= apply_every_minutes <= MINUTES_PER_DAY,
    ;
    MINUTES_PER_DAY / apply_every_minutes
}

/// The market that goes by `name`, whatever the case of its letters.
pub open spec fn market_named(name: Seq<char>) -> Option<MarketName> {
    let lowered = lowered_text(name);
    if lowered == "sgx"@ {
        Some(MarketName::Sgx)
    } else if lowered == "smse"@ {
        Some(MarketName::Smse)
    } else if lowered == "tase"@ {
        Some(MarketName::Tase)
    } else if lowered == "zse"@ {
        Some(MarketName::Zse)
    } else {
        None
    }
}

/// The market that goes by `market_name`, whatever the case of its letters.
pub fn market_for_name(market_name: &str) -> (market: Option<MarketName>)
    ensures
        market == market_named(market_name@),
{
    let lowered = ascii_lowercase(market_name);
    if lowered == String::from_str("sgx") {
        Some(MarketName::Sgx)
    } else if lowered == String::from_str("smse") {
        Some(MarketName::Smse)
    } else if lowered == String::from_str("tase") {
        Some(MarketName::Tase)
    } else if lowered == String::from_str("zse") {
        Some(MarketName::Zse)
    } else {
        None
    }
}

} // verus!
