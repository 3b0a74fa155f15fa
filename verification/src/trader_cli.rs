//! What the trader's command line understands.

use vstd::prelude::*;
use vstd::string::*;
use crate::goods::good_metadata::texts;
use crate::text::{ascii_lowercase, lowered_text};
use crate::trader::{market_for_name, market_named, MarketName, StrategyIdentifier};

verus! {

/// The markets that go by the names, in the order of the names; a name that
/// repeats the one before it, whatever the case of their letters, is passed
/// over, and so is a name that no market goes by.
pub open spec fn known_markets_once(names: Seq<Seq<char>>) -> Seq<MarketName>
    decreases names.len(),
{
    if names.len() == 0 {
        Seq::empty()
    } else if names.len() >= 2 && lowered_text(names[names.len() - 2]) == lowered_text(
        names.last(),
    ) {
        known_markets_once(names.drop_last())
    } else {
        match market_named(names.last()) {
            Some(market) => known_markets_once(names.drop_last()).push(market),
            None => known_markets_once(names.drop_last()),
        }
    }
}

/// The market that goes by `market_name`, whatever the case of its letters:
/// sgx, smse, tase or zse.
pub fn gen_market(market_name: &str) -> (market: Option<MarketName>)
    ensures
        market == market_named(market_name@),
{
    market_for_name(market_name)
}

/// The markets that go by the names, in the order of the names; a name that
/// repeats the one before it, whatever the case of their letters, is passed
/// over, and so is a name that no market goes by.
pub fn parse_markets(markets: &[String]) -> (known: Vec<MarketName>)
    ensures
        known@ == known_markets_once(texts(markets@)),
{
    let mut known: Vec<MarketName> = Vec::new();
    let mut previous = String::new();
    let mut i: usize = 0;
    while i < markets.len()
        invariant
            i <= markets.len(),
            known@ == known_markets_once(texts(markets@).take(i as int)),
            i > 0 ==> previous@ == lowered_text(markets[i - 1]@),
        decreases markets.len() - i,
    {
        proof {
            assert(texts(markets@).take(i + 1).drop_last() =~= texts(markets@).take(i as int));
        }
        let lowered = ascii_lowercase(markets[i].as_str());
        if !(i > 0 && lowered == previous) {
            if let Some(market) = market_for_name(markets[i].as_str()) {
                known.push(market);
            }
        }
        previous = lowered;
        i += 1;
    }
    assert(texts(markets@).take(i as int) =~= texts(markets@));
    known
}

/// The strategy that goes by the name `strategy` on the command line, if
/// there is one. The only name is `average-seller`.
pub fn map_strategy_to_id(strategy: &str) -> (id: Option<StrategyIdentifier>)
    ensures
        id == if strategy@ == "average-seller"@ {
            Some(StrategyIdentifier::AverageSeller)
        } else {
            None
        },
{
    if String::from_str(strategy) == String::from_str("average-seller") {
        Some(StrategyIdentifier::AverageSeller)
    } else {
        None
    }
}

/// Shows the history of a run. Nothing is shown yet.
pub fn visualize_history() {
}

} // verus!
