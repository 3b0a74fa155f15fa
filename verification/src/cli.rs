//! What the plain command line understands.

use vstd::prelude::*;
use vstd::string::*;
use crate::goods::good_metadata::texts;
use crate::trader::{market_for_name, market_named, MarketName, StrategyIdentifier};

verus! {

/// The markets that go by the names, in the order of the names; a name that
/// no market goes by is passed over.
pub open spec fn known_markets(names: Seq<Seq<char>>) -> Seq<MarketName>
    decreases names.len(),
{
    if names.len() == 0 {
        Seq::empty()
    } else {
        match market_named(names.last()) {
            Some(market) => known_markets(names.drop_last()).push(market),
            None => known_markets(names.drop_last()),
        }
    }
}

/// Tells which market a name stands for.
pub struct MarketFactory();

impl MarketFactory {
    /// The market that goes by `market_name`, whatever the case of its
    /// letters: sgx, smse, tase or zse.
    pub fn gen_market(market_name: &String) -> (market: Option<MarketName>)
        ensures
            market == market_named(market_name@),
    {
        market_for_name(market_name.as_str())
    }
}

/// The markets that go by the names, in the order of the names; a name that
/// no market goes by is passed over.
pub fn parse_markets(markets: &[String]) -> (known: Vec<MarketName>)
    ensures
        known@ == known_markets(texts(markets@)),
{
    let mut known: Vec<MarketName> = Vec::new();
    let mut i: usize = 0;
    while i < markets.len()
        invariant
            i <= markets.len(),
            known@ == known_markets(texts(markets@).take(i as int)),
        decreases markets.len() - i,
    {
        proof {
            assert(texts(markets@).take(i + 1).drop_last() =~= texts(markets@).take(i as int));
        }
        if let Some(market) = market_for_name(markets[i].as_str()) {
            known.push(market);
        }
        i += 1;
    }
    assert(texts(markets@).take(i as int) =~= texts(markets@));
    known
}

/// The strategy that goes by the name `strategy` on the command line, if
/// there is one. The only name is `mostsimple`.
pub fn map_strategy_to_id(strategy: String) -> (id: Option<StrategyIdentifier>)
    ensures
        id == if strategy@ == "mostsimple"@ {
            Some(StrategyIdentifier::MostSimple)
        } else {
            None
        },
{
    if strategy == String::from_str("mostsimple") {
        Some(StrategyIdentifier::MostSimple)
    } else {
        None
    }
}

} // verus!
