//! What a market shows of one good.

use vstd::prelude::*;
use crate::goods::good_kind::GoodKind;

verus! {

/// The kind of a good, how much of it a market holds, and the rates at which
/// the market sells it and pays for it.
#[derive(Debug, Clone, Copy, PartialEq, Eq, Structural)]
pub struct GoodLabel {
    pub good_kind: GoodKind,
    pub quantity: i64,
    pub exchange_rate_buy: u64,
    pub exchange_rate_sell: u64,
}

} // verus!
