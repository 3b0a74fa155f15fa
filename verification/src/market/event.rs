//! What a market tells its subscribers.

use vstd::prelude::*;
use crate::goods::good_kind::GoodKind;

verus! {

/// What happened.
#[derive(Debug, Clone, Copy, PartialEq, Eq, Structural)]
pub enum EventKind {
    /// A trader bought from a market.
    Bought,
    /// A trader sold to a market.
    Sold,
    /// A trader reserved a purchase.
    LockedBuy,
    /// A trader reserved a sale.
    LockedSell,
    /// A day went by.
    Wait,
}

/// One event: what happened, to which good, to how much of it and at what
/// price in the settlement kind.
#[derive(Debug, Clone, Copy, PartialEq, Eq, Structural)]
pub struct Event {
    pub kind: EventKind,
    pub good_kind: GoodKind,
    pub quantity: i64,
    pub price: i64,
}

} // verus!
