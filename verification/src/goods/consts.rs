//! Constants shared by goods and markets.

use vstd::prelude::*;
use crate::goods::good_kind::GoodKind;

verus! {

/// The kind in which every trade is settled.
pub const DEFAULT_GOOD_KIND: GoodKind = GoodKind::EUR;

/// The number that stands for the rate 1.0: rates have six decimal places.
pub const RATE_SCALE: u64 = 1_000_000;

/// The largest quantity or price: sums and prices beyond it are capped here.
pub const MAX_AMOUNT: i64 = 0x7fff_ffff_ffff_ffff;

/// The largest rate: rates beyond it are capped here.
pub const MAX_RATE: u64 = 0xffff_ffff_ffff_ffff;

/// Units of the settlement kind that one YEN is quoted at when a market opens.
pub const DEFAULT_EUR_YEN_EXCHANGE_RATE: u64 = 144_803_800;

/// Units of the settlement kind that one USD is quoted at when a market opens.
pub const DEFAULT_EUR_USD_EXCHANGE_RATE: u64 = 1_035_760;

/// Units of the settlement kind that one YUAN is quoted at when a market opens.
pub const DEFAULT_EUR_YUAN_EXCHANGE_RATE: u64 = 7_359_900;

/// The total quantity that a market with random stock is opened with.
pub const STARTING_CAPITAL: i64 = 1_000_000;

} // verus!
