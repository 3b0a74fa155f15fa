//! Constants of the market.

use vstd::prelude::*;

verus! {

/// The name of the market.
pub const NAME: &'static str = "SGX";

/// The file that the market's log lines are written to.
pub const LOG_PATH: &'static str = "log_SGX.txt";

/// The age in days at which a reservation is released on the next day.
pub const MAX_LOCK_AGE: u8 = 15;

/// How many goods must stay unreserved on each side.
pub const UNLOCKED_GOODS: usize = 2;

/// What a rate is multiplied by, in percent, when a trade elsewhere moves it
/// up.
pub const RISE_PERCENT: u64 = 105;

/// What the rate at which the market sells is multiplied by, in percent, when
/// a day goes by.
pub const DAILY_BUY_PERCENT: u64 = 90;

/// What the rate at which the market pays is multiplied by, in percent, when
/// a day goes by.
pub const DAILY_SELL_PERCENT: u64 = 95;

} // verus!
