//! The ledger entry of one good: its rates, its reservations and the tokens
//! that can no longer be redeemed.

use vstd::prelude::*;
use vstd::string::*;
use crate::goods::consts::{MAX_RATE, RATE_SCALE};
use crate::goods::good_kind::GoodKind;
use crate::goods::good_status::{token_text, GoodLock, GoodStatus, LockView};
use crate::ratio::{capped_quotient, mul_div_capped};

verus! {

/// The ledger entry of one good.
#[derive(Debug, PartialEq, Clone)]
pub struct GoodMetadata {
    /// The rate at which the market pays for the good, in the settlement kind.
    pub base_sell_price: u64,
    /// The rate at which the market sells the good, in the settlement kind.
    pub base_buy_price: u64,
    /// The reservation of a seller, if there is one.
    pub sell_status: GoodStatus,
    /// The reservation of a buyer, if there is one.
    pub buy_status: GoodStatus,
    /// The tokens of sellers that can no longer be redeemed, oldest first.
    pub expired_sell_tokens: Vec<String>,
    /// The tokens of buyers that can no longer be redeemed, oldest first.
    pub expired_buy_tokens: Vec<String>,
}

/// What a ledger entry is.
pub struct MetaView {
    pub sell_rate: int,
    pub buy_rate: int,
    pub sell: Option<LockView>,
    pub buy: Option<LockView>,
    pub expired_sell: Seq<Seq<char>>,
    pub expired_buy: Seq<Seq<char>>,
}

/// The texts of a list of strings.
pub open spec fn texts(strings: Seq<String>) -> Seq<Seq<char>> {
    Seq::new(strings.len(), |i: int| strings[i]@)
}

/// The rate of the opposite direction: one divided by `rate`, rounded down.
/// The reciprocal of zero is the largest rate.
pub open spec fn reciprocal_rate(rate: int) -> int {
    capped_quotient(RATE_SCALE as int, RATE_SCALE as int, rate, MAX_RATE as int)
}

/// A rate multiplied by the factor `numerator / denominator`, rounded down and
/// capped at the largest rate. A factor with the denominator zero gives the
/// largest rate.
pub open spec fn fluctuated(rate: int, numerator: int, denominator: int) -> int {
    capped_quotient(rate, numerator, denominator, MAX_RATE as int)
}

impl View for GoodMetadata {
    type V = MetaView;

    open spec fn view(&self) -> MetaView {
        MetaView {
            sell_rate: self.base_sell_price as int,
            buy_rate: self.base_buy_price as int,
            sell: self.sell_status@,
            buy: self.buy_status@,
            expired_sell: texts(self.expired_sell_tokens@),
            expired_buy: texts(self.expired_buy_tokens@),
        }
    }
}

/// Whether `token` is among `tokens`.
fn contains_token(tokens: &Vec<String>, token: &String) -> (found: bool)
    ensures
        found == texts(tokens@).contains(token@),
{
    let mut i: usize = 0;
    while i < tokens.len()
        invariant
            i <= tokens.len(),
            forall|j: int| 0 <= j < i ==> texts(tokens@)[j] != token@,
        decreases tokens.len() - i,
    {
        if tokens[i] == *token {
            assert(texts(tokens@)[i as int] == token@);
            return true;
        }
        i += 1;
    }
    false
}

impl GoodMetadata {
    /// The entry of a good that opens at `exchange_rate`: the market sells at
    /// that rate and pays its reciprocal; nothing is reserved, no token has
    /// expired.
    pub fn new(exchange_rate: u64) -> (meta: Self)
        ensures
            meta@ == (MetaView {
                sell_rate: reciprocal_rate(exchange_rate as int),
                buy_rate: exchange_rate as int,
                sell: None,
                buy: None,
                expired_sell: Seq::empty(),
                expired_buy: Seq::empty(),
            }),
    {
        let meta = Self {
            base_sell_price: mul_div_capped(
                RATE_SCALE as u128,
                RATE_SCALE as u128,
                exchange_rate as u128,
                MAX_RATE,
            ),
            base_buy_price: exchange_rate,
            sell_status: GoodStatus::Available,
            buy_status: GoodStatus::Available,
            expired_sell_tokens: Vec::new(),
            expired_buy_tokens: Vec::new(),
        };
        assert(meta@.expired_sell =~= Seq::empty());
        assert(meta@.expired_buy =~= Seq::empty());
        meta
    }

    /// Reserves the good for a seller and returns the reservation's token. A
    /// reservation that was there is replaced.
    pub fn lock_for_sell(&mut self, locked_qty: i64, kind: GoodKind, offer: i64, trader_name: String) -> (token:
        String)
        ensures
            token@ == token_text(trader_name@, kind, locked_qty as int),
            final(self)@ == (MetaView {
                sell: Some(
                    LockView {
                        quantity: locked_qty as int,
                        kind,
                        price: offer as int,
                        token: token@,
                        age: 1,
                    },
                ),
                ..old(self)@
            }),
    {
        let lock = GoodLock::new(locked_qty, kind, offer, trader_name);
        let token = lock.transaction_token.clone();
        self.sell_status = GoodStatus::Locked(lock);
        token
    }

    /// Reserves the good for a buyer and returns the reservation's token. A
    /// reservation that was there is replaced.
    pub fn lock_for_buy(&mut self, locked_qty: i64, kind: GoodKind, bid: i64, trader_name: String) -> (token:
        String)
        ensures
            token@ == token_text(trader_name@, kind, locked_qty as int),
            final(self)@ == (MetaView {
                buy: Some(
                    LockView {
                        quantity: locked_qty as int,
                        kind,
                        price: bid as int,
                        token: token@,
                        age: 1,
                    },
                ),
                ..old(self)@
            }),
    {
        let lock = GoodLock::new(locked_qty, kind, bid, trader_name);
        let token = lock.transaction_token.clone();
        self.buy_status = GoodStatus::Locked(lock);
        token
    }

    /// Releases the seller's reservation: its token joins the expired tokens.
    pub fn unlock_for_sell(&mut self)
        requires
            old(self)@.sell is Some,
        ensures
            final(self)@ == (MetaView {
                sell: None,
                expired_sell: old(self)@.expired_sell.push(old(self)@.sell->Some_0.token),
                ..old(self)@
            }),
    {
        if let GoodStatus::Locked(lock) = &self.sell_status {
            let token = lock.transaction_token.clone();
            self.expired_sell_tokens.push(token);
        }
        self.sell_status = GoodStatus::Available;
        assert(self@.expired_sell =~= old(self)@.expired_sell.push(old(self)@.sell->Some_0.token));
    }

    /// Releases the buyer's reservation: its token joins the expired tokens.
    pub fn unlock_for_buy(&mut self)
        requires
            old(self)@.buy is Some,
        ensures
            final(self)@ == (MetaView {
                buy: None,
                expired_buy: old(self)@.expired_buy.push(old(self)@.buy->Some_0.token),
                ..old(self)@
            }),
    {
        if let GoodStatus::Locked(lock) = &self.buy_status {
            let token = lock.transaction_token.clone();
            self.expired_buy_tokens.push(token);
        }
        self.buy_status = GoodStatus::Available;
        assert(self@.expired_buy =~= old(self)@.expired_buy.push(old(self)@.buy->Some_0.token));
    }

    /// Whether a seller has reserved the good.
    pub fn is_locked_for_sell(&self) -> (locked: bool)
        ensures
            locked == self@.sell is Some,
    {
        match self.sell_status {
            GoodStatus::Available => false,
            GoodStatus::Locked(_) => true,
        }
    }

    /// Whether a buyer has reserved the good.
    pub fn is_locked_for_buy(&self) -> (locked: bool)
        ensures
            locked == self@.buy is Some,
    {
        match self.buy_status {
            GoodStatus::Available => false,
            GoodStatus::Locked(_) => true,
        }
    }

    /// The seller's reservation, if there is one.
    pub fn get_sell_lock(&self) -> (lock: Option<&GoodLock>)
        ensures
            lock is Some <==> self@.sell is Some,
            lock is Some ==> self.sell_status == GoodStatus::Locked(*lock->Some_0),
    {
        match &self.sell_status {
            GoodStatus::Available => None,
            GoodStatus::Locked(lock) => Some(lock),
        }
    }

    /// The seller's reservation, if there is one, to change it in place.
    pub fn get_mut_sell_lock(&mut self) -> (lock: Option<&mut GoodLock>)
        ensures
            lock is Some <==> old(self)@.sell is Some,
            lock is None ==> *final(self) == *old(self),
            lock is Some ==> old(self).sell_status == GoodStatus::Locked(*lock->Some_0)
                && *final(self) == (GoodMetadata {
                sell_status: GoodStatus::Locked(*final(lock->Some_0)),
                ..*old(self)
            }),
    {
        match &mut self.sell_status {
            GoodStatus::Available => None,
            GoodStatus::Locked(lock) => Some(lock),
        }
    }

    /// The buyer's reservation, if there is one.
    pub fn get_buy_lock(&self) -> (lock: Option<&GoodLock>)
        ensures
            lock is Some <==> self@.buy is Some,
            lock is Some ==> self.buy_status == GoodStatus::Locked(*lock->Some_0),
    {
        match &self.buy_status {
            GoodStatus::Available => None,
            GoodStatus::Locked(lock) => Some(lock),
        }
    }

    /// The buyer's reservation, if there is one, to change it in place.
    pub fn get_mut_buy_lock(&mut self) -> (lock: Option<&mut GoodLock>)
        ensures
            lock is Some <==> old(self)@.buy is Some,
            lock is None ==> *final(self) == *old(self),
            lock is Some ==> old(self).buy_status == GoodStatus::Locked(*lock->Some_0)
                && *final(self) == (GoodMetadata {
                buy_status: GoodStatus::Locked(*final(lock->Some_0)),
                ..*old(self)
            }),
    {
        match &mut self.buy_status {
            GoodStatus::Available => None,
            GoodStatus::Locked(lock) => Some(lock),
        }
    }

    /// Whether `token` is an expired token of a seller.
    pub fn has_expired_sell_token(&self, token: &String) -> (expired: bool)
        ensures
            expired == self@.expired_sell.contains(token@),
    {
        contains_token(&self.expired_sell_tokens, token)
    }

    /// Whether `token` is an expired token of a buyer.
    pub fn has_expired_buy_token(&self, token: &String) -> (expired: bool)
        ensures
            expired == self@.expired_buy.contains(token@),
    {
        contains_token(&self.expired_buy_tokens, token)
    }

    /// Multiplies the rate at which the market sells by
    /// `numerator / denominator`.
    pub fn fluctuate_buy_price_with_factor(&mut self, numerator: u64, denominator: u64)
        ensures
            final(self)@ == (MetaView {
                buy_rate: fluctuated(old(self)@.buy_rate, numerator as int, denominator as int),
                ..old(self)@
            }),
    {
        self.base_buy_price = mul_div_capped(
            self.base_buy_price as u128,
            numerator as u128,
            denominator as u128,
            MAX_RATE,
        );
    }

    /// Multiplies the rate at which the market pays by
    /// `numerator / denominator`.
    pub fn fluctuate_sell_price_with_factor(&mut self, numerator: u64, denominator: u64)
        ensures
            final(self)@ == (MetaView {
                sell_rate: fluctuated(old(self)@.sell_rate, numerator as int, denominator as int),
                ..old(self)@
            }),
    {
        self.base_sell_price = mul_div_capped(
            self.base_sell_price as u128,
            numerator as u128,
            denominator as u128,
            MAX_RATE,
        );
    }
}

} // verus!
