//! Reservations: whether one side of a good is reserved, and by what.

use vstd::prelude::*;
use vstd::string::*;
use crate::goods::good_kind::{lemma_kind_text, GoodKind};
use crate::text::{
    decimal,
    decimal_digits,
    lemma_digits_are_digits,
    lemma_digits_injective,
    lemma_split_at_last_hyphen,
    push_decimal,
};

verus! {

/// Whether one side of a good is reserved. A reserved side carries its
/// reservation, so the two cannot disagree.
#[derive(Debug, PartialEq, Clone)]
pub enum GoodStatus {
    Locked(GoodLock),
    Available,
}

/// One reservation.
#[derive(Debug, PartialEq, Clone)]
pub struct GoodLock {
    /// The quantity of the traded good that is reserved.
    pub locked_original_qty: i64,
    /// The kind that is reserved.
    pub kind: GoodKind,
    /// The agreed price in the settlement kind: the bid of a buyer, or the
    /// offer to a seller.
    pub eur_quantity: i64,
    /// The token that stands for the reservation.
    pub transaction_token: String,
    /// The age of the reservation in days, starting at one.
    pub age_in_days: u8,
}

/// What a reservation is.
pub struct LockView {
    pub quantity: int,
    pub kind: GoodKind,
    pub price: int,
    pub token: Seq<char>,
    pub age: int,
}

/// The token of a reservation: the trader's name, the kind's name and the
/// quantity, joined by hyphens.
pub open spec fn token_text(trader: Seq<char>, kind: GoodKind, quantity: int) -> Seq<char> {
    trader + seq!['-'] + kind.text() + seq!['-'] + decimal(quantity)
}

impl View for GoodLock {
    type V = LockView;

    open spec fn view(&self) -> LockView {
        LockView {
            quantity: self.locked_original_qty as int,
            kind: self.kind,
            price: self.eur_quantity as int,
            token: self.transaction_token@,
            age: self.age_in_days as int,
        }
    }
}

impl View for GoodStatus {
    type V = Option<LockView>;

    open spec fn view(&self) -> Option<LockView> {
        match self {
            GoodStatus::Locked(lock) => Some(lock@),
            GoodStatus::Available => None,
        }
    }
}

impl GoodLock {
    /// The token for a reservation of `locked_qty` of `kind` by `trader_name`.
    /// The same three values always give the same token.
    pub fn gen_token(trader_name: String, kind: GoodKind, locked_qty: i64) -> (token: String)
        ensures
            token@ == token_text(trader_name@, kind, locked_qty as int),
    {
        proof {
            reveal_strlit("-");
        }
        let mut token = trader_name;
        token.append("-");
        token.append(kind.name());
        token.append("-");
        push_decimal(&mut token, locked_qty);
        assert(token@ =~= token_text(trader_name@, kind, locked_qty as int));
        token
    }

    /// A reservation of `locked_original_qty` of `kind` at the price
    /// `eur_quantity`, one day old, with the token of the three values.
    pub fn new(locked_original_qty: i64, kind: GoodKind, eur_quantity: i64, trader_name: String) -> (lock:
        Self)
        ensures
            lock@ == (LockView {
                quantity: locked_original_qty as int,
                kind,
                price: eur_quantity as int,
                token: token_text(trader_name@, kind, locked_original_qty as int),
                age: 1,
            }),
    {
        Self {
            locked_original_qty,
            kind,
            eur_quantity,
            transaction_token: GoodLock::gen_token(trader_name, kind, locked_original_qty),
            age_in_days: 1,
        }
    }

    /// Makes the reservation one day older.
    pub fn increase_age_by_one(&mut self)
        requires
            old(self).age_in_days < 255,
        ensures
            final(self)@ == (LockView { age: old(self)@.age + 1, ..old(self)@ }),
    {
        self.age_in_days += 1;
    }
}

/// Tokens tell reservations apart: two tokens for quantities that are not
/// negative are the same only where the trader's name, the kind and the
/// quantity are the same.
pub proof fn lemma_token_injective(
    trader1: Seq<char>,
    kind1: GoodKind,
    quantity1: int,
    trader2: Seq<char>,
    kind2: GoodKind,
    quantity2: int,
)
    requires
        quantity1 >= 0,
        quantity2 >= 0,
        token_text(trader1, kind1, quantity1) == token_text(trader2, kind2, quantity2),
    ensures
        trader1 == trader2,
        kind1 == kind2,
        quantity1 == quantity2,
{
    let digits1 = decimal_digits(quantity1 as nat);
    let digits2 = decimal_digits(quantity2 as nat);
    lemma_digits_are_digits(quantity1 as nat);
    lemma_digits_are_digits(quantity2 as nat);
    lemma_split_at_last_hyphen(
        trader1 + seq!['-'] + kind1.text(),
        digits1,
        trader2 + seq!['-'] + kind2.text(),
        digits2,
    );
    lemma_digits_injective(quantity1 as nat, quantity2 as nat);
    lemma_kind_text(kind1);
    lemma_kind_text(kind2);
    lemma_split_at_last_hyphen(trader1, kind1.text(), trader2, kind2.text());
    assert(kind1.text()[0] == kind2.text()[0]);
    assert(kind1.text()[1] == kind2.text()[1]);
}

} // verus!
