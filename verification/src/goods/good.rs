//! A parcel of one kind of good.

use vstd::prelude::*;
use crate::goods::consts::MAX_AMOUNT;
use crate::goods::good_kind::GoodKind;

verus! {

/// A quantity of one kind of good, held by a market or by a trader.
#[derive(Debug, Clone, PartialEq, Eq)]
pub struct Good {
    kind: GoodKind,
    quantity: i64,
}

/// What a parcel is: its kind and how much of it there is.
pub struct GoodView {
    pub kind: GoodKind,
    pub quantity: int,
}

/// Why a parcel could not be split.
#[derive(Debug, Clone, Copy, PartialEq, Eq, Structural)]
pub enum GoodSplitError {
    /// The quantity asked for is zero or negative.
    NonPositiveSplitQuantity,
    /// The parcel holds less than the quantity asked for.
    NotEnoughQuantityToSplit,
}

/// Why two parcels could not be merged.
#[derive(Debug, Clone, Copy, PartialEq, Eq, Structural)]
pub enum GoodKindError {
    /// The parcels are of different kinds.
    DifferentKindsOfGood,
}

impl View for Good {
    type V = GoodView;

    closed spec fn view(&self) -> GoodView {
        GoodView { kind: self.kind, quantity: self.quantity as int }
    }
}

/// A sum kept within the range of quantities.
pub open spec fn clamped(n: int) -> int {
    if n > MAX_AMOUNT {
        MAX_AMOUNT as int
    } else if n < -MAX_AMOUNT - 1 {
        -MAX_AMOUNT - 1
    } else {
        n
    }
}

/// The sum of two quantities, kept within the range of quantities.
pub fn add_clamped(a: i64, b: i64) -> (r: i64)
    ensures
        r == clamped(a + b),
{
    let sum: i128 = a as i128 + b as i128;
    if sum > i64::MAX as i128 {
        i64::MAX
    } else if sum < i64::MIN as i128 {
        i64::MIN
    } else {
        sum as i64
    }
}

impl Good {
    /// A parcel of `quantity` of `kind`.
    pub fn new(kind: GoodKind, quantity: i64) -> (good: Good)
        ensures
            good@ == (GoodView { kind, quantity: quantity as int }),
    {
        Good { kind, quantity }
    }

    /// The kind of the parcel.
    pub fn get_kind(&self) -> (kind: GoodKind)
        ensures
            kind == self@.kind,
    {
        self.kind
    }

    /// The quantity in the parcel.
    pub fn get_qty(&self) -> (quantity: i64)
        ensures
            quantity == self@.quantity,
    {
        self.quantity
    }

    /// Takes `quantity` out of the parcel into a new parcel of the same kind.
    /// A quantity that is not positive, or more than the parcel holds, is
    /// refused and the parcel stays as it is.
    pub fn split(&mut self, quantity: i64) -> (r: Result<Good, GoodSplitError>)
        ensures
            quantity <= 0 ==> r == Err::<Good, GoodSplitError>(
                GoodSplitError::NonPositiveSplitQuantity,
            ),
            quantity > 0 && quantity > old(self)@.quantity ==> r == Err::<Good, GoodSplitError>(
                GoodSplitError::NotEnoughQuantityToSplit,
            ),
            0 < quantity <= old(self)@.quantity ==> r is Ok,
            r is Err ==> final(self)@ == old(self)@,
            r is Ok ==> r->Ok_0@ == (GoodView {
                kind: old(self)@.kind,
                quantity: quantity as int,
            }) && final(self)@ == (GoodView {
                kind: old(self)@.kind,
                quantity: old(self)@.quantity - quantity,
            }),
    {
        if quantity <= 0 {
            return Err(GoodSplitError::NonPositiveSplitQuantity);
        }
        if self.quantity < quantity {
            return Err(GoodSplitError::NotEnoughQuantityToSplit);
        }
        self.quantity = self.quantity - quantity;
        Ok(Good { kind: self.kind, quantity })
    }

    /// Adds another parcel of the same kind to this one; the sum is capped at
    /// the largest quantity. A parcel of another kind is refused.
    pub fn merge(&mut self, other: Good) -> (r: Result<(), GoodKindError>)
        ensures
            r is Ok <==> other@.kind == old(self)@.kind,
            r is Ok ==> final(self)@ == (GoodView {
                kind: old(self)@.kind,
                quantity: clamped(old(self)@.quantity + other@.quantity),
            }),
            r is Err ==> final(self)@ == old(self)@,
    {
        if self.kind != other.kind {
            return Err(GoodKindError::DifferentKindsOfGood);
        }
        self.quantity = add_clamped(self.quantity, other.quantity);
        Ok(())
    }
}

} // verus!
