//! Why a market refuses a request.

use vstd::prelude::*;
use crate::goods::good_kind::GoodKind;

verus! {

/// Why a market gives no price.
#[derive(Debug, Clone, Copy, PartialEq, Eq, Structural)]
pub enum MarketGetterError {
    /// The quantity asked for is zero or negative.
    NonPositiveQuantityAsked,
    /// The market holds less than the quantity asked for.
    InsufficientGoodQuantityAvailable {
        requested_good_kind: GoodKind,
        requested_good_quantity: i64,
        available_good_quantity: i64,
    },
}

impl MarketGetterError {
    /// Whether the refusal says that `requested` of `kind` was asked for
    /// where the market holds `available`.
    pub open spec fn says_insufficient(self, kind: GoodKind, requested: int, available: int) -> bool {
        match self {
            MarketGetterError::InsufficientGoodQuantityAvailable {
                requested_good_kind,
                requested_good_quantity,
                available_good_quantity,
            } => requested_good_kind == kind && requested_good_quantity == requested
                && available_good_quantity == available,
            MarketGetterError::NonPositiveQuantityAsked => false,
        }
    }
}

/// Why a market does not reserve a purchase.
#[derive(Debug, Clone, PartialEq, Eq)]
pub enum LockBuyError {
    /// A buyer has reserved the good already, with this token.
    GoodAlreadyLocked { token: String },
    /// Too many goods are reserved by buyers.
    MaxAllowedLocksReached,
    /// The market holds less than the quantity asked for.
    InsufficientGoodQuantityAvailable {
        requested_good_kind: GoodKind,
        requested_good_quantity: i64,
        available_good_quantity: i64,
    },
    /// The quantity asked for is zero or negative.
    NonPositiveQuantityToBuy { negative_quantity_to_buy: i64 },
    /// The bid is zero or negative.
    NonPositiveBid { negative_bid: i64 },
    /// The bid is below the market's price.
    BidTooLow {
        requested_good_kind: GoodKind,
        requested_good_quantity: i64,
        low_bid: i64,
        lowest_acceptable_bid: i64,
    },
}

/// What a refusal to reserve a purchase says.
pub enum LockBuyErrorView {
    GoodAlreadyLocked { token: Seq<char> },
    MaxAllowedLocksReached,
    InsufficientGoodQuantityAvailable {
        requested_good_kind: GoodKind,
        requested_good_quantity: int,
        available_good_quantity: int,
    },
    NonPositiveQuantityToBuy { negative_quantity_to_buy: int },
    NonPositiveBid { negative_bid: int },
    BidTooLow {
        requested_good_kind: GoodKind,
        requested_good_quantity: int,
        low_bid: int,
        lowest_acceptable_bid: int,
    },
}

impl View for LockBuyError {
    type V = LockBuyErrorView;

    open spec fn view(&self) -> LockBuyErrorView {
        match self {
            LockBuyError::GoodAlreadyLocked { token } => LockBuyErrorView::GoodAlreadyLocked {
                token: token@,
            },
            LockBuyError::MaxAllowedLocksReached => LockBuyErrorView::MaxAllowedLocksReached,
            LockBuyError::InsufficientGoodQuantityAvailable {
                requested_good_kind,
                requested_good_quantity,
                available_good_quantity,
            } => LockBuyErrorView::InsufficientGoodQuantityAvailable {
                requested_good_kind: *requested_good_kind,
                requested_good_quantity: *requested_good_quantity as int,
                available_good_quantity: *available_good_quantity as int,
            },
            LockBuyError::NonPositiveQuantityToBuy {
                negative_quantity_to_buy,
            } => LockBuyErrorView::NonPositiveQuantityToBuy {
                negative_quantity_to_buy: *negative_quantity_to_buy as int,
            },
            LockBuyError::NonPositiveBid { negative_bid } => LockBuyErrorView::NonPositiveBid {
                negative_bid: *negative_bid as int,
            },
            LockBuyError::BidTooLow {
                requested_good_kind,
                requested_good_quantity,
                low_bid,
                lowest_acceptable_bid,
            } => LockBuyErrorView::BidTooLow {
                requested_good_kind: *requested_good_kind,
                requested_good_quantity: *requested_good_quantity as int,
                low_bid: *low_bid as int,
                lowest_acceptable_bid: *lowest_acceptable_bid as int,
            },
        }
    }
}

/// Why a market does not reserve a sale.
#[derive(Debug, Clone, PartialEq, Eq)]
pub enum LockSellError {
    /// A seller has reserved the good already, with this token.
    GoodAlreadyLocked { token: String },
    /// Too many goods are reserved by sellers.
    MaxAllowedLocksReached,
    /// The market holds less of the settlement kind than the offer.
    InsufficientDefaultGoodQuantityAvailable {
        offered_good_kind: GoodKind,
        offered_good_quantity: i64,
        available_good_quantity: i64,
    },
    /// The quantity offered is zero or negative.
    NonPositiveQuantityToSell { negative_quantity_to_sell: i64 },
    /// The offer is zero or negative.
    NonPositiveOffer { negative_offer: i64 },
    /// The offer is above the market's price.
    OfferTooHigh {
        offered_good_kind: GoodKind,
        offered_good_quantity: i64,
        high_offer: i64,
        highest_acceptable_offer: i64,
    },
}

/// What a refusal to reserve a sale says.
pub enum LockSellErrorView {
    GoodAlreadyLocked { token: Seq<char> },
    MaxAllowedLocksReached,
    InsufficientDefaultGoodQuantityAvailable {
        offered_good_kind: GoodKind,
        offered_good_quantity: int,
        available_good_quantity: int,
    },
    NonPositiveQuantityToSell { negative_quantity_to_sell: int },
    NonPositiveOffer { negative_offer: int },
    OfferTooHigh {
        offered_good_kind: GoodKind,
        offered_good_quantity: int,
        high_offer: int,
        highest_acceptable_offer: int,
    },
}

impl View for LockSellError {
    type V = LockSellErrorView;

    open spec fn view(&self) -> LockSellErrorView {
        match self {
            LockSellError::GoodAlreadyLocked { token } => LockSellErrorView::GoodAlreadyLocked {
                token: token@,
            },
            LockSellError::MaxAllowedLocksReached => LockSellErrorView::MaxAllowedLocksReached,
            LockSellError::InsufficientDefaultGoodQuantityAvailable {
                offered_good_kind,
                offered_good_quantity,
                available_good_quantity,
            } => LockSellErrorView::InsufficientDefaultGoodQuantityAvailable {
                offered_good_kind: *offered_good_kind,
                offered_good_quantity: *offered_good_quantity as int,
                available_good_quantity: *available_good_quantity as int,
            },
            LockSellError::NonPositiveQuantityToSell {
                negative_quantity_to_sell,
            } => LockSellErrorView::NonPositiveQuantityToSell {
                negative_quantity_to_sell: *negative_quantity_to_sell as int,
            },
            LockSellError::NonPositiveOffer { negative_offer } => LockSellErrorView::NonPositiveOffer {
                negative_offer: *negative_offer as int,
            },
            LockSellError::OfferTooHigh {
                offered_good_kind,
                offered_good_quantity,
                high_offer,
                highest_acceptable_offer,
            } => LockSellErrorView::OfferTooHigh {
                offered_good_kind: *offered_good_kind,
                offered_good_quantity: *offered_good_quantity as int,
                high_offer: *high_offer as int,
                highest_acceptable_offer: *highest_acceptable_offer as int,
            },
        }
    }
}

/// Why a market does not settle a purchase.
#[derive(Debug, Clone, PartialEq, Eq)]
pub enum BuyError {
    /// No buyer has ever reserved anything with this token.
    UnrecognizedToken { unrecognized_token: String },
    /// The token was redeemed, or its reservation timed out.
    ExpiredToken { expired_token: String },
    /// The payment is not of the settlement kind.
    GoodKindNotDefault { non_default_good_kind: GoodKind },
    /// The parcel holds less than was agreed.
    InsufficientGoodQuantity { contained_quantity: i64, pre_agreed_quantity: i64 },
}

/// What a refusal to settle a purchase says.
pub enum BuyErrorView {
    UnrecognizedToken { unrecognized_token: Seq<char> },
    ExpiredToken { expired_token: Seq<char> },
    GoodKindNotDefault { non_default_good_kind: GoodKind },
    InsufficientGoodQuantity { contained_quantity: int, pre_agreed_quantity: int },
}

impl View for BuyError {
    type V = BuyErrorView;

    open spec fn view(&self) -> BuyErrorView {
        match self {
            BuyError::UnrecognizedToken { unrecognized_token } => BuyErrorView::UnrecognizedToken {
                unrecognized_token: unrecognized_token@,
            },
            BuyError::ExpiredToken { expired_token } => BuyErrorView::ExpiredToken {
                expired_token: expired_token@,
            },
            BuyError::GoodKindNotDefault { non_default_good_kind } => BuyErrorView::GoodKindNotDefault {
                non_default_good_kind: *non_default_good_kind,
            },
            BuyError::InsufficientGoodQuantity {
                contained_quantity,
                pre_agreed_quantity,
            } => BuyErrorView::InsufficientGoodQuantity {
                contained_quantity: *contained_quantity as int,
                pre_agreed_quantity: *pre_agreed_quantity as int,
            },
        }
    }
}

/// Why a market does not settle a sale.
#[derive(Debug, Clone, PartialEq, Eq)]
pub enum SellError {
    /// No seller has ever reserved anything with this token.
    UnrecognizedToken { unrecognized_token: String },
    /// The token was redeemed, or its reservation timed out.
    ExpiredToken { expired_token: String },
    /// The parcel is not of the kind that was reserved.
    WrongGoodKind { wrong_good_kind: GoodKind, pre_agreed_kind: GoodKind },
    /// The parcel holds less than was agreed.
    InsufficientGoodQuantity { contained_quantity: i64, pre_agreed_quantity: i64 },
}

/// What a refusal to settle a sale says.
pub enum SellErrorView {
    UnrecognizedToken { unrecognized_token: Seq<char> },
    ExpiredToken { expired_token: Seq<char> },
    WrongGoodKind { wrong_good_kind: GoodKind, pre_agreed_kind: GoodKind },
    InsufficientGoodQuantity { contained_quantity: int, pre_agreed_quantity: int },
}

impl View for SellError {
    type V = SellErrorView;

    open spec fn view(&self) -> SellErrorView {
        match self {
            SellError::UnrecognizedToken { unrecognized_token } => SellErrorView::UnrecognizedToken {
                unrecognized_token: unrecognized_token@,
            },
            SellError::ExpiredToken { expired_token } => SellErrorView::ExpiredToken {
                expired_token: expired_token@,
            },
            SellError::WrongGoodKind { wrong_good_kind, pre_agreed_kind } => SellErrorView::WrongGoodKind {
                wrong_good_kind: *wrong_good_kind,
                pre_agreed_kind: *pre_agreed_kind,
            },
            SellError::InsufficientGoodQuantity {
                contained_quantity,
                pre_agreed_quantity,
            } => SellErrorView::InsufficientGoodQuantity {
                contained_quantity: *contained_quantity as int,
                pre_agreed_quantity: *pre_agreed_quantity as int,
            },
        }
    }
}

} // verus!
