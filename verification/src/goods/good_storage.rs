//! The inventory: the goods of a market with their ledger entries.

use vstd::prelude::*;
use vstd::string::*;
use crate::goods::consts::{
    DEFAULT_EUR_USD_EXCHANGE_RATE,
    DEFAULT_EUR_YEN_EXCHANGE_RATE,
    DEFAULT_EUR_YUAN_EXCHANGE_RATE,
    DEFAULT_GOOD_KIND,
    MAX_AMOUNT,
    MAX_RATE,
    RATE_SCALE,
};
use crate::goods::good::Good;
use crate::goods::good_kind::GoodKind;
use crate::goods::good_label::GoodLabel;
use crate::goods::good_metadata::{GoodMetadata, MetaView};
use crate::goods::good_status::{GoodStatus, LockView};
use crate::goods::goods_factory::{
    entry_views,
    opening_goods,
    EntryView,
    GoodWithMeta,
    GoodsFactory,
};
use crate::ratio::lemma_capped_quotient_in_range;

verus! {

/// The goods of a market, each with its ledger entry.
pub struct GoodStorage(Vec<GoodWithMeta>);

/// Whether `i` is the place of the first good of `kind`.
pub open spec fn first_of_kind(goods: Seq<EntryView>, kind: GoodKind, i: int) -> bool {
    &&& 0 <= i < goods.len()
    &&& goods[i].0.kind == kind
    &&& forall|j: int| 0 <= j < i ==> (#[trigger] goods[j]).0.kind != kind
}

/// Whether a buyer's reservation with `token` stands in the entry.
pub open spec fn holds_buy_token(meta: MetaView, token: Seq<char>) -> bool {
    meta.buy is Some && meta.buy->Some_0.token == token
}

/// Whether a seller's reservation with `token` stands in the entry.
pub open spec fn holds_sell_token(meta: MetaView, token: Seq<char>) -> bool {
    meta.sell is Some && meta.sell->Some_0.token == token
}

/// Whether `i` is the place of the first good that a buyer has reserved with
/// `token`.
pub open spec fn first_with_buy_token(goods: Seq<EntryView>, token: Seq<char>, i: int) -> bool {
    &&& 0 <= i < goods.len()
    &&& holds_buy_token(goods[i].1, token)
    &&& forall|j: int| 0 <= j < i ==> !holds_buy_token((#[trigger] goods[j]).1, token)
}

/// Whether `i` is the place of the first good that a seller has reserved
/// with `token`.
pub open spec fn first_with_sell_token(goods: Seq<EntryView>, token: Seq<char>, i: int) -> bool {
    &&& 0 <= i < goods.len()
    &&& holds_sell_token(goods[i].1, token)
    &&& forall|j: int| 0 <= j < i ==> !holds_sell_token((#[trigger] goods[j]).1, token)
}

/// Whether no buyer's reservation carries `token`.
pub open spec fn no_buy_token(goods: Seq<EntryView>, token: Seq<char>) -> bool {
    forall|j: int| 0 <= j < goods.len() ==> !holds_buy_token((#[trigger] goods[j]).1, token)
}

/// Whether no seller's reservation carries `token`.
pub open spec fn no_sell_token(goods: Seq<EntryView>, token: Seq<char>) -> bool {
    forall|j: int| 0 <= j < goods.len() ==> !holds_sell_token((#[trigger] goods[j]).1, token)
}

/// Whether `token` is an expired token of a buyer, for any good.
pub open spec fn expired_buy_token(goods: Seq<EntryView>, token: Seq<char>) -> bool {
    exists|j: int| 0 <= j < goods.len() && (#[trigger] goods[j]).1.expired_buy.contains(token)
}

/// Whether `token` is an expired token of a seller, for any good.
pub open spec fn expired_sell_token(goods: Seq<EntryView>, token: Seq<char>) -> bool {
    exists|j: int| 0 <= j < goods.len() && (#[trigger] goods[j]).1.expired_sell.contains(token)
}

/// How many goods a buyer has reserved.
pub open spec fn buy_locks(goods: Seq<EntryView>) -> nat
    decreases goods.len(),
{
    if goods.len() == 0 {
        0
    } else {
        buy_locks(goods.drop_last()) + if goods.last().1.buy is Some {
            1nat
        } else {
            0nat
        }
    }
}

/// How many goods a seller has reserved.
pub open spec fn sell_locks(goods: Seq<EntryView>) -> nat
    decreases goods.len(),
{
    if goods.len() == 0 {
        0
    } else {
        sell_locks(goods.drop_last()) + if goods.last().1.sell is Some {
            1nat
        } else {
            0nat
        }
    }
}

/// One if there is a reservation, zero if there is none.
pub open spec fn counted(lock: Option<LockView>) -> nat {
    if lock is Some {
        1
    } else {
        0
    }
}

/// Among four goods, the reserved ones are counted good by good.
pub proof fn lemma_locks_of_four(goods: Seq<EntryView>)
    requires
        goods.len() == 4,
    ensures
        buy_locks(goods) == counted(goods[0].1.buy) + counted(goods[1].1.buy) + counted(
            goods[2].1.buy,
        ) + counted(goods[3].1.buy),
        sell_locks(goods) == counted(goods[0].1.sell) + counted(goods[1].1.sell) + counted(
            goods[2].1.sell,
        ) + counted(goods[3].1.sell),
{
    let three = goods.drop_last();
    let two = three.drop_last();
    let one = two.drop_last();
    assert(one.drop_last().len() == 0);
    assert(buy_locks(one) == buy_locks(one.drop_last()) + counted(one.last().1.buy));
    assert(buy_locks(two) == buy_locks(one) + counted(two.last().1.buy));
    assert(buy_locks(three) == buy_locks(two) + counted(three.last().1.buy));
    assert(buy_locks(goods) == buy_locks(three) + counted(goods.last().1.buy));
    assert(sell_locks(one) == sell_locks(one.drop_last()) + counted(one.last().1.sell));
    assert(sell_locks(two) == sell_locks(one) + counted(two.last().1.sell));
    assert(sell_locks(three) == sell_locks(two) + counted(three.last().1.sell));
    assert(sell_locks(goods) == sell_locks(three) + counted(goods.last().1.sell));
}

/// Whether `label` is what a market shows of the good with its entry: the
/// kind, the quantity and the two rates, each as it is.
pub open spec fn is_label_of(label: GoodLabel, entry: EntryView) -> bool {
    &&& label.good_kind == entry.0.kind
    &&& label.quantity == entry.0.quantity
    &&& label.exchange_rate_buy == entry.1.buy_rate
    &&& label.exchange_rate_sell == entry.1.sell_rate
}

/// Whether a good with its entry is within the range of amounts and rates:
/// the quantity from zero to the largest amount, each rate from zero to the
/// largest rate.
pub open spec fn in_range(entry: EntryView) -> bool {
    &&& 0 <= entry.0.quantity <= MAX_AMOUNT
    &&& 0 <= entry.1.buy_rate <= MAX_RATE
    &&& 0 <= entry.1.sell_rate <= MAX_RATE
}

/// An inventory as a market keeps it: the four goods in the order EUR, YEN,
/// USD, YUAN, each within the range of amounts and rates.
pub open spec fn four_goods(goods: Seq<EntryView>) -> bool {
    &&& goods.len() == 4
    &&& goods[0].0.kind == GoodKind::EUR
    &&& goods[1].0.kind == GoodKind::YEN
    &&& goods[2].0.kind == GoodKind::USD
    &&& goods[3].0.kind == GoodKind::YUAN
    &&& forall|i: int| 0 <= i < 4 ==> in_range(#[trigger] goods[i])
}

/// The goods that a market opens with are an inventory as a market keeps
/// it, where the quantities are within the range of amounts.
pub proof fn lemma_opening_goods_in_range(eur: int, yen: int, usd: int, yuan: int)
    requires
        0 <= eur <= MAX_AMOUNT,
        0 <= yen <= MAX_AMOUNT,
        0 <= usd <= MAX_AMOUNT,
        0 <= yuan <= MAX_AMOUNT,
    ensures
        four_goods(opening_goods(eur, yen, usd, yuan)),
{
    let scale = RATE_SCALE as int;
    lemma_capped_quotient_in_range(scale, scale, scale, MAX_RATE as int);
    lemma_capped_quotient_in_range(
        scale,
        scale,
        DEFAULT_EUR_YEN_EXCHANGE_RATE as int,
        MAX_RATE as int,
    );
    lemma_capped_quotient_in_range(
        scale,
        scale,
        DEFAULT_EUR_USD_EXCHANGE_RATE as int,
        MAX_RATE as int,
    );
    lemma_capped_quotient_in_range(
        scale,
        scale,
        DEFAULT_EUR_YUAN_EXCHANGE_RATE as int,
        MAX_RATE as int,
    );
}

impl View for GoodStorage {
    type V = Seq<EntryView>;

    closed spec fn view(&self) -> Seq<EntryView> {
        entry_views(self.0@)
    }
}

impl GoodStorage {
    /// The four goods with random quantities that sum up to
    /// `available_quantity`.
    pub fn new_random(available_quantity: i64) -> (storage: Self)
        requires
            available_quantity >= 0,
        ensures
            four_goods(storage@),
            storage@ == opening_goods(
                storage@[0].0.quantity,
                storage@[1].0.quantity,
                storage@[2].0.quantity,
                storage@[3].0.quantity,
            ),
            storage@[0].0.quantity + storage@[1].0.quantity + storage@[2].0.quantity
                + storage@[3].0.quantity == available_quantity,
    {
        let goods = GoodsFactory::random_goods(available_quantity);
        assert(forall|i: int| 0 <= i < 4 ==> (#[trigger] entry_views(goods@)[i]).0 == goods[i].0@);
        proof {
            lemma_opening_goods_in_range(
                goods[0].0@.quantity,
                goods[1].0@.quantity,
                goods[2].0@.quantity,
                goods[3].0@.quantity,
            );
        }
        Self(goods)
    }

    /// The four goods with the given quantities.
    pub fn with_quantities(eur: i64, yen: i64, usd: i64, yuan: i64) -> (storage: Self)
        ensures
            storage@ == opening_goods(eur as int, yen as int, usd as int, yuan as int),
    {
        Self(GoodsFactory::all_with_quantities(eur, yen, usd, yuan))
    }

    /// What the market shows of a good with the given ledger entry.
    pub fn get_good_label_from_good(&self, good: &Good, meta: &GoodMetadata) -> (label: GoodLabel)
        ensures
            is_label_of(label, (good@, meta@)),
    {
        GoodLabel {
            good_kind: good.get_kind(),
            quantity: good.get_qty(),
            exchange_rate_buy: meta.base_buy_price,
            exchange_rate_sell: meta.base_sell_price,
        }
    }

    /// The number of goods.
    pub fn len(&self) -> (n: usize)
        ensures
            n == self@.len(),
    {
        self.0.len()
    }

    /// What the market shows of each good, in the order of the inventory.
    pub fn get_good_labels(&self) -> (labels: Vec<GoodLabel>)
        ensures
            labels.len() == self@.len(),
            forall|i: int| 0 <= i < labels.len() ==> is_label_of(#[trigger] labels[i], self@[i]),
    {
        let mut labels: Vec<GoodLabel> = Vec::new();
        let mut i: usize = 0;
        while i < self.0.len()
            invariant
                i <= self.0.len(),
                labels.len() == i,
                forall|j: int| 0 <= j < i ==> is_label_of(#[trigger] labels[j], self@[j]),
            decreases self.0.len() - i,
        {
            let label = self.get_good_label_from_good(&self.0[i].0, &self.0[i].1);
            labels.push(label);
            i += 1;
        }
        labels
    }

    /// The number of goods that a buyer has reserved.
    pub fn get_buy_locks_len(&self) -> (n: usize)
        ensures
            n == buy_locks(self@),
    {
        let mut n: usize = 0;
        let mut i: usize = 0;
        while i < self.0.len()
            invariant
                i <= self.0.len(),
                n <= i,
                n == buy_locks(self@.take(i as int)),
            decreases self.0.len() - i,
        {
            proof {
                assert(self@.take(i + 1).drop_last() =~= self@.take(i as int));
            }
            if self.0[i].1.is_locked_for_buy() {
                n += 1;
            }
            i += 1;
        }
        assert(self@.take(i as int) =~= self@);
        n
    }

    /// The number of goods that a seller has reserved.
    pub fn get_sell_locks_len(&self) -> (n: usize)
        ensures
            n == sell_locks(self@),
    {
        let mut n: usize = 0;
        let mut i: usize = 0;
        while i < self.0.len()
            invariant
                i <= self.0.len(),
                n <= i,
                n == sell_locks(self@.take(i as int)),
            decreases self.0.len() - i,
        {
            proof {
                assert(self@.take(i + 1).drop_last() =~= self@.take(i as int));
            }
            if self.0[i].1.is_locked_for_sell() {
                n += 1;
            }
            i += 1;
        }
        assert(self@.take(i as int) =~= self@);
        n
    }

    /// The first good of `kind` with its entry, to change it in place.
    pub fn get_mut_good_for_kind(&mut self, kind: &GoodKind) -> (found: Option<&mut GoodWithMeta>)
        ensures
            match found {
                Some(entry) => exists|i: int|
                    first_of_kind(old(self)@, *kind, i) && entry@ == old(self)@[i] && final(self)@
                        == old(self)@.update(i, final(entry)@),
                None => final(self)@ == old(self)@ && forall|i: int|
                    0 <= i < old(self)@.len() ==> (#[trigger] old(self)@[i]).0.kind != *kind,
            },
    {
        let mut i: usize = 0;
        while i < self.0.len()
            invariant
                i <= self.0.len(),
                *self == *old(self),
                forall|j: int| 0 <= j < i ==> (#[trigger] self@[j]).0.kind != *kind,
            decreases self.0.len() - i,
        {
            if self.0[i].0.get_kind() == *kind {
                let ghost before = self.0@;
                let entry = &mut self.0[i];
                proof {
                    assert(first_of_kind(old(self)@, *kind, i as int));
                    assert(entry_views(before.update(i as int, *final(entry))) =~= entry_views(
                        before,
                    ).update(i as int, final(entry)@));
                }
                return Some(entry);
            }
            i += 1;
        }
        None
    }

    /// The first good of `kind` with its entry.
    pub fn get_good_for_kind(&self, kind: &GoodKind) -> (found: Option<&GoodWithMeta>)
        ensures
            match found {
                Some(entry) => exists|i: int| first_of_kind(self@, *kind, i) && entry@ == self@[i],
                None => forall|i: int|
                    0 <= i < self@.len() ==> (#[trigger] self@[i]).0.kind != *kind,
            },
    {
        let mut i: usize = 0;
        while i < self.0.len()
            invariant
                i <= self.0.len(),
                forall|j: int| 0 <= j < i ==> (#[trigger] self@[j]).0.kind != *kind,
            decreases self.0.len() - i,
        {
            if self.0[i].0.get_kind() == *kind {
                assert(first_of_kind(self@, *kind, i as int));
                return Some(&self.0[i]);
            }
            i += 1;
        }
        None
    }

    /// The first good that a seller has reserved with `token`, to change it
    /// in place.
    pub fn get_mut_good_for_sell_token(&mut self, token: &String) -> (found: Option<
        &mut GoodWithMeta,
    >)
        ensures
            match found {
                Some(entry) => exists|i: int|
                    first_with_sell_token(old(self)@, token@, i) && entry@ == old(self)@[i]
                        && final(self)@ == old(self)@.update(i, final(entry)@),
                None => final(self)@ == old(self)@ && no_sell_token(old(self)@, token@),
            },
    {
        let mut i: usize = 0;
        while i < self.0.len()
            invariant
                i <= self.0.len(),
                *self == *old(self),
                forall|j: int| 0 <= j < i ==> !holds_sell_token((#[trigger] self@[j]).1, token@),
            decreases self.0.len() - i,
        {
            let matches = match &self.0[i].1.sell_status {
                GoodStatus::Available => false,
                GoodStatus::Locked(lock) => lock.transaction_token == *token,
            };
            if matches {
                let ghost before = self.0@;
                let entry = &mut self.0[i];
                proof {
                    assert(first_with_sell_token(old(self)@, token@, i as int));
                    assert(entry_views(before.update(i as int, *final(entry))) =~= entry_views(
                        before,
                    ).update(i as int, final(entry)@));
                }
                return Some(entry);
            }
            i += 1;
        }
        None
    }

    /// Whether `token` is an expired token of a seller, for any good.
    pub fn has_good_expired_sell_token(&self, token: &String) -> (expired: bool)
        ensures
            expired == expired_sell_token(self@, token@),
    {
        let mut i: usize = 0;
        while i < self.0.len()
            invariant
                i <= self.0.len(),
                forall|j: int| 0 <= j < i ==> !(#[trigger] self@[j]).1.expired_sell.contains(token@),
            decreases self.0.len() - i,
        {
            if self.0[i].1.has_expired_sell_token(token) {
                assert(self@[i as int].1.expired_sell.contains(token@));
                return true;
            }
            i += 1;
        }
        false
    }

    /// The first good that a buyer has reserved with `token`, to change it in
    /// place.
    pub fn get_mut_good_for_buy_token(&mut self, token: &String) -> (found: Option<
        &mut GoodWithMeta,
    >)
        ensures
            match found {
                Some(entry) => exists|i: int|
                    first_with_buy_token(old(self)@, token@, i) && entry@ == old(self)@[i]
                        && final(self)@ == old(self)@.update(i, final(entry)@),
                None => final(self)@ == old(self)@ && no_buy_token(old(self)@, token@),
            },
    {
        let mut i: usize = 0;
        while i < self.0.len()
            invariant
                i <= self.0.len(),
                *self == *old(self),
                forall|j: int| 0 <= j < i ==> !holds_buy_token((#[trigger] self@[j]).1, token@),
            decreases self.0.len() - i,
        {
            let matches = match &self.0[i].1.buy_status {
                GoodStatus::Available => false,
                GoodStatus::Locked(lock) => lock.transaction_token == *token,
            };
            if matches {
                let ghost before = self.0@;
                let entry = &mut self.0[i];
                proof {
                    assert(first_with_buy_token(old(self)@, token@, i as int));
                    assert(entry_views(before.update(i as int, *final(entry))) =~= entry_views(
                        before,
                    ).update(i as int, final(entry)@));
                }
                return Some(entry);
            }
            i += 1;
        }
        None
    }

    /// Whether `token` is an expired token of a buyer, for any good.
    pub fn has_good_expired_buy_token(&self, token: &String) -> (expired: bool)
        ensures
            expired == expired_buy_token(self@, token@),
    {
        let mut i: usize = 0;
        while i < self.0.len()
            invariant
                i <= self.0.len(),
                forall|j: int| 0 <= j < i ==> !(#[trigger] self@[j]).1.expired_buy.contains(token@),
            decreases self.0.len() - i,
        {
            if self.0[i].1.has_expired_buy_token(token) {
                assert(self@[i as int].1.expired_buy.contains(token@));
                return true;
            }
            i += 1;
        }
        false
    }

    /// The good at place `index` with its entry, to change it in place.
    pub fn get_mut_good_at(&mut self, index: usize) -> (entry: &mut GoodWithMeta)
        requires
            index < old(self)@.len(),
        ensures
            entry@ == old(self)@[index as int],
            final(self)@ == old(self)@.update(index as int, final(entry)@),
    {
        let ghost before = self.0@;
        let entry = &mut self.0[index];
        proof {
            assert(entry_views(before.update(index as int, *final(entry))) =~= entry_views(
                before,
            ).update(index as int, final(entry)@));
        }
        entry
    }

    /// The good of the settlement kind with its entry.
    pub fn get_default_good(&self) -> (entry: &GoodWithMeta)
        requires
            exists|i: int| 0 <= i < self@.len() && (#[trigger] self@[i]).0.kind == DEFAULT_GOOD_KIND,
        ensures
            exists|i: int| first_of_kind(self@, DEFAULT_GOOD_KIND, i) && entry@ == self@[i],
    {
        let mut i: usize = 0;
        while i < self.0.len()
            invariant
                i <= self.0.len(),
                forall|j: int| 0 <= j < i ==> (#[trigger] self@[j]).0.kind != DEFAULT_GOOD_KIND,
            decreases self.0.len() - i,
        {
            if self.0[i].0.get_kind() == DEFAULT_GOOD_KIND {
                assert(first_of_kind(self@, DEFAULT_GOOD_KIND, i as int));
                return &self.0[i];
            }
            i += 1;
        }
        proof {
            assert(false);
        }
        &self.0[0]
    }
}

} // verus!
