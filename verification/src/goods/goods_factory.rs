//! The stock a market opens with.

use rand::rngs::ThreadRng;
use rand::Rng;
use vstd::prelude::*;
use crate::goods::consts::{
    DEFAULT_EUR_USD_EXCHANGE_RATE,
    DEFAULT_EUR_YEN_EXCHANGE_RATE,
    DEFAULT_EUR_YUAN_EXCHANGE_RATE,
    MAX_AMOUNT,
    RATE_SCALE,
};
use crate::goods::good::{Good, GoodView};
use crate::goods::good_kind::GoodKind;
use crate::goods::good_metadata::{reciprocal_rate, GoodMetadata, MetaView};

verus! {

/// A parcel with its ledger entry.
pub type GoodWithMeta = (Good, GoodMetadata);

/// What a parcel with its ledger entry is.
pub type EntryView = (GoodView, MetaView);

/// Makes the goods that a market opens with.
pub struct GoodsFactory();

/// `rand::rngs::ThreadRng`: the generator that `rand::thread_rng` hands
/// out. Nothing is known of what is inside it.
#[verifier::external_type_specification]
#[verifier::external_body]
pub struct ExThreadRng(ThreadRng);

/// `rand::thread_rng`: the random number generator of the calling thread.
#[verifier::external_body]
fn thread_generator() -> ThreadRng {
    rand::thread_rng()
}

/// `rand::Rng::gen_range` on the range from zero up to, not including,
/// `bound`: some number of that range. An empty range makes it panic, so
/// `bound` must be positive.
#[verifier::external_body]
fn draw_below(rng: &mut ThreadRng, bound: u64) -> (drawn: u64)
    requires
        bound > 0,
    ensures
        drawn < bound,
{
    rng.gen_range(0..bound)
}

/// The sum of a list of quantities.
pub open spec fn total(quantities: Seq<i64>) -> int
    decreases quantities.len(),
{
    if quantities.len() == 0 {
        0
    } else {
        total(quantities.drop_last()) + quantities.last()
    }
}

/// What one more quantity does to a list of quantities: the sum grows by it,
/// and if it is zero only where the sum was `budget` already, the list still
/// has its zeros only where everything before them sums up to `budget`.
proof fn lemma_total_grows(quantities: Seq<i64>, quantity: i64, budget: int)
    requires
        quantity == 0 ==> total(quantities) == budget,
        forall|i: int|
            0 <= i < quantities.len() && quantities[i] == 0 ==> total(
                #[trigger] quantities.take(i),
            ) == budget,
    ensures
        total(quantities.push(quantity)) == total(quantities) + quantity,
        forall|i: int|
            0 <= i < quantities.len() + 1 && quantities.push(quantity)[i] == 0 ==> total(
                #[trigger] quantities.push(quantity).take(i),
            ) == budget,
{
    let longer = quantities.push(quantity);
    assert(longer.drop_last() =~= quantities);
    assert forall|i: int| 0 <= i < longer.len() && longer[i] == 0 implies total(
        #[trigger] longer.take(i),
    ) == budget by {
        assert(longer.take(i) =~= quantities.take(i));
        if i == quantities.len() {
            assert(quantities.take(i) =~= quantities);
        }
    }
}

/// The entry of a good on the day a market opens: `quantity` in stock, sold
/// at `rate` and paid for at its reciprocal, nothing reserved or expired.
pub open spec fn opening_entry(kind: GoodKind, quantity: int, rate: int) -> EntryView {
    (
        GoodView { kind, quantity },
        MetaView {
            sell_rate: reciprocal_rate(rate),
            buy_rate: rate,
            sell: None,
            buy: None,
            expired_sell: Seq::empty(),
            expired_buy: Seq::empty(),
        },
    )
}

/// The four goods on the day a market opens, in the order EUR, YEN, USD,
/// YUAN, each at its default rate.
pub open spec fn opening_goods(eur: int, yen: int, usd: int, yuan: int) -> Seq<EntryView> {
    seq![
        opening_entry(GoodKind::EUR, eur, RATE_SCALE as int),
        opening_entry(GoodKind::YEN, yen, DEFAULT_EUR_YEN_EXCHANGE_RATE as int),
        opening_entry(GoodKind::USD, usd, DEFAULT_EUR_USD_EXCHANGE_RATE as int),
        opening_entry(GoodKind::YUAN, yuan, DEFAULT_EUR_YUAN_EXCHANGE_RATE as int),
    ]
}

/// The views of a list of parcels with their entries.
pub open spec fn entry_views(goods: Seq<GoodWithMeta>) -> Seq<EntryView> {
    Seq::new(goods.len(), |i: int| goods[i]@)
}

impl GoodsFactory {
    /// Splits `available_quantity` at random into `num` quantities, none of
    /// them negative, that sum up to it exactly. A quantity is zero only
    /// where the ones before it have used up everything.
    pub fn random_quantities(num: u32, available_quantity: i64) -> (quantities: Vec<i64>)
        requires
            num >= 1,
            available_quantity >= 0,
        ensures
            quantities.len() == num,
            total(quantities@) == available_quantity,
            forall|i: int| 0 <= i < quantities.len() ==> quantities[i] >= 0,
            forall|i: int|
                0 <= i < quantities.len() && quantities[i] == 0 ==> total(
                    #[trigger] quantities@.take(i),
                ) == available_quantity,
    {
        let mut quantities: Vec<i64> = Vec::new();
        let mut steps: u32 = 0;
        let mut available: i64 = available_quantity;
        let mut rng = thread_generator();
        while steps < num - 1
            invariant
                num >= 1,
                steps <= num - 1,
                quantities.len() == steps,
                0 <= available <= available_quantity,
                total(quantities@) + available == available_quantity,
                forall|i: int| 0 <= i < quantities.len() ==> quantities[i] >= 0,
                forall|i: int|
                    0 <= i < quantities.len() && quantities[i] == 0 ==> total(
                        #[trigger] quantities@.take(i),
                    ) == available_quantity,
            decreases num - 1 - steps,
        {
            let quantity: i64 = if available > 0 {
                available - draw_below(&mut rng, available as u64) as i64
            } else {
                0
            };
            proof {
                lemma_total_grows(quantities@, quantity, available_quantity as int);
            }
            available = available - quantity;
            quantities.push(quantity);
            steps = steps + 1;
        }
        proof {
            lemma_total_grows(quantities@, available, available_quantity as int);
        }
        quantities.push(available);
        quantities
    }

    /// The four goods with random quantities that sum up to
    /// `available_quantity`.
    pub fn random_goods(available_quantity: i64) -> (goods: Vec<GoodWithMeta>)
        requires
            available_quantity >= 0,
        ensures
            goods.len() == 4,
            entry_views(goods@) == opening_goods(
                goods[0].0@.quantity,
                goods[1].0@.quantity,
                goods[2].0@.quantity,
                goods[3].0@.quantity,
            ),
            forall|i: int| 0 <= i < 4 ==> 0 <= (#[trigger] goods[i]).0@.quantity <= MAX_AMOUNT,
            goods[0].0@.quantity + goods[1].0@.quantity + goods[2].0@.quantity
                + goods[3].0@.quantity == available_quantity,
    {
        let random_quantities = GoodsFactory::random_quantities(4, available_quantity);
        proof {
            let q = random_quantities@;
            let q3 = q.drop_last();
            let q2 = q3.drop_last();
            let q1 = q2.drop_last();
            assert(total(q) == total(q3) + q[3]);
            assert(total(q3) == total(q2) + q[2]);
            assert(total(q2) == total(q1) + q[1]);
            assert(total(q1) == total(q1.drop_last()) + q[0]);
            assert(total(q1.drop_last()) == 0);
        }
        GoodsFactory::all_with_quantities(
            random_quantities[0],
            random_quantities[1],
            random_quantities[2],
            random_quantities[3],
        )
    }

    /// The four goods with the given quantities, in the order EUR, YEN, USD,
    /// YUAN, each at its default rate.
    pub fn all_with_quantities(eur: i64, yen: i64, usd: i64, yuan: i64) -> (goods: Vec<
        (Good, GoodMetadata),
    >)
        ensures
            goods.len() == 4,
            entry_views(goods@) == opening_goods(eur as int, yen as int, usd as int, yuan as int),
    {
        let mut goods: Vec<(Good, GoodMetadata)> = Vec::new();
        goods.push((Good::new(GoodKind::EUR, eur), GoodMetadata::new(RATE_SCALE)));
        goods.push((Good::new(GoodKind::YEN, yen), GoodMetadata::new(DEFAULT_EUR_YEN_EXCHANGE_RATE)));
        goods.push((Good::new(GoodKind::USD, usd), GoodMetadata::new(DEFAULT_EUR_USD_EXCHANGE_RATE)));
        goods.push(
            (Good::new(GoodKind::YUAN, yuan), GoodMetadata::new(DEFAULT_EUR_YUAN_EXCHANGE_RATE)),
        );
        assert(entry_views(goods@) =~= opening_goods(
            eur as int,
            yen as int,
            usd as int,
            yuan as int,
        ));
        goods
    }
}

} // verus!
