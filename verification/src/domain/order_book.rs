use vstd::prelude::*;
use crate::domain::price::Price;
use crate::domain::candle::Quotation;
use crate::parse::{parse_i64, parse_u64, parsed_i64, parsed_u64};
use crate::time::Timestamp;

verus! {

/// How many levels each side of the book keeps.
pub const MAX_DEPTH: usize = 10;

/// One price level of the book.
#[derive(Debug, Clone)]
pub struct Level {
    pub price: Price,
    pub volume: u64,
}

/// An order book: bids best (highest) first, asks best (lowest) first.
#[derive(Debug, Clone)]
pub struct OrderBook {
    pub figi: String,
    pub bids: Vec<Level>,
    pub asks: Vec<Level>,
    pub timestamp: Timestamp,
}

/// The fields of a T-Invest order book level object as plain values: each is `None` where
/// the object lacks it or holds a value of another JSON type.
#[derive(Debug, Clone)]
pub struct LevelJson {
    pub price_units: Option<String>,
    pub price_nano: Option<i64>,
    pub quantity: Option<String>,
}

/// The values read from a level object, the price still as a quotation.
#[derive(Debug, Clone, Copy, PartialEq, Eq, Structural)]
pub struct LevelQuote {
    pub price: Quotation,
    pub volume: u64,
}

/// What a level object reads as: price units and quantity are parsed from their texts,
/// and each part that is absent or does not parse reads as zero.
pub open spec fn level_quote(j: LevelJson) -> LevelQuote {
    LevelQuote {
        price: Quotation {
            units: match j.price_units {
                Some(s) => parsed_i64(s@).unwrap_or(0),
                None => 0,
            },
            nano: j.price_nano.unwrap_or(0),
        },
        volume: match j.quantity {
            Some(s) => parsed_u64(s@).unwrap_or(0),
            None => 0,
        },
    }
}

/// Reads the values of a T-Invest order book level object; see `level_quote`.
pub fn read_level(json: &LevelJson) -> (q: LevelQuote)
    ensures
        q == level_quote(*json),
{
    let units = match &json.price_units {
        Some(s) => match parse_i64(s.as_str()) {
            Some(u) => u,
            None => 0,
        },
        None => 0,
    };
    let nano = match json.price_nano {
        Some(n) => n,
        None => 0,
    };
    let volume = match &json.quantity {
        Some(s) => match parse_u64(s.as_str()) {
            Some(v) => v,
            None => 0,
        },
        None => 0,
    };
    LevelQuote { price: Quotation { units, nano }, volume }
}

/// Law: a level reads its nanos as given (absent ones as zero), and its units and quantity
/// as their texts parse, zero where absent or unreadable.
pub proof fn lemma_level_carries_its_fields(j: LevelJson)
    ensures
        j.price_nano is Some ==> level_quote(j).price.nano == j.price_nano->0,
        j.price_nano is None ==> level_quote(j).price.nano == 0,
        j.price_units is None ==> level_quote(j).price.units == 0,
        j.price_units is Some && parsed_i64(j.price_units->0@) is Some ==> level_quote(j).price.units
            == parsed_i64(j.price_units->0@)->0,
        j.price_units is Some && parsed_i64(j.price_units->0@) is None ==> level_quote(j).price.units == 0,
        j.quantity is None ==> level_quote(j).volume == 0,
        j.quantity is Some && parsed_u64(j.quantity->0@) is Some ==> level_quote(j).volume == parsed_u64(
            j.quantity->0@,
        )->0,
        j.quantity is Some && parsed_u64(j.quantity->0@) is None ==> level_quote(j).volume == 0,
{
}

/// Index of the first level priced strictly below `price`, or the length if there is none.
pub open spec fn first_below(levels: Seq<Level>, price: int) -> int
    decreases levels.len(),
{
    if levels.len() == 0 {
        0
    } else if levels[0].price@ < price {
        0
    } else {
        1 + first_below(levels.drop_first(), price)
    }
}

/// Index of the first level priced strictly above `price`, or the length if there is none.
pub open spec fn first_above(levels: Seq<Level>, price: int) -> int
    decreases levels.len(),
{
    if levels.len() == 0 {
        0
    } else if levels[0].price@ > price {
        0
    } else {
        1 + first_above(levels.drop_first(), price)
    }
}

/// The first `MAX_DEPTH` levels (all of them where there are fewer).
pub open spec fn keep_depth(levels: Seq<Level>) -> Seq<Level> {
    if levels.len() > MAX_DEPTH {
        levels.take(MAX_DEPTH as int)
    } else {
        levels
    }
}

/// The bid side after an update: a level with a positive volume is inserted before the
/// first bid priced below it; then the side is cut to `MAX_DEPTH` levels.
pub open spec fn bids_after_update(bids: Seq<Level>, price: Price, volume: u64) -> Seq<Level> {
    keep_depth(
        if volume > 0 {
            bids.insert(first_below(bids, price@), Level { price, volume })
        } else {
            bids
        },
    )
}

/// The ask side after an update: a level with a positive volume is inserted before the
/// first ask priced above it; then the side is cut to `MAX_DEPTH` levels.
pub open spec fn asks_after_update(asks: Seq<Level>, price: Price, volume: u64) -> Seq<Level> {
    keep_depth(
        if volume > 0 {
            asks.insert(first_above(asks, price@), Level { price, volume })
        } else {
            asks
        },
    )
}

/// Prices never rise from one level to the next.
pub open spec fn descending(levels: Seq<Level>) -> bool {
    forall|i: int, j: int| 0 <= i < j < levels.len() ==> levels[i].price@ >= levels[j].price@
}

/// Prices never fall from one level to the next.
pub open spec fn ascending(levels: Seq<Level>) -> bool {
    forall|i: int, j: int| 0 <= i < j < levels.len() ==> levels[i].price@ <= levels[j].price@
}

/// Every level holds a positive volume.
pub open spec fn positive_volumes(levels: Seq<Level>) -> bool {
    forall|i: int| 0 <= i < levels.len() ==> levels[i].volume > 0
}

/// The sum of the volumes of the levels.
pub open spec fn total_volume(levels: Seq<Level>) -> int
    decreases levels.len(),
{
    if levels.len() == 0 {
        0
    } else {
        total_volume(levels.drop_last()) + levels.last().volume
    }
}

/// Law: a new bid goes after every level priced at or above it and before the first level
/// priced below it.
pub proof fn lemma_first_below_bounds(levels: Seq<Level>, price: int)
    ensures
        0 <= first_below(levels, price) <= levels.len(),
        forall|j: int| 0 <= j < first_below(levels, price) ==> levels[j].price@ >= price,
        first_below(levels, price) < levels.len() ==> levels[first_below(levels, price)].price@ < price,
    decreases levels.len(),
{
    if levels.len() > 0 && levels[0].price@ >= price {
        lemma_first_below_bounds(levels.drop_first(), price);
        assert forall|j: int| 0 <= j < first_below(levels, price) implies levels[j].price@ >= price by {
            if j > 0 {
                assert(levels[j] == levels.drop_first()[j - 1]);
            }
        }
    }
}

/// Law: a new ask goes after every level priced at or below it and before the first level
/// priced above it.
pub proof fn lemma_first_above_bounds(levels: Seq<Level>, price: int)
    ensures
        0 <= first_above(levels, price) <= levels.len(),
        forall|j: int| 0 <= j < first_above(levels, price) ==> levels[j].price@ <= price,
        first_above(levels, price) < levels.len() ==> levels[first_above(levels, price)].price@ > price,
    decreases levels.len(),
{
    if levels.len() > 0 && levels[0].price@ <= price {
        lemma_first_above_bounds(levels.drop_first(), price);
        assert forall|j: int| 0 <= j < first_above(levels, price) implies levels[j].price@ <= price by {
            if j > 0 {
                assert(levels[j] == levels.drop_first()[j - 1]);
            }
        }
    }
}

proof fn lemma_first_below_unique(levels: Seq<Level>, price: int, pos: int)
    requires
        0 <= pos <= levels.len(),
        forall|j: int| 0 <= j < pos ==> levels[j].price@ >= price,
        pos < levels.len() ==> levels[pos].price@ < price,
    ensures
        first_below(levels, price) == pos,
{
    lemma_first_below_bounds(levels, price);
    let f = first_below(levels, price);
    if f < pos {
        assert(levels[f].price@ >= price);
    } else if pos < f {
        assert(levels[pos].price@ >= price);
    }
}

proof fn lemma_first_above_unique(levels: Seq<Level>, price: int, pos: int)
    requires
        0 <= pos <= levels.len(),
        forall|j: int| 0 <= j < pos ==> levels[j].price@ <= price,
        pos < levels.len() ==> levels[pos].price@ > price,
    ensures
        first_above(levels, price) == pos,
{
    lemma_first_above_bounds(levels, price);
    let f = first_above(levels, price);
    if f < pos {
        assert(levels[f].price@ <= price);
    } else if pos < f {
        assert(levels[pos].price@ <= price);
    }
}

/// Sum of the volumes of `levels`, or `None` where it exceeds `u64::MAX`.
pub fn checked_volume_sum(levels: &Vec<Level>) -> (total: Option<u64>)
    ensures
        match total {
            Some(t) => t == total_volume(levels@),
            None => total_volume(levels@) > u64::MAX,
        },
{
    let mut sum: u64 = 0;
    let mut i: usize = 0;
    while i < levels.len()
        invariant
            i <= levels@.len(),
            sum == total_volume(levels@.take(i as int)),
        decreases levels@.len() - i,
    {
        assert(levels@.take(i + 1).drop_last() =~= levels@.take(i as int));
        let v = levels[i].volume;
        if v > u64::MAX - sum {
            proof {
                lemma_total_volume_prefix_grows(levels@, (i + 1) as int);
            }
            return None;
        }
        sum = sum + v;
        i = i + 1;
    }
    assert(levels@.take(i as int) =~= levels@);
    Some(sum)
}

proof fn lemma_total_volume_prefix_grows(levels: Seq<Level>, n: int)
    requires
        0 <= n <= levels.len(),
    ensures
        total_volume(levels.take(n)) <= total_volume(levels),
    decreases levels.len() - n,
{
    if n < levels.len() {
        lemma_total_volume_prefix_grows(levels, n + 1);
        assert(levels.take(n + 1).drop_last() =~= levels.take(n));
    } else {
        assert(levels.take(n) =~= levels);
    }
}

/// Law: the volume sum counts every level once: appending a level adds its volume, a single
/// level sums to its own volume, and no levels sum to zero.
pub proof fn lemma_total_volume_counts_each_level(levels: Seq<Level>, l: Level)
    ensures
        total_volume(levels.push(l)) == total_volume(levels) + l.volume,
        total_volume(seq![l]) == l.volume,
        total_volume(Seq::<Level>::empty()) == 0,
{
    assert(levels.push(l).drop_last() =~= levels);
    assert(seq![l].drop_last() =~= Seq::<Level>::empty());
    assert(total_volume(Seq::<Level>::empty()) == 0);
    assert(seq![l].last() == l);
}

/// Law: the volume sum of two runs of levels one after the other is the sum of their sums.
pub proof fn lemma_total_volume_additive(a: Seq<Level>, b: Seq<Level>)
    ensures
        total_volume(a + b) == total_volume(a) + total_volume(b),
    decreases b.len(),
{
    if b.len() == 0 {
        assert(a + b =~= a);
    } else {
        lemma_total_volume_additive(a, b.drop_last());
        assert((a + b).drop_last() =~= a + b.drop_last());
    }
}

/// Law: every level's volume is part of the sum, so the sum is at least each volume.
pub proof fn lemma_total_volume_bounds_each_level(levels: Seq<Level>, i: int)
    requires
        0 <= i < levels.len(),
    ensures
        levels[i].volume <= total_volume(levels),
    decreases levels.len(),
{
    if i < levels.len() - 1 {
        lemma_total_volume_bounds_each_level(levels.drop_last(), i);
    } else {
        lemma_total_volume_nonnegative(levels.drop_last());
    }
}

/// The volume sum is never negative.
proof fn lemma_total_volume_nonnegative(levels: Seq<Level>)
    ensures
        total_volume(levels) >= 0,
    decreases levels.len(),
{
    if levels.len() > 0 {
        lemma_total_volume_nonnegative(levels.drop_last());
    }
}

/// Law: an update keeps the bid side sorted best (highest price) first.
pub proof fn lemma_update_bid_keeps_descending(bids: Seq<Level>, price: Price, volume: u64)
    requires
        descending(bids),
    ensures
        descending(bids_after_update(bids, price, volume)),
{
    lemma_first_below_bounds(bids, price@);
    let pos = first_below(bids, price@);
    let inserted = if volume > 0 { bids.insert(pos, Level { price, volume }) } else { bids };
    assert forall|i: int, j: int| 0 <= i < j < inserted.len() implies
        inserted[i].price@ >= inserted[j].price@ by {
        if volume > 0 {
            if j < pos {
            } else if j == pos {
            } else if i < pos {
                assert(inserted[j] == bids[j - 1]);
            } else if i == pos {
                assert(inserted[j] == bids[j - 1]);
                assert(bids[pos].price@ < price@);
                assert(bids[pos].price@ >= bids[j - 1].price@);
            } else {
                assert(inserted[i] == bids[i - 1]);
                assert(inserted[j] == bids[j - 1]);
            }
        }
    }
    lemma_keep_depth_prefix(inserted);
}

/// Law: an update keeps the ask side sorted best (lowest price) first.
pub proof fn lemma_update_ask_keeps_ascending(asks: Seq<Level>, price: Price, volume: u64)
    requires
        ascending(asks),
    ensures
        ascending(asks_after_update(asks, price, volume)),
{
    lemma_first_above_bounds(asks, price@);
    let pos = first_above(asks, price@);
    let inserted = if volume > 0 { asks.insert(pos, Level { price, volume }) } else { asks };
    assert forall|i: int, j: int| 0 <= i < j < inserted.len() implies
        inserted[i].price@ <= inserted[j].price@ by {
        if volume > 0 {
            if j < pos {
            } else if j == pos {
            } else if i < pos {
                assert(inserted[j] == asks[j - 1]);
            } else if i == pos {
                assert(inserted[j] == asks[j - 1]);
                assert(asks[pos].price@ > price@);
                assert(asks[pos].price@ <= asks[j - 1].price@);
            } else {
                assert(inserted[i] == asks[i - 1]);
                assert(inserted[j] == asks[j - 1]);
            }
        }
    }
    lemma_keep_depth_prefix(inserted);
}

/// Law: cutting to depth keeps the first levels in order, as many as there are up to
/// `MAX_DEPTH`.
pub proof fn lemma_keep_depth_prefix(levels: Seq<Level>)
    ensures
        keep_depth(levels).len() == if levels.len() < MAX_DEPTH { levels.len() } else { MAX_DEPTH as nat },
        keep_depth(levels).len() <= MAX_DEPTH,
        keep_depth(levels).len() <= levels.len(),
        forall|i: int| 0 <= i < keep_depth(levels).len() ==> #[trigger] keep_depth(levels)[i] == levels[i],
{
}

/// Law: after any update each side holds at most `MAX_DEPTH` levels.
pub proof fn lemma_update_respects_depth(levels: Seq<Level>, price: Price, volume: u64)
    ensures
        bids_after_update(levels, price, volume).len() <= MAX_DEPTH,
        asks_after_update(levels, price, volume).len() <= MAX_DEPTH,
{
    lemma_keep_depth_prefix(if volume > 0 { levels.insert(first_below(levels, price@), Level { price, volume }) } else { levels });
    lemma_keep_depth_prefix(if volume > 0 { levels.insert(first_above(levels, price@), Level { price, volume }) } else { levels });
}

/// Law: a side whose levels all hold positive volumes keeps that property under updates.
pub proof fn lemma_update_keeps_positive_volumes(levels: Seq<Level>, price: Price, volume: u64)
    requires
        positive_volumes(levels),
    ensures
        positive_volumes(bids_after_update(levels, price, volume)),
        positive_volumes(asks_after_update(levels, price, volume)),
{
    lemma_first_below_bounds(levels, price@);
    lemma_first_above_bounds(levels, price@);
    let below = if volume > 0 { levels.insert(first_below(levels, price@), Level { price, volume }) } else { levels };
    let above = if volume > 0 { levels.insert(first_above(levels, price@), Level { price, volume }) } else { levels };
    assert(positive_volumes(below));
    assert(positive_volumes(above));
    lemma_keep_depth_prefix(below);
    lemma_keep_depth_prefix(above);
}

/// Law: an update with zero volume inserts nothing and removes nothing; the side only
/// keeps its first `MAX_DEPTH` levels.
pub proof fn lemma_zero_volume_changes_nothing(levels: Seq<Level>, price: Price)
    ensures
        bids_after_update(levels, price, 0) == keep_depth(levels),
        asks_after_update(levels, price, 0) == keep_depth(levels),
{
}

/// Law: a bid with a positive volume that ranks within the depth stands at its rank, and
/// the levels before it are unchanged.
pub proof fn lemma_update_bid_places_level(bids: Seq<Level>, price: Price, volume: u64)
    requires
        volume > 0,
        first_below(bids, price@) < MAX_DEPTH,
    ensures
        bids_after_update(bids, price, volume)[first_below(bids, price@)] == (Level { price, volume }),
        forall|i: int| 0 <= i < first_below(bids, price@) ==>
            #[trigger] bids_after_update(bids, price, volume)[i] == bids[i],
{
    lemma_first_below_bounds(bids, price@);
    lemma_keep_depth_prefix(bids.insert(first_below(bids, price@), Level { price, volume }));
}

/// Law: an ask with a positive volume that ranks within the depth stands at its rank, and
/// the levels before it are unchanged.
pub proof fn lemma_update_ask_places_level(asks: Seq<Level>, price: Price, volume: u64)
    requires
        volume > 0,
        first_above(asks, price@) < MAX_DEPTH,
    ensures
        asks_after_update(asks, price, volume)[first_above(asks, price@)] == (Level { price, volume }),
        forall|i: int| 0 <= i < first_above(asks, price@) ==>
            #[trigger] asks_after_update(asks, price, volume)[i] == asks[i],
{
    lemma_first_above_bounds(asks, price@);
    lemma_keep_depth_prefix(asks.insert(first_above(asks, price@), Level { price, volume }));
}

impl OrderBook {
    /// An empty book for the instrument, stamped with `timestamp` (the time it is taken).
    pub fn new(figi: String, timestamp: Timestamp) -> (book: OrderBook)
        ensures
            book.figi@ == figi@,
            book.bids@.len() == 0,
            book.asks@.len() == 0,
            book.timestamp == timestamp,
    {
        OrderBook {
            figi,
            bids: Vec::with_capacity(MAX_DEPTH),
            asks: Vec::with_capacity(MAX_DEPTH),
            timestamp,
        }
    }

    /// Records a bid level: a positive volume is inserted before the first bid priced
    /// below `price`; the side then keeps its best `MAX_DEPTH` levels.
    pub fn update_bid(&mut self, price: Price, volume: u64)
        ensures
            final(self).bids@ == bids_after_update(old(self).bids@, price, volume),
            final(self).asks@ == old(self).asks@,
            final(self).figi@ == old(self).figi@,
            final(self).timestamp == old(self).timestamp,
    {
        let n = self.bids.len();
        let mut pos: usize = 0;
        while pos < n && !(self.bids[pos].price.raw() < price.raw())
            invariant
                n == self.bids@.len(),
                self.bids@ == old(self).bids@,
                pos <= n,
                forall|j: int| 0 <= j < pos ==> self.bids@[j].price@ >= price@,
            decreases n - pos,
        {
            pos = pos + 1;
        }
        proof {
            lemma_first_below_unique(self.bids@, price@, pos as int);
        }
        if pos < self.bids.len() && self.bids[pos].price == price {
            if volume == 0 {
                self.bids.remove(pos);
            } else {
                self.bids.set(pos, Level { price, volume });
            }
        } else if volume > 0 {
            self.bids.insert(pos, Level { price, volume });
        }
        self.bids.truncate(MAX_DEPTH);
    }

    /// Records an ask level: a positive volume is inserted before the first ask priced
    /// above `price`; the side then keeps its best `MAX_DEPTH` levels.
    pub fn update_ask(&mut self, price: Price, volume: u64)
        ensures
            final(self).asks@ == asks_after_update(old(self).asks@, price, volume),
            final(self).bids@ == old(self).bids@,
            final(self).figi@ == old(self).figi@,
            final(self).timestamp == old(self).timestamp,
    {
        let n = self.asks.len();
        let mut pos: usize = 0;
        while pos < n && !(self.asks[pos].price.raw() > price.raw())
            invariant
                n == self.asks@.len(),
                self.asks@ == old(self).asks@,
                pos <= n,
                forall|j: int| 0 <= j < pos ==> self.asks@[j].price@ <= price@,
            decreases n - pos,
        {
            pos = pos + 1;
        }
        proof {
            lemma_first_above_unique(self.asks@, price@, pos as int);
        }
        if pos < self.asks.len() && self.asks[pos].price == price {
            if volume == 0 {
                self.asks.remove(pos);
            } else {
                self.asks.set(pos, Level { price, volume });
            }
        } else if volume > 0 {
            self.asks.insert(pos, Level { price, volume });
        }
        self.asks.truncate(MAX_DEPTH);
    }
}

} // verus!
