//! Planning of the S&P 500 data fetches: which constituents of a list
//! response are kept, and how the per-stock fetches are batched.
use vstd::prelude::*;

verus! {

/// Number of stocks fetched concurrently before pausing for rate limits.
pub const BATCH_SIZE: usize = 5;

/// The `i`-th batch of `count` symbols: the half-open index range
/// `[5 * i, min(5 * i + 5, count))`.
pub open spec fn batch_range(i: int, count: int) -> (int, int) {
    let start = 5 * i;
    let end = if start + 5 <= count {
        start + 5
    } else {
        count
    };
    (start, end)
}

/// Number of batches for `count` symbols.
pub open spec fn batch_count(count: int) -> int {
    (count + 4) / 5
}

/// Splits `count` symbols into consecutive batches of five, the last of which
/// may be shorter, as index ranges in order.
pub fn symbol_batches(count: usize) -> (batches: Vec<(usize, usize)>)
    ensures
        batches@.len() == batch_count(count as int),
        forall|i: int|
            0 <= i < batches@.len() ==> (#[trigger] batches@[i]).0 == batch_range(i, count as int).0
                && batches@[i].1 == batch_range(i, count as int).1,
{
    let mut batches: Vec<(usize, usize)> = Vec::new();
    let mut start: usize = 0;
    while start < count
        invariant
            start <= count,
            start == (if 5 * batches@.len() <= count {
                5 * batches@.len() as int
            } else {
                count as int
            }),
            5 * batches@.len() < count + 5,
            start < count ==> batches@.len() < batch_count(count as int),
            start >= count ==> batches@.len() == batch_count(count as int),
            forall|i: int|
                0 <= i < batches@.len() ==> (#[trigger] batches@[i]).0 == batch_range(
                    i,
                    count as int,
                ).0 && batches@[i].1 == batch_range(i, count as int).1,
        decreases count - start,
    {
        let end = if count - start >= BATCH_SIZE {
            start + BATCH_SIZE
        } else {
            count
        };
        batches.push((start, end));
        start = end;
    }
    batches
}

/// The batches partition the symbols: every symbol lies in exactly one
/// batch, the one numbered by its position divided by five, and no batch is
/// empty or longer than five.
pub proof fn law_batches_partition(count: int, j: int)
    requires
        0 <= j < count,
    ensures
        0 <= j / 5 < batch_count(count),
        batch_range(j / 5, count).0 <= j < batch_range(j / 5, count).1,
        forall|i: int|
            0 <= i < batch_count(count) && i != j / 5 ==> !(#[trigger] batch_range(i, count).0
                <= j < batch_range(i, count).1),
        forall|i: int|
            0 <= i < batch_count(count) ==> 0 < #[trigger] batch_range(i, count).1 - batch_range(
                i,
                count,
            ).0 <= 5,
{
}

/// The positions, in order, of the entries whose symbol is not empty.
pub open spec fn listed_positions_of(symbols: Seq<Seq<char>>) -> Seq<usize>
    decreases symbols.len(),
{
    if symbols.len() == 0 {
        seq![]
    } else {
        let rest = listed_positions_of(symbols.drop_last());
        if symbols.last().len() > 0 {
            rest.push((symbols.len() - 1) as usize)
        } else {
            rest
        }
    }
}

pub open spec fn views_of(symbols: Seq<String>) -> Seq<Seq<char>> {
    symbols.map_values(|s: String| s@)
}

/// Of the symbols of an S&P 500 list response (`""` where the entry has
/// none), the positions of the entries that are kept: those with a symbol.
pub fn listed_positions(symbols: &Vec<String>) -> (positions: Vec<usize>)
    ensures
        positions@ == listed_positions_of(views_of(symbols@)),
{
    let mut positions: Vec<usize> = Vec::new();
    let mut i: usize = 0;
    while i < symbols.len()
        invariant
            0 <= i <= symbols.len(),
            positions@ == listed_positions_of(views_of(symbols@.take(i as int))),
        decreases symbols.len() - i,
    {
        assert(views_of(symbols@.take(i + 1)).drop_last() =~= views_of(symbols@.take(i as int)));
        if !symbols[i].as_str().is_empty() {
            positions.push(i);
        }
        i = i + 1;
    }
    assert(symbols@.take(symbols.len() as int) =~= symbols@);
    positions
}

/// A constituent is dropped from the list only when its symbol is empty: a
/// position is kept exactly when its symbol has at least one character (a
/// one-letter ticker such as `V` is kept), and every kept position is a
/// position of the list.
pub proof fn law_kept_iff_symbol_nonempty(symbols: Seq<Seq<char>>)
    requires
        symbols.len() <= usize::MAX,
    ensures
        forall|i: int|
            0 <= i < symbols.len() ==> (listed_positions_of(symbols).contains(i as usize)
                <==> symbols[i].len() > 0),
        forall|k: int|
            0 <= k < listed_positions_of(symbols).len() ==> listed_positions_of(symbols)[k]
                < symbols.len(),
    decreases symbols.len(),
{
    if symbols.len() > 0 {
        let init = symbols.drop_last();
        law_kept_iff_symbol_nonempty(init);
        let rest = listed_positions_of(init);
        let last = (symbols.len() - 1) as usize;
        assert forall|i: int| 0 <= i < symbols.len() implies (listed_positions_of(
            symbols,
        ).contains(i as usize) <==> symbols[i].len() > 0) by {
            if i < symbols.len() - 1 {
                assert(symbols[i] == init[i]);
                assert((i as usize) != last);
                if symbols.last().len() > 0 {
                    assert(rest.push(last).contains(i as usize) ==> rest.contains(i as usize)) by {
                        if rest.push(last).contains(i as usize) {
                            let k = choose|k: int|
                                0 <= k < rest.push(last).len() && rest.push(last)[k] == i as usize;
                            if k < rest.len() {
                                assert(rest[k] == i as usize);
                            }
                        }
                    }
                    assert(rest.contains(i as usize) ==> rest.push(last).contains(i as usize)) by {
                        if rest.contains(i as usize) {
                            let k = choose|k: int| 0 <= k < rest.len() && rest[k] == i as usize;
                            assert(rest.push(last)[k] == i as usize);
                        }
                    }
                }
            } else {
                if symbols.last().len() > 0 {
                    assert(rest.push(last)[rest.len() as int] == last);
                } else {
                    assert(!rest.contains(last)) by {
                        if rest.contains(last) {
                            let k = choose|k: int| 0 <= k < rest.len() && rest[k] == last;
                            assert(rest[k] < init.len());
                        }
                    }
                }
            }
        }
    }
}

} // verus!
