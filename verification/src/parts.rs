//! Dense part numbering across a table's input files.
//!
//! Input file `i` of a table produces some number of parts; the table's
//! single counter hands the parts of file `i` the consecutive numbers
//! starting at the sum of the earlier files' counts.  The lemmas here
//! state that this numbering is exactly the range `0 .. total`: every
//! assigned number is below the total, no two (file, slot) pairs share a
//! number, and every number below the total is assigned.  Nothing in the
//! statements depends on which file got which position, so the
//! properties hold under any enumeration order of the input files.

use vstd::prelude::*;

verus! {

/// The number of parts produced by the first `i` files: the value of the
/// table's part counter when file `i` starts flattening.
pub open spec fn parts_before(counts: Seq<nat>, i: int) -> nat
    decreases i,
{
    if i <= 0 {
        0
    } else {
        parts_before(counts, i - 1) + counts[i - 1]
    }
}

/// The total number of parts of the table.
pub open spec fn total_parts(counts: Seq<nat>) -> nat {
    parts_before(counts, counts.len() as int)
}

/// The part number handed to slot `k` of file `i`.
pub open spec fn part_number(counts: Seq<nat>, i: int, k: int) -> int {
    parts_before(counts, i) + k
}

/// The counter never moves backwards.
pub proof fn lemma_parts_before_mono(counts: Seq<nat>, i: int, j: int)
    requires
        i <= j,
    ensures
        parts_before(counts, i) <= parts_before(counts, j),
    decreases j - i,
{
    if i < j {
        lemma_parts_before_mono(counts, i, j - 1);
    }
}

/// Every assigned part number is below the table's total.
pub proof fn lemma_part_number_in_range(counts: Seq<nat>, i: int, k: int)
    requires
        0 <= i < counts.len(),
        0 <= k < counts[i],
    ensures
        0 <= part_number(counts, i, k) < total_parts(counts),
{
    assert(parts_before(counts, i + 1) == parts_before(counts, i) + counts[i]);
    lemma_parts_before_mono(counts, i + 1, counts.len() as int);
}

/// No two (file, slot) pairs share a part number: no collision is
/// possible, whatever each file produced.
pub proof fn lemma_part_numbers_distinct(counts: Seq<nat>, i1: int, k1: int, i2: int, k2: int)
    requires
        0 <= i1 < counts.len(),
        0 <= k1 < counts[i1],
        0 <= i2 < counts.len(),
        0 <= k2 < counts[i2],
        i1 != i2 || k1 != k2,
    ensures
        part_number(counts, i1, k1) != part_number(counts, i2, k2),
{
    if i1 < i2 {
        assert(parts_before(counts, i1 + 1) == parts_before(counts, i1) + counts[i1]);
        lemma_parts_before_mono(counts, i1 + 1, i2);
    } else if i2 < i1 {
        assert(parts_before(counts, i2 + 1) == parts_before(counts, i2) + counts[i2]);
        lemma_parts_before_mono(counts, i2 + 1, i1);
    }
}

proof fn lemma_part_number_covered_upto(counts: Seq<nat>, j: int, n: int)
    requires
        0 <= j <= counts.len(),
        0 <= n < parts_before(counts, j),
    ensures
        exists|i: int, k: int|
            0 <= i < j && 0 <= k < counts[i] && part_number(counts, i, k) == n,
    decreases j,
{
    if n >= parts_before(counts, j - 1) {
        let k = n - parts_before(counts, j - 1);
        assert(0 <= j - 1 < j && 0 <= k < counts[j - 1] && part_number(counts, j - 1, k) == n);
    } else {
        lemma_part_number_covered_upto(counts, j - 1, n);
        let (i0, k0) = choose|i: int, k: int|
            0 <= i < j - 1 && 0 <= k < counts[i] && part_number(counts, i, k) == n;
        assert(0 <= i0 < j && 0 <= k0 < counts[i0] && part_number(counts, i0, k0) == n);
    }
}

/// The numbering has no gaps: every number below the total is assigned
/// to some (file, slot) pair.  Together with the two lemmas above, the
/// assigned numbers are exactly `0 .. total`, densely and uniquely.
pub proof fn lemma_part_numbers_dense(counts: Seq<nat>, n: int)
    requires
        0 <= n < total_parts(counts),
    ensures
        exists|i: int, k: int|
            0 <= i < counts.len() && 0 <= k < counts[i] && part_number(counts, i, k) == n,
{
    lemma_part_number_covered_upto(counts, counts.len() as int, n);
}

} // verus!
