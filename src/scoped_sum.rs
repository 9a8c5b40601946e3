//! Summing a sequence of integers as two independent halves.
use vstd::prelude::*;

verus! {

/// The mathematical sum of a sequence of `i32`.
pub open spec fn seq_sum(s: Seq<i32>) -> int
    decreases s.len(),
{
    if s.len() == 0 {
        0
    } else {
        seq_sum(s.drop_last()) + s.last()
    }
}

/// The sum of a concatenation is the sum of the sums of its parts.
pub proof fn lemma_sum_concat(a: Seq<i32>, b: Seq<i32>)
    ensures
        seq_sum(a + b) == seq_sum(a) + seq_sum(b),
    decreases b.len(),
{
    if b.len() == 0 {
        assert(a + b =~= a);
    } else {
        lemma_sum_concat(a, b.drop_last());
        assert((a + b).drop_last() =~= a + b.drop_last());
    }
}

/// Splitting a sequence at any point and adding the sums of the two parts
/// gives the sum of the whole sequence; in particular at the midpoint.
pub proof fn lemma_split_sum(s: Seq<i32>, mid: int)
    requires
        0 <= mid <= s.len(),
    ensures
        seq_sum(s) == seq_sum(s.subrange(0, mid)) + seq_sum(s.subrange(mid, s.len() as int)),
{
    lemma_sum_concat(s.subrange(0, mid), s.subrange(mid, s.len() as int));
    assert(s.subrange(0, mid) + s.subrange(mid, s.len() as int) =~= s);
}

/// Sum of `v[lo..hi]`, computed without any risk of overflow.
pub fn partial_sum(v: &[i32], lo: usize, hi: usize) -> (r: i128)
    requires
        lo <= hi <= v@.len(),
    ensures
        r == seq_sum(v@.subrange(lo as int, hi as int)),
{
    let mut acc: i128 = 0;
    let mut i: usize = lo;
    while i < hi
        invariant
            lo <= i <= hi <= v@.len(),
            acc == seq_sum(v@.subrange(lo as int, i as int)),
            -2147483648 * (i - lo) <= acc <= 2147483647 * (i - lo),
        decreases hi - i,
    {
        assert(v@.subrange(lo as int, i + 1).drop_last() =~= v@.subrange(lo as int, i as int));
        acc = acc + v[i] as i128;
        i = i + 1;
    }
    acc
}

/// Adds the sums of two halves into the `i32` total they make.
pub fn add_halves(first: i128, second: i128) -> (r: i32)
    requires
        i32::MIN <= first + second <= i32::MAX,
    ensures
        r == first + second,
{
    (first + second) as i32
}

/// Sum of all of `v`: the two halves on either side of `v.len() / 2` are
/// summed separately and the partial sums added.
pub fn sum(v: Vec<i32>) -> (r: i32)
    requires
        i32::MIN <= seq_sum(v@) <= i32::MAX,
    ensures
        r == seq_sum(v@),
{
    let mid: usize = v.len() / 2;
    let first = partial_sum(v.as_slice(), 0, mid);
    let second = partial_sum(v.as_slice(), mid, v.len());
    proof {
        lemma_split_sum(v@, mid as int);
        assert(v@.subrange(0, v@.len() as int) =~= v@);
    }
    add_halves(first, second)
}

} // verus!
