//! The lowest and the highest number of a sequence, whose difference is its range.

use crate::scalar::Scalar;
use std::collections::VecDeque;
use vstd::prelude::*;

verus! {

/// The lowest number of a sequence that is not empty: the first entry that none of the
/// entries before the end replaced, where an entry replaces the lowest so far if it is
/// less than it. A NaN is less than nothing and nothing is less than a NaN, so a NaN is
/// the result only if it comes first.
pub open spec fn lowest(s: Seq<Scalar>) -> Scalar
    decreases s.len(),
{
    if s.len() <= 1 {
        s[0]
    } else {
        let before = lowest(s.drop_last());
        if s.last()@.lt(before@) {
            s.last()
        } else {
            before
        }
    }
}

/// The highest number of a sequence that is not empty, found as [`lowest`] is.
pub open spec fn highest(s: Seq<Scalar>) -> Scalar
    decreases s.len(),
{
    if s.len() <= 1 {
        s[0]
    } else {
        let before = highest(s.drop_last());
        if s.last()@.gt(before@) {
            s.last()
        } else {
            before
        }
    }
}

/// Whether no entry of the sequence is a NaN.
pub open spec fn all_numbers(s: Seq<Scalar>) -> bool {
    forall|i: int| 0 <= i < s.len() ==> !(#[trigger] s[i]@ is Nan)
}

/// Of a sequence of numbers, [`lowest`] is one of the entries and no entry is less,
/// and [`highest`] is one of the entries and no entry is greater.
pub proof fn lemma_extremes_bound(s: Seq<Scalar>)
    requires
        s.len() > 0,
        all_numbers(s),
    ensures
        s.contains(lowest(s)),
        s.contains(highest(s)),
        forall|i: int| 0 <= i < s.len() ==> lowest(s)@.le(#[trigger] s[i]@),
        forall|i: int| 0 <= i < s.len() ==> highest(s)@.ge(#[trigger] s[i]@),
    decreases s.len(),
{
    if s.len() > 1 {
        let t = s.drop_last();
        lemma_extremes_bound(t);
        let low = choose|i: int| 0 <= i < t.len() && t[i] == lowest(t);
        let high = choose|i: int| 0 <= i < t.len() && t[i] == highest(t);
        assert(s[low] == lowest(t));
        assert(s[high] == highest(t));
        assert(s[s.len() - 1] == s.last());
        assert forall|i: int| 0 <= i < s.len() implies lowest(s)@.le(#[trigger] s[i]@) by {
            if i < t.len() {
                assert(t[i] == s[i]);
            }
        }
        assert forall|i: int| 0 <= i < s.len() implies highest(s)@.ge(#[trigger] s[i]@) by {
            if i < t.len() {
                assert(t[i] == s[i]);
            }
        }
    } else {
        assert(s[0] == lowest(s));
    }
}

/// The lowest and the highest of the values.
pub fn extremes(values: &Vec<Scalar>) -> (r: (Scalar, Scalar))
    requires
        values.len() > 0,
    ensures
        r.0 == lowest(values@),
        r.1 == highest(values@),
{
    let mut low: Scalar = values[0];
    let mut high: Scalar = values[0];
    let mut i: usize = 1;
    assert(values@.take(1).len() == 1);
    while i < values.len()
        invariant
            1 <= i <= values.len(),
            low == lowest(values@.take(i as int)),
            high == highest(values@.take(i as int)),
        decreases values.len() - i,
    {
        let v: Scalar = values[i];
        assert(values@.take(i + 1).drop_last() =~= values@.take(i as int));
        if v.lt(low) {
            low = v;
        }
        if v.gt(high) {
            high = v;
        }
        i += 1;
    }
    assert(values@.take(values.len() as int) =~= values@);
    (low, high)
}

/// The lowest and the highest of the first `count` values.
pub fn leading_extremes(values: &VecDeque<Scalar>, count: usize) -> (r: (Scalar, Scalar))
    requires
        0 < count <= values.len(),
    ensures
        r.0 == lowest(values@.take(count as int)),
        r.1 == highest(values@.take(count as int)),
{
    let mut low: Scalar = values[0];
    let mut high: Scalar = values[0];
    let mut i: usize = 1;
    assert(values@.take(1).len() == 1);
    while i < count
        invariant
            1 <= i <= count <= values.len(),
            low == lowest(values@.take(i as int)),
            high == highest(values@.take(i as int)),
        decreases count - i,
    {
        let v: Scalar = values[i];
        assert(values@.take(i + 1).drop_last() =~= values@.take(i as int));
        if v.lt(low) {
            low = v;
        }
        if v.gt(high) {
            high = v;
        }
        i += 1;
    }
    (low, high)
}

} // verus!
