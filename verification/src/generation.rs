//! What is decided about the results of a generation before they are used: whether
//! the function values and the eigenvalues of the covariance matrix can be used at all,
//! and in which order the individuals come.

use crate::scalar::{lemma_order_is_that_of_positions, Scalar, INFINITY_BITS};
use crate::termination::TerminationReason;
use vstd::prelude::*;

verus! {

/// Whether every one of the values is a finite number.
pub open spec fn all_finite(values: Seq<Scalar>) -> bool {
    forall|i: int| 0 <= i < values.len() ==> (#[trigger] values[i])@.is_finite()
}

/// Looks for a function value that is no finite number. A generation with such a value
/// is not used: the run stops with `InvalidFunctionValue`.
pub fn screen(values: &Vec<Scalar>) -> (r: Result<(), TerminationReason>)
    ensures
        r is Ok <==> all_finite(values@),
        r is Err ==> r->Err_0 == TerminationReason::InvalidFunctionValue,
{
    let mut i: usize = 0;
    while i < values.len()
        invariant
            i <= values@.len(),
            forall|j: int| 0 <= j < i ==> (#[trigger] values@[j])@.is_finite(),
        decreases values.len() - i,
    {
        if !values[i].is_finite() {
            return Err(TerminationReason::InvalidFunctionValue);
        }
        i += 1;
    }
    Ok(())
}

/// Whether every one of the eigenvalues is greater than zero, as those of a positive
/// definite matrix are.
pub open spec fn all_positive(eigenvalues: Seq<Scalar>) -> bool {
    forall|i: int|
        0 <= i < eigenvalues.len() ==> (#[trigger] eigenvalues[i])@.gt(Scalar { bits: 0 }@)
}

/// Looks for an eigenvalue of the covariance matrix that is not greater than zero. A
/// covariance matrix with such an eigenvalue is not taken on: the run stops with
/// `PosDefCov`.
pub fn check_eigenvalues(eigenvalues: &Vec<Scalar>) -> (r: Result<(), TerminationReason>)
    ensures
        r is Ok <==> all_positive(eigenvalues@),
        r is Err ==> r->Err_0 == TerminationReason::PosDefCov,
{
    let zero: Scalar = Scalar::zero();
    let mut i: usize = 0;
    while i < eigenvalues.len()
        invariant
            i <= eigenvalues@.len(),
            zero.bits == 0,
            forall|j: int| 0 <= j < i ==> (#[trigger] eigenvalues@[j])@.gt(Scalar { bits: 0 }@),
        decreases eigenvalues.len() - i,
    {
        if !eigenvalues[i].gt(zero) {
            return Err(TerminationReason::PosDefCov);
        }
        i += 1;
    }
    Ok(())
}

/// The place of a function value in a ranking: that of the number on the number line,
/// and behind every number for a NaN.
pub open spec fn ranking_key(value: Scalar) -> int {
    if value@ is Nan {
        INFINITY_BITS + 1
    } else {
        value.position()
    }
}

/// Whether individual `i` comes before individual `j` in the ranking: its function
/// value is less, or the two are equal and `i` was sampled first.
pub open spec fn precedes(values: Seq<Scalar>, i: int, j: int) -> bool {
    ranking_key(values[i]) < ranking_key(values[j]) || (ranking_key(values[i]) == ranking_key(
        values[j],
    ) && i < j)
}

/// Whether `ranking` lists the individual.
pub open spec fn lists(ranking: Seq<usize>, individual: int) -> bool {
    exists|k: int| 0 <= k < ranking.len() && #[trigger] ranking[k] == individual
}

/// Whether `ranking` lists each of the individuals `0 .. n` once.
pub open spec fn arranges(ranking: Seq<usize>, n: nat) -> bool {
    &&& ranking.len() == n
    &&& forall|k: int| 0 <= k < n ==> (#[trigger] ranking[k]) < n
    &&& forall|a: int, b: int|
        0 <= a < b < n ==> (#[trigger] ranking[a]) != (#[trigger] ranking[b])
    &&& forall|i: int| 0 <= i < n ==> #[trigger] lists(ranking, i)
}

/// Whether the ranking is in order from `0` up to `end`.
pub open spec fn ranked(values: Seq<Scalar>, ranking: Seq<usize>, end: int) -> bool {
    forall|a: int, b: int|
        0 <= a < b < end ==> precedes(
            values,
            (#[trigger] ranking[a]) as int,
            (#[trigger] ranking[b]) as int,
        )
}

/// Whether individual `i` comes before individual `j` in the ranking.
fn comes_before(values: &Vec<Scalar>, i: usize, j: usize) -> (r: bool)
    requires
        i < values.len(),
        j < values.len(),
    ensures
        r == precedes(values@, i as int, j as int),
{
    let a: Scalar = values[i];
    let b: Scalar = values[j];
    if a.is_nan() {
        b.is_nan() && i < j
    } else if b.is_nan() {
        proof {
            assert(a.magnitude() <= INFINITY_BITS);
        }
        true
    } else {
        proof {
            lemma_order_is_that_of_positions(a, b);
            lemma_order_is_that_of_positions(b, a);
        }
        if a.lt(b) {
            true
        } else if b.lt(a) {
            false
        } else {
            i < j
        }
    }
}

/// Ranks the individuals of a generation by their function values, best first: the
/// result lists the individuals, each once, from the least function value to the
/// greatest. Individuals with equal function values stay in the order they were
/// sampled in, and those with a NaN for a function value come last.
pub fn rank(values: &Vec<Scalar>) -> (ranking: Vec<usize>)
    ensures
        arranges(ranking@, values@.len()),
        ranked(values@, ranking@, values@.len() as int),
{
    let n: usize = values.len();
    let mut ranking: Vec<usize> = Vec::new();
    let mut k: usize = 0;
    while k < n
        invariant
            k <= n,
            ranking@.len() == k,
            forall|i: int| 0 <= i < k ==> (#[trigger] ranking@[i]) == i,
        decreases n - k,
    {
        ranking.push(k);
        k += 1;
    }
    assert forall|i: int| 0 <= i < n implies #[trigger] lists(ranking@, i) by {
        assert(ranking@[i] == i);
    }
    let mut i: usize = 1;
    while i < n
        invariant
            n == values@.len(),
            1 <= i,
            arranges(ranking@, n as nat),
            ranked(values@, ranking@, i as int),
        decreases n - i,
    {
        let mut j: usize = i;
        while j > 0 && comes_before(values, ranking[j], ranking[j - 1])
            invariant
                n == values@.len(),
                j <= i < n,
                arranges(ranking@, n as nat),
                forall|a: int, b: int|
                    0 <= a < b <= i && a != j && b != j ==> precedes(
                        values@,
                        (#[trigger] ranking@[a]) as int,
                        (#[trigger] ranking@[b]) as int,
                    ),
                forall|b: int|
                    j < b <= i ==> precedes(
                        values@,
                        ranking@[j as int] as int,
                        (#[trigger] ranking@[b]) as int,
                    ),
            decreases j,
        {
            let ghost before = ranking@;
            let moved: usize = ranking[j];
            let passed: usize = ranking[j - 1];
            ranking.set(j, passed);
            ranking.set(j - 1, moved);
            proof {
                assert forall|i: int| 0 <= i < n implies #[trigger] lists(ranking@, i) by {
                    assert(lists(before, i));
                    let k = choose|k: int| 0 <= k < n && #[trigger] before[k] == i;
                    if k == j {
                        assert(ranking@[j - 1] == i);
                    } else if k == j - 1 {
                        assert(ranking@[j as int] == i);
                    } else {
                        assert(ranking@[k] == i);
                    }
                }
                assert forall|a: int, b: int|
                    0 <= a < b <= i && a != j - 1 && b != j - 1 implies precedes(
                    values@,
                    (#[trigger] ranking@[a]) as int,
                    (#[trigger] ranking@[b]) as int,
                ) by {
                    if a == j {
                        assert(ranking@[a] == before[j - 1]);
                        assert(ranking@[b] == before[b]);
                    } else if b == j {
                        assert(ranking@[b] == before[j - 1]);
                        assert(ranking@[a] == before[a]);
                    } else {
                        assert(ranking@[a] == before[a]);
                        assert(ranking@[b] == before[b]);
                    }
                }
                assert forall|b: int| j - 1 < b <= i implies precedes(
                    values@,
                    ranking@[j - 1] as int,
                    (#[trigger] ranking@[b]) as int,
                ) by {
                    if b != j {
                        assert(ranking@[b] == before[b]);
                    }
                }
            }
            j -= 1;
        }
        proof {
            assert forall|a: int, b: int| 0 <= a < b < i + 1 implies precedes(
                values@,
                (#[trigger] ranking@[a]) as int,
                (#[trigger] ranking@[b]) as int,
            ) by {
                if a != j && b != j {
                } else if a == j {
                } else {
                    // `b == j`, and `a` is before it
                    if j > 0 {
                        assert(ranking@[j - 1] != ranking@[j as int]);
                        if a < j - 1 {
                            assert(precedes(
                                values@,
                                ranking@[a] as int,
                                ranking@[j - 1] as int,
                            ));
                        }
                    }
                }
            }
        }
        i += 1;
    }
    ranking
}

/// A ranking puts no individual with a greater function value before one with a
/// lesser. Where all function values are numbers, the first one of the ranking has the
/// least function value there is.
pub proof fn lemma_ranking_ascends(values: Seq<Scalar>, ranking: Seq<usize>, a: int, b: int)
    requires
        arranges(ranking, values.len()),
        ranked(values, ranking, values.len() as int),
        0 <= a <= b < values.len(),
        !(values[ranking[a] as int]@ is Nan),
        !(values[ranking[b] as int]@ is Nan),
    ensures
        values[ranking[a] as int]@.le(values[ranking[b] as int]@),
{
    lemma_order_is_that_of_positions(values[ranking[a] as int], values[ranking[b] as int]);
    if a < b {
        assert(precedes(values, ranking[a] as int, ranking[b] as int));
    }
}

} // verus!
