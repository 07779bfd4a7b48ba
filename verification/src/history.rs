//! What a run remembers of its past generations: the best and the median function
//! value of the newest generations, and the first and the best median of all.

use crate::scalar::Scalar;
use std::collections::VecDeque;
use vstd::prelude::*;

verus! {

/// What a history holds, as plain data.
pub struct HistoryView {
    /// The best function value of each remembered generation, newest first.
    pub best_function_values: Seq<Scalar>,
    /// The median function value of each remembered generation, newest first.
    pub median_function_values: Seq<Scalar>,
    /// How many generations are remembered at most.
    pub max_size: nat,
    /// The median function value of the first generation, once there was one.
    pub first_median_value: Option<Scalar>,
    /// The best median function value of any generation, once there was one.
    pub best_median_value: Option<Scalar>,
}

/// The newest `max_size` of the values that there are once `value` has come in.
pub open spec fn remembered(values: Seq<Scalar>, value: Scalar, max_size: nat) -> Seq<Scalar> {
    let all = seq![value] + values;
    if all.len() <= max_size {
        all
    } else {
        all.take(max_size as int)
    }
}

/// The better of the best median so far and a new median: the new one if there was
/// none or if it is less than the best so far.
pub open spec fn better_median(best: Option<Scalar>, median: Scalar) -> Scalar {
    match best {
        Some(best) => if median@.lt(best@) {
            median
        } else {
            best
        },
        None => median,
    }
}

impl HistoryView {
    /// What holds of every history: it remembers as many best as median values, no
    /// more than it has room for, and it knows a first median if and only if it knows
    /// a best one.
    pub open spec fn sound(self) -> bool {
        &&& self.best_function_values.len() == self.median_function_values.len()
        &&& self.best_function_values.len() <= self.max_size
        &&& self.first_median_value is Some <==> self.best_median_value is Some
    }

    /// The history after a generation with the given best and median function value.
    pub open spec fn record(self, best: Scalar, median: Scalar) -> HistoryView {
        HistoryView {
            best_function_values: remembered(self.best_function_values, best, self.max_size),
            median_function_values: remembered(
                self.median_function_values,
                median,
                self.max_size,
            ),
            max_size: self.max_size,
            first_median_value: match self.first_median_value {
                Some(first) => Some(first),
                None => Some(median),
            },
            best_median_value: Some(better_median(self.best_median_value, median)),
        }
    }
}

/// The best and the median function values of the newest generations, with the first
/// and the best median function value of the whole run.
pub struct History {
    best_function_values: VecDeque<Scalar>,
    median_function_values: VecDeque<Scalar>,
    max_size: usize,
    first_median_value: Option<Scalar>,
    best_median_value: Option<Scalar>,
}

impl View for History {
    type V = HistoryView;

    closed spec fn view(&self) -> HistoryView {
        HistoryView {
            best_function_values: self.best_function_values@,
            median_function_values: self.median_function_values@,
            max_size: self.max_size as nat,
            first_median_value: self.first_median_value,
            best_median_value: self.best_median_value,
        }
    }
}

/// Puts the value in front of the values and drops the oldest one if there is no room
/// for it.
fn remember(values: &mut VecDeque<Scalar>, value: Scalar, max_size: usize)
    requires
        old(values)@.len() <= max_size,
    ensures
        final(values)@ == remembered(old(values)@, value, max_size as nat),
        final(values)@.len() <= max_size,
{
    if max_size == 0 {
        assert(values@ =~= remembered(values@, value, 0));
        return ;
    }
    if values.len() == max_size {
        values.pop_back();
    }
    values.push_front(value);
    assert(values@ =~= remembered(old(values)@, value, max_size as nat));
}

impl History {
    #[verifier::type_invariant]
    spec fn sound(&self) -> bool {
        self@.sound()
    }

    /// A history of no generation yet, with room for `max_size` generations.
    pub fn new(max_size: usize) -> (r: History)
        ensures
            r@.sound(),
            r@.best_function_values.len() == 0,
            r@.median_function_values.len() == 0,
            r@.max_size == max_size,
            r@.first_median_value is None,
            r@.best_median_value is None,
    {
        History {
            best_function_values: VecDeque::new(),
            median_function_values: VecDeque::new(),
            max_size,
            first_median_value: None,
            best_median_value: None,
        }
    }

    /// Takes in the best and the median function value of a new generation.
    pub fn record(&mut self, best: Scalar, median: Scalar)
        ensures
            final(self)@ == old(self)@.record(best, median),
            final(self)@.sound(),
    {
        proof {
            use_type_invariant(&*self);
        }
        let mut before = History::new(self.max_size);
        std::mem::swap(&mut before, self);
        let History {
            mut best_function_values,
            mut median_function_values,
            max_size,
            first_median_value,
            best_median_value,
        } = before;
        remember(&mut best_function_values, best, max_size);
        remember(&mut median_function_values, median, max_size);
        let first_median_value = match first_median_value {
            Some(first) => Some(first),
            None => Some(median),
        };
        let best_median_value = match best_median_value {
            Some(so_far) => if median.lt(so_far) {
                Some(median)
            } else {
                Some(so_far)
            },
            None => Some(median),
        };
        *self = History {
            best_function_values,
            median_function_values,
            max_size,
            first_median_value,
            best_median_value,
        };
    }

    /// The best function value of each remembered generation, newest first.
    pub fn best_function_values(&self) -> (r: &VecDeque<Scalar>)
        ensures
            r@ == self@.best_function_values,
            r@.len() <= self@.max_size,
    {
        proof {
            use_type_invariant(self);
        }
        &self.best_function_values
    }

    /// The median function value of each remembered generation, newest first.
    pub fn median_function_values(&self) -> (r: &VecDeque<Scalar>)
        ensures
            r@ == self@.median_function_values,
            r@.len() == self@.best_function_values.len(),
    {
        proof {
            use_type_invariant(self);
        }
        &self.median_function_values
    }

    /// How many generations are remembered at most.
    pub fn max_size(&self) -> (r: usize)
        ensures
            r == self@.max_size,
    {
        self.max_size
    }

    /// How many generations are remembered.
    pub fn len(&self) -> (r: usize)
        ensures
            r == self@.best_function_values.len(),
            r <= self@.max_size,
    {
        proof {
            use_type_invariant(self);
        }
        self.best_function_values.len()
    }

    /// The median function value of the first generation, once there was one.
    pub fn first_median_value(&self) -> (r: Option<Scalar>)
        ensures
            r == self@.first_median_value,
    {
        self.first_median_value
    }

    /// The best median function value of any generation, once there was one.
    pub fn best_median_value(&self) -> (r: Option<Scalar>)
        ensures
            r == self@.best_median_value,
            r is Some <==> self@.first_median_value is Some,
    {
        proof {
            use_type_invariant(self);
        }
        self.best_median_value
    }
}

/// Recording a generation keeps a history sound, puts the new values in front, leaves
/// the first median alone once there is one, and never makes the best median worse.
pub proof fn lemma_record(history: HistoryView, best: Scalar, median: Scalar)
    requires
        history.sound(),
    ensures
        history.record(best, median).sound(),
        history.record(best, median).max_size == history.max_size,
        history.max_size > 0 ==> history.record(best, median).best_function_values[0] == best
            && history.record(best, median).median_function_values[0] == median,
        history.best_function_values.len() < history.max_size ==> history.record(
            best,
            median,
        ).best_function_values.len() == history.best_function_values.len() + 1,
        history.best_function_values.len() == history.max_size ==> history.record(
            best,
            median,
        ).best_function_values.len() == history.max_size,
        forall|i: int|
            1 <= i < history.record(best, median).best_function_values.len() ==> history.record(
                best,
                median,
            ).best_function_values[i] == history.best_function_values[i - 1],
        history.first_median_value is Some ==> history.record(best, median).first_median_value
            == history.first_median_value,
        history.first_median_value is None ==> history.record(best, median).first_median_value
            == Some(median),
        history.best_median_value matches Some(so_far) ==> !so_far@.lt(
            history.record(best, median).best_median_value->Some_0@,
        ),
        !median@.lt(history.record(best, median).best_median_value->Some_0@),
{
}

} // verus!
