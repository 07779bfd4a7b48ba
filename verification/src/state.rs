//! The search distribution of a run: its mean, covariance matrix and step size, the
//! two evolution paths, and the count of the generations.

use crate::generation::all_positive;
use crate::matrix::{mirrored, square, CovarianceMatrix, Decomposition};
use crate::scalar::Scalar;
use crate::termination::TerminationReason;
use vstd::prelude::*;

verus! {

/// What the search distribution is, as plain data.
pub struct StateView {
    /// How many generations have been completed.
    pub generation: nat,
    /// The mean of the distribution.
    pub mean: Seq<Scalar>,
    /// The covariance matrix of the distribution.
    pub cov: CovarianceMatrix,
    /// The step size of the distribution.
    pub sigma: Scalar,
    /// The evolution path of the covariance.
    pub path_c: Seq<Scalar>,
    /// The evolution path of the step size.
    pub path_sigma: Seq<Scalar>,
}

impl StateView {
    /// What holds of every search distribution: its covariance matrix is symmetric,
    /// and its mean and its paths have an entry for each row of the matrix.
    pub open spec fn sound(self) -> bool {
        &&& self.cov.sound()
        &&& self.mean.len() == self.cov.dimensions()
        &&& self.path_c.len() == self.cov.dimensions()
        &&& self.path_sigma.len() == self.cov.dimensions()
    }
}

/// What the arithmetic of a generation has come to: the search distribution that the
/// next generation is sampled from.
pub struct Update {
    /// The mean of the distribution.
    pub mean: Vec<Scalar>,
    /// The covariance matrix of the distribution, by rows. It is read on and above
    /// its diagonal.
    pub cov: Vec<Vec<Scalar>>,
    /// The step size of the distribution.
    pub sigma: Scalar,
    /// The evolution path of the covariance.
    pub path_c: Vec<Scalar>,
    /// The evolution path of the step size.
    pub path_sigma: Vec<Scalar>,
}

impl Update {
    /// Whether the update has an entry where a distribution in `dim` dimensions has
    /// one.
    pub open spec fn fits(&self, dim: nat) -> bool {
        &&& self.mean@.len() == dim
        &&& square(self.cov@, dim)
        &&& self.path_c@.len() == dim
        &&& self.path_sigma@.len() == dim
    }
}

/// The search distribution of a run.
pub struct State {
    generation: usize,
    mean: Vec<Scalar>,
    cov: CovarianceMatrix,
    sigma: Scalar,
    path_c: Vec<Scalar>,
    path_sigma: Vec<Scalar>,
}

impl View for State {
    type V = StateView;

    closed spec fn view(&self) -> StateView {
        StateView {
            generation: self.generation as nat,
            mean: self.mean@,
            cov: self.cov,
            sigma: self.sigma,
            path_c: self.path_c@,
            path_sigma: self.path_sigma@,
        }
    }
}

/// As many zeros as asked for.
fn zeros(n: usize) -> (r: Vec<Scalar>)
    ensures
        r@.len() == n,
        forall|i: int| 0 <= i < n ==> (#[trigger] r@[i]).bits == 0,
{
    let mut r: Vec<Scalar> = Vec::new();
    let mut i: usize = 0;
    while i < n
        invariant
            i <= n,
            r@.len() == i,
            forall|k: int| 0 <= k < i ==> (#[trigger] r@[k]).bits == 0,
        decreases n - i,
    {
        r.push(Scalar::zero());
        i += 1;
    }
    r
}

impl State {
    #[verifier::type_invariant]
    spec fn intact(&self) -> bool {
        self@.sound()
    }

    /// The distribution at the start of a run: no generation completed, the given mean
    /// and step size, the identity for a covariance matrix, and paths of zeros.
    pub fn new(initial_mean: Vec<Scalar>, initial_sigma: Scalar) -> (r: State)
        ensures
            r@.sound(),
            r@.generation == 0,
            r@.mean == initial_mean@,
            r@.sigma == initial_sigma,
            r@.cov.dimensions() == initial_mean@.len(),
            r@.cov.known() is Some,
            r@.path_c.len() == initial_mean@.len(),
            r@.path_sigma.len() == initial_mean@.len(),
            forall|i: int| 0 <= i < r@.path_c.len() ==> (#[trigger] r@.path_c[i]).bits == 0,
            forall|i: int| 0 <= i < r@.path_sigma.len() ==> (#[trigger] r@.path_sigma[i]).bits == 0,
    {
        let dim: usize = initial_mean.len();
        State {
            generation: 0,
            mean: initial_mean,
            cov: CovarianceMatrix::identity(dim),
            sigma: initial_sigma,
            path_c: zeros(dim),
            path_sigma: zeros(dim),
        }
    }

    /// The number of dimensions of the distribution.
    pub fn dim(&self) -> (r: usize)
        ensures
            r == self@.cov.dimensions(),
            r == self@.mean.len(),
    {
        proof {
            use_type_invariant(self);
        }
        self.cov.dim()
    }

    /// How many generations have been completed.
    pub fn generation(&self) -> (r: usize)
        ensures
            r == self@.generation,
    {
        self.generation
    }

    /// The mean of the distribution.
    pub fn mean(&self) -> (r: &Vec<Scalar>)
        ensures
            r@ == self@.mean,
            r@.len() == self@.cov.dimensions(),
    {
        proof {
            use_type_invariant(self);
        }
        &self.mean
    }

    /// The covariance matrix of the distribution.
    pub fn cov(&self) -> (r: &CovarianceMatrix)
        ensures
            *r == self@.cov,
            r.sound(),
            r.dimensions() == self@.mean.len(),
    {
        proof {
            use_type_invariant(self);
        }
        &self.cov
    }

    /// The step size of the distribution.
    pub fn sigma(&self) -> (r: Scalar)
        ensures
            r == self@.sigma,
    {
        self.sigma
    }

    /// The evolution path of the covariance.
    pub fn path_c(&self) -> (r: &Vec<Scalar>)
        ensures
            r@ == self@.path_c,
            r@.len() == self@.cov.dimensions(),
    {
        proof {
            use_type_invariant(self);
        }
        &self.path_c
    }

    /// The evolution path of the step size.
    pub fn path_sigma(&self) -> (r: &Vec<Scalar>)
        ensures
            r@ == self@.path_sigma,
            r@.len() == self@.cov.dimensions(),
    {
        proof {
            use_type_invariant(self);
        }
        &self.path_sigma
    }

    /// Sets the count of the generations.
    pub fn set_generation(&mut self, generation: usize)
        ensures
            final(self)@ == (StateView { generation: generation as nat, ..old(self)@ }),
            final(self)@.sound(),
    {
        proof {
            use_type_invariant(&*self);
        }
        self.generation = generation;
    }

    /// Sets the step size.
    pub fn set_sigma(&mut self, sigma: Scalar)
        ensures
            final(self)@ == (StateView { sigma, ..old(self)@ }),
            final(self)@.sound(),
    {
        proof {
            use_type_invariant(&*self);
        }
        self.sigma = sigma;
    }

    /// Sets the mean.
    pub fn set_mean(&mut self, mean: Vec<Scalar>)
        requires
            mean@.len() == old(self)@.mean.len(),
        ensures
            final(self)@ == (StateView { mean: mean@, ..old(self)@ }),
            final(self)@.sound(),
    {
        proof {
            use_type_invariant(&*self);
        }
        self.mean = mean;
    }

    /// Sets the evolution path of the covariance.
    pub fn set_path_c(&mut self, path_c: Vec<Scalar>)
        requires
            path_c@.len() == old(self)@.path_c.len(),
        ensures
            final(self)@ == (StateView { path_c: path_c@, ..old(self)@ }),
            final(self)@.sound(),
    {
        proof {
            use_type_invariant(&*self);
        }
        self.path_c = path_c;
    }

    /// Writes a table to the covariance matrix. The entries on and above the diagonal
    /// of the table are taken on: the matrix is made symmetric. Whatever decomposition
    /// was known is not known any more.
    pub fn set_cov(&mut self, rows: &Vec<Vec<Scalar>>)
        requires
            square(rows@, old(self)@.cov.dimensions()),
        ensures
            final(self)@.sound(),
            final(self)@.generation == old(self)@.generation,
            final(self)@.mean == old(self)@.mean,
            final(self)@.sigma == old(self)@.sigma,
            final(self)@.path_c == old(self)@.path_c,
            final(self)@.path_sigma == old(self)@.path_sigma,
            final(self)@.cov.dimensions() == old(self)@.cov.dimensions(),
            forall|i: int, j: int|
                0 <= i < old(self)@.cov.dimensions() && 0 <= j < old(self)@.cov.dimensions() ==> (
                #[trigger] final(self)@.cov.entry(i, j)) == mirrored(rows@, i, j),
            final(self)@.cov.known() is None,
    {
        proof {
            use_type_invariant(&*self);
        }
        let mut before = State::new(Vec::new(), self.sigma);
        std::mem::swap(&mut before, self);
        let State { generation, mean, mut cov, sigma, path_c, path_sigma } = before;
        cov.set_cov(rows);
        *self = State { generation, mean, cov, sigma, path_c, path_sigma };
    }

    /// Whether the update can be taken on: it has an entry where the distribution has
    /// one, and the count of the generations has room for one more.
    pub open spec fn takes(&self, update: &Update) -> bool {
        update.fits(self@.cov.dimensions()) && self@.generation < usize::MAX
    }

    /// Whether the update can be taken on.
    pub fn is_taking(&self, update: &Update) -> (r: bool)
        ensures
            r == self.takes(update),
    {
        let dim: usize = self.dim();
        update.mean.len() == dim && self.cov.takes(&update.cov) && update.path_c.len() == dim
            && update.path_sigma.len() == dim && self.generation < usize::MAX
    }

    /// Completes a generation: takes on the distribution that its arithmetic has come
    /// to and counts the generation. The covariance matrix is made symmetric, and its
    /// decomposition is not known any more.
    pub fn update(&mut self, update: Update)
        requires
            old(self).takes(&update),
        ensures
            final(self)@.sound(),
            final(self)@.generation == old(self)@.generation + 1,
            final(self)@.mean == update.mean@,
            final(self)@.sigma == update.sigma,
            final(self)@.path_c == update.path_c@,
            final(self)@.path_sigma == update.path_sigma@,
            final(self)@.cov.dimensions() == old(self)@.cov.dimensions(),
            forall|i: int, j: int|
                0 <= i < old(self)@.cov.dimensions() && 0 <= j < old(self)@.cov.dimensions() ==> (
                #[trigger] final(self)@.cov.entry(i, j)) == mirrored(
                    update.cov@,
                    i,
                    j,
                ),
            final(self)@.cov.known() is None,
    {
        proof {
            use_type_invariant(&*self);
        }
        let mut before = State::new(Vec::new(), update.sigma);
        std::mem::swap(&mut before, self);
        let State { generation, mean: _, mut cov, sigma: _, path_c: _, path_sigma: _ } = before;
        cov.set_cov(&update.cov);
        *self = State {
            generation: generation + 1,
            mean: update.mean,
            cov,
            sigma: update.sigma,
            path_c: update.path_c,
            path_sigma: update.path_sigma,
        };
    }

    /// Takes on a decomposition of the covariance matrix as it is, unless one of the
    /// eigenvalues it was made from is not greater than zero: then the error is
    /// `PosDefCov`, and no decomposition is known.
    pub fn set_decomposition(&mut self, eigenvalues: &Vec<Scalar>, decomposition: Decomposition) -> (r:
        Result<(), TerminationReason>)
        requires
            decomposition.fits(old(self)@.cov.dimensions()),
        ensures
            final(self)@.sound(),
            final(self)@.generation == old(self)@.generation,
            final(self)@.mean == old(self)@.mean,
            final(self)@.sigma == old(self)@.sigma,
            final(self)@.path_c == old(self)@.path_c,
            final(self)@.path_sigma == old(self)@.path_sigma,
            final(self)@.cov.dimensions() == old(self)@.cov.dimensions(),
            forall|i: int, j: int| final(self)@.cov.entry(i, j) == old(self)@.cov.entry(i, j),
            r is Ok <==> all_positive(eigenvalues@),
            r is Ok ==> final(self)@.cov.known() == Some(decomposition),
            r is Err ==> r->Err_0 == TerminationReason::PosDefCov && final(self)@.cov.known() is None,
    {
        proof {
            use_type_invariant(&*self);
        }
        let mut before = State::new(Vec::new(), self.sigma);
        std::mem::swap(&mut before, self);
        let State { generation, mean, mut cov, sigma, path_c, path_sigma } = before;
        let r = cov.set_decomposition(eigenvalues, decomposition);
        *self = State { generation, mean, cov, sigma, path_c, path_sigma };
        r
    }
}

} // verus!
