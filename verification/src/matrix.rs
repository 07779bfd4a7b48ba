//! The covariance matrix of the search distribution, and what is known of its
//! eigendecomposition.
//!
//! The matrix is symmetric whatever is written to it: a write takes the entries on and
//! above the diagonal and mirrors them. A decomposition is known from the moment it is
//! taken on until the matrix is next written to, so one that is handed out always
//! belongs to the matrix as it is.

use crate::generation::{all_positive, check_eigenvalues};
use crate::options::ONE_BITS;
use crate::scalar::Scalar;
use crate::termination::TerminationReason;
use vstd::prelude::*;

verus! {

/// Whether the rows are those of a square table with `dim` rows.
pub open spec fn square(rows: Seq<Vec<Scalar>>, dim: nat) -> bool {
    &&& rows.len() == dim
    &&& forall|i: int| 0 <= i < dim ==> (#[trigger] rows[i])@.len() == dim
}

/// The entry of a table at row `i` and column `j` once the table is made symmetric:
/// the entry that the table has on or above its diagonal, at `(i, j)` or at `(j, i)`.
pub open spec fn mirrored(rows: Seq<Vec<Scalar>>, i: int, j: int) -> Scalar {
    if i <= j {
        rows[i]@[j]
    } else {
        rows[j]@[i]
    }
}

/// The eigendecomposition `C = B * D^2 * B^T` of a covariance matrix `C`.
pub struct Decomposition {
    /// The eigenvectors of the matrix (`B`), by rows: entry `k` of row `i` is entry `i`
    /// of the eigenvector of axis `k`.
    pub eigenvectors: Vec<Vec<Scalar>>,
    /// The square roots of the eigenvalues of the matrix (the diagonal of `D`), one
    /// for each axis.
    pub sqrt_eigenvalues: Vec<Scalar>,
}

impl Decomposition {
    /// Whether the decomposition is one of a matrix with `dim` rows.
    pub open spec fn fits(&self, dim: nat) -> bool {
        &&& square(self.eigenvectors@, dim)
        &&& self.sqrt_eigenvalues@.len() == dim
    }

    /// Whether the decomposition is one of a matrix with `dim` rows.
    pub fn is_fit(&self, dim: usize) -> (r: bool)
        ensures
            r == self.fits(dim as nat),
    {
        is_square(&self.eigenvectors, dim) && self.sqrt_eigenvalues.len() == dim
    }
}

/// Whether the rows are those of a square table with `dim` rows.
pub fn is_square(rows: &Vec<Vec<Scalar>>, dim: usize) -> (r: bool)
    ensures
        r == square(rows@, dim as nat),
{
    if rows.len() != dim {
        return false;
    }
    let mut i: usize = 0;
    while i < dim
        invariant
            i <= dim == rows@.len(),
            forall|k: int| 0 <= k < i ==> (#[trigger] rows@[k])@.len() == dim,
        decreases dim - i,
    {
        if rows[i].len() != dim {
            return false;
        }
        i += 1;
    }
    true
}

/// What is known of the decomposition of a matrix.
enum Cache {
    /// The decomposition of the matrix as it is, taken on when the matrix had the
    /// entries that are noted with it.
    Clean { decomposition: Decomposition, of: Ghost<Seq<Vec<Scalar>>> },
    /// The matrix has been written to since a decomposition was last taken on.
    Dirty,
}

/// A covariance matrix with what is known of its decomposition.
pub struct CovarianceMatrix {
    dim: usize,
    rows: Vec<Vec<Scalar>>,
    cache: Cache,
}

impl CovarianceMatrix {
    /// The number of rows and of columns.
    pub closed spec fn dimensions(&self) -> nat {
        self.dim as nat
    }

    /// The entry at row `i` and column `j`.
    pub closed spec fn entry(&self, i: int, j: int) -> Scalar {
        self.rows@[i]@[j]
    }

    /// The decomposition of the matrix, if it is known.
    pub closed spec fn known(&self) -> Option<Decomposition> {
        match self.cache {
            Cache::Clean { decomposition, .. } => Some(decomposition),
            Cache::Dirty => None,
        }
    }

    /// What holds of every covariance matrix: it is square and symmetric, and a
    /// decomposition that is known fits it and was taken on when the matrix had the
    /// entries it has.
    pub closed spec fn sound(&self) -> bool {
        &&& square(self.rows@, self.dim as nat)
        &&& forall|i: int, j: int|
            0 <= i < self.dim && 0 <= j < self.dim ==> self.rows@[i]@[j] == self.rows@[j]@[i]
        &&& self.cache matches Cache::Clean { decomposition, of } ==> decomposition.fits(
            self.dim as nat,
        ) && of@ == self.rows@
    }

    #[verifier::type_invariant]
    spec fn intact(&self) -> bool {
        self.sound()
    }

    /// The identity matrix with `dim` rows, with its decomposition: the coordinate
    /// axes for eigenvectors, and one for every eigenvalue.
    pub fn identity(dim: usize) -> (r: CovarianceMatrix)
        ensures
            r.sound(),
            r.dimensions() == dim,
            forall|i: int, j: int|
                0 <= i < dim && 0 <= j < dim ==> (#[trigger] r.entry(i, j)).bits == if i == j {
                    ONE_BITS
                } else {
                    0
                },
            r.known() matches Some(d) && d.fits(dim as nat) && (forall|i: int|
                0 <= i < dim ==> (#[trigger] d.sqrt_eigenvalues@[i]).bits == ONE_BITS) && (forall|
                i: int,
                j: int,
            |
                0 <= i < dim && 0 <= j < dim ==> (#[trigger] d.eigenvectors@[i]@[j]).bits == if i
                    == j {
                    ONE_BITS
                } else {
                    0
                }),
    {
        let rows = identity_rows(dim);
        let eigenvectors = identity_rows(dim);
        let mut sqrt_eigenvalues: Vec<Scalar> = Vec::new();
        let mut i: usize = 0;
        while i < dim
            invariant
                i <= dim,
                sqrt_eigenvalues@.len() == i,
                forall|k: int| 0 <= k < i ==> (#[trigger] sqrt_eigenvalues@[k]).bits == ONE_BITS,
            decreases dim - i,
        {
            sqrt_eigenvalues.push(Scalar::from_bits(ONE_BITS));
            i += 1;
        }
        let decomposition = Decomposition { eigenvectors, sqrt_eigenvalues };
        assert forall|i: int, j: int| 0 <= i < dim && 0 <= j < dim implies rows@[i]@[j]
            == rows@[j]@[i] by {
            assert(rows@[i]@[j].bits == rows@[j]@[i].bits);
        }
        CovarianceMatrix { dim, rows, cache: Cache::Clean { decomposition, of: Ghost(rows@) } }
    }

    /// The number of rows and of columns.
    pub fn dim(&self) -> (r: usize)
        ensures
            r == self.dimensions(),
    {
        self.dim
    }

    /// The entry at row `i` and column `j`, which is the entry at row `j` and column
    /// `i` too.
    pub fn get(&self, i: usize, j: usize) -> (r: Scalar)
        requires
            i < self.dimensions(),
            j < self.dimensions(),
        ensures
            r == self.entry(i as int, j as int),
            r == self.entry(j as int, i as int),
    {
        proof {
            use_type_invariant(self);
        }
        self.rows[i][j]
    }

    /// The entries on the diagonal, which are the variances of the coordinates.
    pub fn diagonal(&self) -> (r: Vec<Scalar>)
        ensures
            r@.len() == self.dimensions(),
            forall|i: int| 0 <= i < r@.len() ==> (#[trigger] r@[i]) == self.entry(i, i),
    {
        proof {
            use_type_invariant(self);
        }
        let mut diagonal: Vec<Scalar> = Vec::new();
        let mut i: usize = 0;
        while i < self.dim
            invariant
                i <= self.dim,
                square(self.rows@, self.dim as nat),
                diagonal@.len() == i,
                forall|k: int| 0 <= k < i ==> (#[trigger] diagonal@[k]) == self.rows@[k]@[k],
            decreases self.dim - i,
        {
            diagonal.push(self.rows[i][i]);
            i += 1;
        }
        diagonal
    }

    /// Whether a table can be written to the matrix: it has as many rows and columns.
    pub fn takes(&self, rows: &Vec<Vec<Scalar>>) -> (r: bool)
        ensures
            r == square(rows@, self.dimensions()),
    {
        is_square(rows, self.dim)
    }

    /// Writes a table to the matrix. The entries on and above the diagonal of the
    /// table are taken on, those below are not looked at: the matrix is made symmetric.
    /// Whatever decomposition was known is not known any more.
    pub fn set_cov(&mut self, rows: &Vec<Vec<Scalar>>)
        requires
            square(rows@, old(self).dimensions()),
        ensures
            final(self).sound(),
            final(self).dimensions() == old(self).dimensions(),
            forall|i: int, j: int|
                0 <= i < old(self).dimensions() && 0 <= j < old(self).dimensions() ==> (
                #[trigger] final(self).entry(i, j)) == mirrored(rows@, i, j),
            final(self).known() is None,
    {
        let dim: usize = self.dim;
        let mut mirror: Vec<Vec<Scalar>> = Vec::new();
        let mut i: usize = 0;
        while i < dim
            invariant
                i <= dim,
                square(rows@, dim as nat),
                mirror@.len() == i,
                forall|a: int| 0 <= a < i ==> (#[trigger] mirror@[a])@.len() == dim,
                forall|a: int, b: int|
                    0 <= a < i && 0 <= b < dim ==> (#[trigger] mirror@[a]@[b]) == mirrored(
                        rows@,
                        a,
                        b,
                    ),
            decreases dim - i,
        {
            let mut row: Vec<Scalar> = Vec::new();
            let mut j: usize = 0;
            while j < dim
                invariant
                    i < dim,
                    j <= dim,
                    square(rows@, dim as nat),
                    row@.len() == j,
                    forall|b: int| 0 <= b < j ==> (#[trigger] row@[b]) == mirrored(rows@, i as int, b),
                decreases dim - j,
            {
                if i <= j {
                    row.push(rows[i][j]);
                } else {
                    row.push(rows[j][i]);
                }
                j += 1;
            }
            mirror.push(row);
            i += 1;
        }
        *self = CovarianceMatrix { dim, rows: mirror, cache: Cache::Dirty };
    }

    /// Takes on a decomposition of the matrix as it is, unless one of the eigenvalues
    /// it was made from is not greater than zero: a matrix with such an eigenvalue is
    /// not positive definite, the error is `PosDefCov`, and no decomposition is known.
    pub fn set_decomposition(&mut self, eigenvalues: &Vec<Scalar>, decomposition: Decomposition) -> (r:
        Result<(), TerminationReason>)
        requires
            decomposition.fits(old(self).dimensions()),
        ensures
            final(self).sound(),
            final(self).dimensions() == old(self).dimensions(),
            forall|i: int, j: int| final(self).entry(i, j) == old(self).entry(i, j),
            r is Ok <==> all_positive(eigenvalues@),
            r is Ok ==> final(self).known() == Some(decomposition),
            r is Err ==> r->Err_0 == TerminationReason::PosDefCov && final(self).known() is None,
    {
        proof {
            use_type_invariant(&*self);
        }
        let mut before = CovarianceMatrix { dim: 0, rows: Vec::new(), cache: Cache::Dirty };
        std::mem::swap(&mut before, self);
        let CovarianceMatrix { dim, rows, cache: _ } = before;
        let checked = check_eigenvalues(eigenvalues);
        let cache = match checked {
            Ok(()) => Cache::Clean { decomposition, of: Ghost(rows@) },
            Err(_) => Cache::Dirty,
        };
        *self = CovarianceMatrix { dim, rows, cache };
        checked
    }

    /// The decomposition of the matrix as it is, if it is known: it is from when one
    /// is taken on until the matrix is next written to.
    pub fn decomposition(&self) -> (r: Option<&Decomposition>)
        ensures
            r is Some <==> self.known() is Some,
            r matches Some(d) ==> Some(*d) == self.known() && d.fits(self.dimensions()),
    {
        proof {
            use_type_invariant(self);
        }
        match &self.cache {
            Cache::Clean { decomposition, .. } => Some(decomposition),
            Cache::Dirty => None,
        }
    }
}

/// The rows of the identity matrix.
fn identity_rows(dim: usize) -> (rows: Vec<Vec<Scalar>>)
    ensures
        square(rows@, dim as nat),
        forall|i: int, j: int|
            0 <= i < dim && 0 <= j < dim ==> (#[trigger] rows@[i]@[j]).bits == if i == j {
                ONE_BITS
            } else {
                0
            },
{
    let mut rows: Vec<Vec<Scalar>> = Vec::new();
    let mut i: usize = 0;
    while i < dim
        invariant
            i <= dim,
            rows@.len() == i,
            forall|a: int| 0 <= a < i ==> (#[trigger] rows@[a])@.len() == dim,
            forall|a: int, b: int|
                0 <= a < i && 0 <= b < dim ==> (#[trigger] rows@[a]@[b]).bits == if a == b {
                    ONE_BITS
                } else {
                    0
                },
        decreases dim - i,
    {
        let mut row: Vec<Scalar> = Vec::new();
        let mut j: usize = 0;
        while j < dim
            invariant
                j <= dim,
                row@.len() == j,
                forall|b: int|
                    0 <= b < j ==> (#[trigger] row@[b]).bits == if i == b {
                        ONE_BITS
                    } else {
                        0
                    },
            decreases dim - j,
        {
            row.push(Scalar::from_bits(if i == j { ONE_BITS } else { 0 }));
            j += 1;
        }
        rows.push(row);
        i += 1;
    }
    rows
}

/// A covariance matrix is symmetric, whatever has been written to it.
pub proof fn lemma_symmetric(matrix: &CovarianceMatrix, i: int, j: int)
    requires
        matrix.sound(),
        0 <= i < matrix.dimensions(),
        0 <= j < matrix.dimensions(),
    ensures
        matrix.entry(i, j) == matrix.entry(j, i),
{
}

} // verus!
