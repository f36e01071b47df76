//! Dense matrices of a real scalar type, held as `nalgebra` matrices and
//! tracked by their shape.

use vstd::prelude::*;

verus! {

/// Ordered scalar types. Every real number type that the matrices of this
/// library hold (each `nalgebra::RealField`) is one.
pub trait MatrixNum: PartialOrd {

}

impl<T: PartialOrd> MatrixNum for T {

}

/// Relies on `nalgebra::DMatrix` to hold the entries of a matrix. Each wrapper
/// below reads the shape of the matrix it built back with `nrows` and `ncols`
/// and keeps it beside the entries in `RealMatrix`.
#[verifier::external_body]
#[verifier::reject_recursive_types(T)]
struct Entries<T> {
    m: nalgebra::DMatrix<T>,
}

/// How a matrix was computed: the expression of matrix operations, over the
/// entries it was built from, whose result it holds. The operations are those
/// of `nalgebra` in the scalar type's own arithmetic, so two matrices with one
/// term hold the same entries.
#[verifier::reject_recursive_types(T)]
pub enum MatrixTerm<T> {
    /// Given entries, row by row, of a `rows × cols` matrix.
    Entries(nat, nat, Seq<T>),
    /// The `rows × cols` zero matrix.
    Zeros(nat, nat),
    /// The `n × n` identity.
    Identity(nat),
    Transpose(Box<MatrixTerm<T>>),
    Product(Box<MatrixTerm<T>>, Box<MatrixTerm<T>>),
    Sum(Box<MatrixTerm<T>>, Box<MatrixTerm<T>>),
    Difference(Box<MatrixTerm<T>>, Box<MatrixTerm<T>>),
    Inverse(Box<MatrixTerm<T>>),
}

/// `aᵗ`.
pub open spec fn transpose_of<T>(a: MatrixTerm<T>) -> MatrixTerm<T> {
    MatrixTerm::Transpose(Box::new(a))
}

/// `a·b`.
pub open spec fn product_of<T>(a: MatrixTerm<T>, b: MatrixTerm<T>) -> MatrixTerm<T> {
    MatrixTerm::Product(Box::new(a), Box::new(b))
}

/// `a + b`.
pub open spec fn sum_of<T>(a: MatrixTerm<T>, b: MatrixTerm<T>) -> MatrixTerm<T> {
    MatrixTerm::Sum(Box::new(a), Box::new(b))
}

/// `a − b`.
pub open spec fn difference_of<T>(a: MatrixTerm<T>, b: MatrixTerm<T>) -> MatrixTerm<T> {
    MatrixTerm::Difference(Box::new(a), Box::new(b))
}

/// `a⁻¹`.
pub open spec fn inverse_of<T>(a: MatrixTerm<T>) -> MatrixTerm<T> {
    MatrixTerm::Inverse(Box::new(a))
}

/// A dense `rows × cols` matrix of real numbers.
#[verifier::reject_recursive_types(T)]
pub struct RealMatrix<T> {
    rows: usize,
    cols: usize,
    data: Entries<T>,
    term: Ghost<MatrixTerm<T>>,
}

impl<T> RealMatrix<T> {
    /// Number of rows.
    pub closed spec fn rows(&self) -> nat {
        self.rows as nat
    }

    /// Number of columns.
    pub closed spec fn cols(&self) -> nat {
        self.cols as nat
    }

    /// The expression whose value the matrix holds.
    pub closed spec fn term(&self) -> MatrixTerm<T> {
        self.term@
    }

    /// Whether the matrix is `rows × cols`.
    pub open spec fn has_shape(&self, rows: nat, cols: nat) -> bool {
        self.rows() == rows && self.cols() == cols
    }

    /// Whether the matrix is square of size `n`.
    pub open spec fn is_square(&self, n: nat) -> bool {
        self.has_shape(n, n)
    }
}

impl<T: nalgebra::RealField> RealMatrix<T> {
    /// The number of rows.
    pub fn nrows(&self) -> (r: usize)
        ensures
            r == self.rows(),
    {
        self.rows
    }

    /// The number of columns.
    pub fn ncols(&self) -> (r: usize)
        ensures
            r == self.cols(),
    {
        self.cols
    }

    /// Relies on indexing of `nalgebra::Matrix` by `(row, column)`: the entry
    /// at `(i, j)`, which for a matrix built from a slice row by row is item
    /// `i * cols + j` of the slice; it panics outside the matrix.
    #[verifier::external_body]
    pub fn entry(&self, i: usize, j: usize) -> (r: T)
        requires
            i < self.rows(),
            j < self.cols(),
        ensures
            self.term() matches MatrixTerm::Entries(_, c, v) ==> r == v[i * c + j],
    {
        self.data.m[(i, j)].clone()
    }

    /// Relies on `nalgebra::DMatrix::from_row_slice`: a `rows × cols` matrix
    /// filled row by row; it panics unless the slice holds `rows * cols` items.
    #[verifier::external_body]
    pub fn from_row_slice(rows: usize, cols: usize, values: &[T]) -> (r: Self)
        requires
            values@.len() == rows * cols,
        ensures
            r.has_shape(rows as nat, cols as nat),
            r.term() == MatrixTerm::Entries(rows as nat, cols as nat, values@),
    {
        let m = nalgebra::DMatrix::from_row_slice(rows, cols, values);
        let term = Ghost(MatrixTerm::Entries(rows as nat, cols as nat, values@));
        RealMatrix { rows: m.nrows(), cols: m.ncols(), data: Entries { m }, term }
    }

    /// Relies on `nalgebra::DMatrix::zeros`: a `rows × cols` matrix of zeros.
    #[verifier::external_body]
    pub(crate) fn zeros(rows: usize, cols: usize) -> (r: Self)
        ensures
            r.has_shape(rows as nat, cols as nat),
            r.term() == MatrixTerm::<T>::Zeros(rows as nat, cols as nat),
    {
        let m = nalgebra::DMatrix::zeros(rows, cols);
        let term = Ghost(MatrixTerm::Zeros(rows as nat, cols as nat));
        RealMatrix { rows: m.nrows(), cols: m.ncols(), data: Entries { m }, term }
    }

    /// Relies on `nalgebra::DMatrix::identity`: the `n × n` identity matrix.
    #[verifier::external_body]
    pub(crate) fn identity(n: usize) -> (r: Self)
        ensures
            r.is_square(n as nat),
            r.term() == MatrixTerm::<T>::Identity(n as nat),
    {
        let m = nalgebra::DMatrix::identity(n, n);
        let term = Ghost(MatrixTerm::Identity(n as nat));
        RealMatrix { rows: m.nrows(), cols: m.ncols(), data: Entries { m }, term }
    }

    /// Relies on `Clone` of `nalgebra::DMatrix`: a copy of the same shape.
    #[verifier::external_body]
    pub fn duplicate(&self) -> (r: Self)
        ensures
            r.has_shape(self.rows(), self.cols()),
            r.term() == self.term(),
    {
        let m = self.data.m.clone();
        RealMatrix { rows: m.nrows(), cols: m.ncols(), data: Entries { m }, term: self.term }
    }

    /// Relies on `nalgebra::Matrix::transpose`: the transpose is `cols × rows`.
    #[verifier::external_body]
    pub(crate) fn transpose(&self) -> (r: Self)
        ensures
            r.has_shape(self.cols(), self.rows()),
            r.term() == transpose_of(self.term()),
    {
        let m = self.data.m.transpose();
        let term = Ghost(transpose_of(self.term@));
        RealMatrix { rows: m.nrows(), cols: m.ncols(), data: Entries { m }, term }
    }

    /// Relies on `Mul` of `&nalgebra::Matrix`: the product of a `r × k` and a
    /// `k × c` matrix is `r × c`; it panics when the inner sizes differ.
    #[verifier::external_body]
    pub(crate) fn mul(&self, other: &Self) -> (r: Self)
        requires
            self.cols() == other.rows(),
        ensures
            r.has_shape(self.rows(), other.cols()),
            r.term() == product_of(self.term(), other.term()),
    {
        let m = &self.data.m * &other.data.m;
        let term = Ghost(product_of(self.term@, other.term@));
        RealMatrix { rows: m.nrows(), cols: m.ncols(), data: Entries { m }, term }
    }

    /// Relies on `Add` of `&nalgebra::Matrix`: the entrywise sum keeps the
    /// shape; it panics when the shapes differ.
    #[verifier::external_body]
    pub(crate) fn add(&self, other: &Self) -> (r: Self)
        requires
            other.has_shape(self.rows(), self.cols()),
        ensures
            r.has_shape(self.rows(), self.cols()),
            r.term() == sum_of(self.term(), other.term()),
    {
        let m = &self.data.m + &other.data.m;
        let term = Ghost(sum_of(self.term@, other.term@));
        RealMatrix { rows: m.nrows(), cols: m.ncols(), data: Entries { m }, term }
    }

    /// Relies on `Sub` of `&nalgebra::Matrix`: the entrywise difference keeps
    /// the shape; it panics when the shapes differ.
    #[verifier::external_body]
    pub(crate) fn sub(&self, other: &Self) -> (r: Self)
        requires
            other.has_shape(self.rows(), self.cols()),
        ensures
            r.has_shape(self.rows(), self.cols()),
            r.term() == difference_of(self.term(), other.term()),
    {
        let m = &self.data.m - &other.data.m;
        let term = Ghost(difference_of(self.term@, other.term@));
        RealMatrix { rows: m.nrows(), cols: m.ncols(), data: Entries { m }, term }
    }

    /// Relies on `nalgebra::Matrix::try_inverse`: `None` when the square
    /// matrix is not invertible, else its inverse, of the same size; it
    /// panics on a matrix that is not square.
    #[verifier::external_body]
    pub(crate) fn try_inverse(&self) -> (r: Option<Self>)
        requires
            self.rows() == self.cols(),
        ensures
            r matches Some(m) ==> m.is_square(self.rows()) && m.term() == inverse_of(self.term()),
    {
        let term = Ghost(inverse_of(self.term@));
        match self.data.m.clone().try_inverse() {
            Some(m) => Some(
                RealMatrix { rows: m.nrows(), cols: m.ncols(), data: Entries { m }, term },
            ),
            None => None,
        }
    }
}

} // verus!
