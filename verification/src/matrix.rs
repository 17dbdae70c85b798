//! Matrices with compile-time dimensions over a scalar type, and the
//! column-vector operations the renderer's geometry is written with.
use vstd::prelude::*;

verus! {

/// A type with a zero value.
pub trait Zero: Sized {
    spec fn spec_zero() -> Self;

    fn zero() -> (r: Self)
        ensures
            r == Self::spec_zero(),
    ;
}

impl Zero for i32 {
    open spec fn spec_zero() -> Self {
        0
    }

    fn zero() -> Self {
        0
    }
}

impl Zero for i64 {
    open spec fn spec_zero() -> Self {
        0
    }

    fn zero() -> Self {
        0
    }
}

/// What every matrix element must be: copyable, with a zero to start
/// accumulations from.
pub trait Mobile: Zero + Copy {

}

impl<T: Zero + Copy> Mobile for T {

}

/// Elementwise multiplication, with its precondition and meaning stated
/// per scalar type.
pub trait Product: Sized {
    spec fn times_req(self, other: Self) -> bool;

    spec fn spec_times(self, other: Self) -> Self;

    fn times(self, other: Self) -> (r: Self)
        requires
            self.times_req(other),
        ensures
            r == self.spec_times(other),
    ;
}

impl Product for i32 {
    open spec fn times_req(self, other: Self) -> bool {
        i32::MIN <= self * other <= i32::MAX
    }

    open spec fn spec_times(self, other: Self) -> Self {
        (self * other) as i32
    }

    fn times(self, other: Self) -> Self {
        self * other
    }
}

impl Product for i64 {
    open spec fn times_req(self, other: Self) -> bool {
        i64::MIN <= self * other <= i64::MAX
    }

    open spec fn spec_times(self, other: Self) -> Self {
        (self * other) as i64
    }

    fn times(self, other: Self) -> Self {
        self * other
    }
}

/// An `M` by `N` matrix stored row-major.
#[derive(Debug, Copy, Clone)]
pub struct Matrix<T, const M: usize, const N: usize> {
    data: [[T; N]; M],
}

/// A single value as a one-by-one matrix.
pub type Scalar<T> = Matrix<T, 1, 1>;

/// A column vector of length `L`.
pub type Vector<T, const L: usize> = Matrix<T, L, 1>;

impl<T: Mobile, const M: usize, const N: usize> Matrix<T, M, N> {
    /// The element in row `m`, column `n`.
    pub closed spec fn at(self, m: int, n: int) -> T {
        self.data@[m]@[n]
    }

    /// `at`, taking machine indices.
    pub open spec fn at_u(self, m: usize, n: usize) -> T {
        self.at(m as int, n as int)
    }

    pub fn new(data: [[T; N]; M]) -> (r: Self)
        ensures
            forall|m: int, n: int| 0 <= m < M && 0 <= n < N ==> r.at(m, n) == data@[m]@[n],
    {
        Matrix { data }
    }

    /// The elements as rows of columns.
    pub fn row_major(&self) -> (r: [[T; N]; M])
        ensures
            forall|m: int, n: int| 0 <= m < M && 0 <= n < N ==> r@[m]@[n] == self.at(m, n),
    {
        self.data
    }

    /// The elements as columns of rows.
    pub fn col_major(&self) -> (r: [[T; M]; N])
        ensures
            forall|m: int, n: int| 0 <= m < M && 0 <= n < N ==> r@[n]@[m] == self.at(m, n),
    {
        self.transpose().data
    }

    pub fn rows(&self) -> (r: usize)
        ensures
            r == M,
    {
        M
    }

    pub fn cols(&self) -> (r: usize)
        ensures
            r == N,
    {
        N
    }

    pub fn set(&mut self, m: usize, n: usize, val: T)
        requires
            m < M,
            n < N,
        ensures
            final(self).at(m as int, n as int) == val,
            forall|m2: int, n2: int| 0 <= m2 < M && 0 <= n2 < N && !(m2 == m && n2 == n)
                ==> final(self).at(m2, n2) == old(self).at(m2, n2),
    {
        let mut row = self.data[m];
        row.set(n, val);
        self.data.set(m, row);
    }

    pub fn value_at(&self, m: usize, n: usize) -> (r: &T)
        requires
            m < M,
            n < N,
        ensures
            *r == self.at(m as int, n as int),
    {
        &self.data[m][n]
    }

    /// Row `m` as a one-row matrix.
    pub fn row(&self, m: usize) -> (r: Matrix<T, 1, N>)
        requires
            m < M,
        ensures
            forall|n: int| 0 <= n < N ==> r.at(0, n) == self.at(m as int, n),
    {
        let rr = gen_matrix(
            |_mm: usize, n: usize| -> (v: T)
                requires
                    n < N,
                ensures
                    v == self.at_u(m, n)
                { *self.value_at(m, n) },
        );
        rr
    }

    /// Column `n` as a column vector.
    pub fn col(&self, n: usize) -> (r: Matrix<T, M, 1>)
        requires
            n < N,
        ensures
            forall|m: int| 0 <= m < M ==> r.at(m, 0) == self.at(m, n as int),
    {
        let rr = gen_matrix(
            |m: usize, _nn: usize| -> (v: T)
                requires
                    m < M,
                ensures
                    v == self.at_u(m, n)
                { *self.value_at(m, n) },
        );
        rr
    }

    /// The matrix flipped over its diagonal.
    pub fn transpose(&self) -> (r: Matrix<T, N, M>)
        ensures
            forall|m: int, n: int| 0 <= m < M && 0 <= n < N ==> r.at(n, m) == self.at(m, n),
    {
        let rr = gen_matrix(
            |m: usize, n: usize| -> (v: T)
                requires
                    m < N,
                    n < M,
                ensures
                    v == self.at_u(n, m)
                { *self.value_at(n, m) },
        );
        rr
    }

    fn zero() -> (r: Self)
        ensures
            forall|m: int, n: int| 0 <= m < M && 0 <= n < N ==> r.at(m, n) == T::spec_zero(),
    {
        let z = T::zero();
        Matrix { data: [[z; N]; M] }
    }
}

/// Builds an `M` by `N` matrix by asking `gen` for each element.
pub fn gen_matrix<G, T, const M: usize, const N: usize>(gen: G) -> (r: Matrix<T, M, N>) where
    G: Fn(usize, usize) -> T,
    T: Mobile,

    requires
        forall|m: usize, n: usize| m < M && n < N ==> gen.requires((m, n)),
    ensures
        forall|m: int, n: int| 0 <= m < M && 0 <= n < N ==> gen.ensures(
            (m as usize, n as usize),
            #[trigger] r.at(m, n),
        ),
{
    let mut result: Matrix<T, M, N> = Matrix::zero();
    let mut m: usize = 0;
    while m < M
        invariant
            m <= M,
            forall|m2: usize, n2: usize| m2 < M && n2 < N ==> gen.requires((m2, n2)),
            forall|m2: int, n2: int| 0 <= m2 < m && 0 <= n2 < N ==> gen.ensures(
                (m2 as usize, n2 as usize),
                #[trigger] result.at(m2, n2),
            ),
        decreases M - m,
    {
        let mut n: usize = 0;
        while n < N
            invariant
                m < M,
                n <= N,
                forall|m2: usize, n2: usize| m2 < M && n2 < N ==> gen.requires((m2, n2)),
                forall|m2: int, n2: int| 0 <= m2 < m && 0 <= n2 < N ==> gen.ensures(
                    (m2 as usize, n2 as usize),
                    #[trigger] result.at(m2, n2),
                ),
                forall|n2: int| 0 <= n2 < n ==> gen.ensures(
                    (m, n2 as usize),
                    #[trigger] result.at(m as int, n2),
                ),
            decreases N - n,
        {
            let val = gen(m, n);
            result.set(m, n, val);
            n += 1;
        }
        m += 1;
    }
    result
}

impl<T: Mobile> Matrix<T, 3, 1> {
    /// Extends a three-vector with a fourth component.
    pub fn vec4(v: Vector<T, 3>, item: T) -> (r: Vector<T, 4>)
        ensures
            r.at(0, 0) == v.at(0, 0),
            r.at(1, 0) == v.at(1, 0),
            r.at(2, 0) == v.at(2, 0),
            r.at(3, 0) == item,
    {
        Matrix::new(
            [[*v.value_at(0, 0)], [*v.value_at(1, 0)], [*v.value_at(2, 0)], [item]],
        )
    }
}

impl<T: Mobile> Matrix<T, 4, 1> {
    /// The first three components of a four-vector.
    pub fn vec3(&self) -> (r: Vector<T, 3>)
        ensures
            r.at(0, 0) == self.at(0, 0),
            r.at(1, 0) == self.at(1, 0),
            r.at(2, 0) == self.at(2, 0),
    {
        Matrix::new([[*self.value_at(0, 0)], [*self.value_at(1, 0)], [*self.value_at(2, 0)]])
    }
}

impl<T: Mobile, const L: usize> Matrix<T, L, 1> {
    /// A column vector from its components.
    pub fn vector(data: [T; L]) -> (r: Self)
        ensures
            forall|m: int| 0 <= m < L ==> r.at(m, 0) == data@[m],
    {
        let row: Matrix<T, 1, L> = Matrix::new([data]);
        row.transpose()
    }
}

/// Element `m` of the elementwise product of two vectors.
pub open spec fn vec_multiply_elem<T: Mobile + Product, const L: usize>(
    a: Vector<T, L>,
    b: Vector<T, L>,
    m: usize,
) -> T {
    a.at(m as int, 0).spec_times(b.at(m as int, 0))
}

impl<T: Mobile + Product, const L: usize> Matrix<T, L, 1> {
    /// Elementwise product of two vectors.
    pub fn vec_multiply(self, other: Vector<T, L>) -> (r: Self)
        requires
            forall|m: int| 0 <= m < L ==> #[trigger] self.at(m, 0).times_req(other.at(m, 0)),
        ensures
            forall|m: int| 0 <= m < L ==> #[trigger] r.at(m, 0) == self.at(m, 0).spec_times(
                other.at(m, 0),
            ),
    {
        let rr = gen_matrix(
            |m: usize, _nn: usize| -> (v: T)
                requires
                    m < L,
                ensures
                    v == vec_multiply_elem(self, other, m)
                { self.value_at(m, 0).times(*other.value_at(m, 0)) },
        );
        rr
    }
}

} // verus!
