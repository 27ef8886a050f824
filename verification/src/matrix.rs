//! Square matrices of size 2, 3 or 4, stored in a 4x4 grid.
//!
//! The determinant is computed by cofactor expansion along row 0, and the
//! inverse by the adjugate divided by the determinant; inversion fails
//! exactly when the determinant is exactly zero.

use vstd::prelude::*;

verus! {

use crate::fixed::{Fx, fx_add, fx_sub, fx_neg, fx_mul, fx_div, iabs, SCALE};
use crate::tuple::Tuple;

/// Matrix entries differing by at most 1e-4 per cell count as equal.
pub const EPS_MAT_RAW: i64 = 429497;

/// A square matrix; only the leading `size` x `size` block is meaningful,
/// the rest of the 4x4 grid is zero.
#[derive(Clone, Debug)]
pub struct Matrix {
    pub size: usize,
    pub v: Vec<Fx>,
}

/// Entry `(r, c)` of a 16-entry row-major grid.
pub open spec fn g_at(m: Seq<Fx>, r: int, c: int) -> Fx {
    m[r * 4 + c]
}

/// The grid of the submatrix dropping `row` and `col` from a `size` matrix.
pub open spec fn spec_sub_rep(m: Seq<Fx>, size: nat, row: int, col: int) -> Seq<Fx> {
    Seq::new(
        16,
        |i: int|
            {
                let y = i / 4;
                let x = i % 4;
                if y < size - 1 && x < size - 1 {
                    g_at(
                        m,
                        if y < row {
                            y
                        } else {
                            y + 1
                        },
                        if x < col {
                            x
                        } else {
                            x + 1
                        },
                    )
                } else {
                    Fx { raw: 0 }
                }
            },
    )
}

/// Determinant by cofactor expansion along row 0 (2x2 in closed form).
pub open spec fn spec_det(m: Seq<Fx>, size: nat) -> Fx
    decreases size, 2nat, 0nat,
{
    if size == 2 {
        fx_sub(fx_mul(g_at(m, 0, 0), g_at(m, 1, 1)), fx_mul(g_at(m, 0, 1), g_at(m, 1, 0)))
    } else {
        spec_det_sum(m, size, size)
    }
}

/// Partial cofactor expansion: the first `k` terms of row 0.
pub open spec fn spec_det_sum(m: Seq<Fx>, size: nat, k: nat) -> Fx
    decreases size, 1nat, k,
{
    if k == 0 {
        Fx { raw: 0 }
    } else {
        fx_add(
            spec_det_sum(m, size, (k - 1) as nat),
            fx_mul(g_at(m, 0, k - 1), spec_cofactor(m, size, 0, (k - 1) as nat)),
        )
    }
}

/// Cofactor: the minor, negated when `row + col` is odd.
pub open spec fn spec_cofactor(m: Seq<Fx>, size: nat, row: nat, col: nat) -> Fx
    decreases size, 0nat, 0nat,
    when size >= 1
{
    let minor = spec_det(spec_sub_rep(m, size, row as int, col as int), (size - 1) as nat);
    if (row + col) % 2 == 0 {
        minor
    } else {
        fx_neg(minor)
    }
}

/// The grid of the transpose (zero outside the `size` block).
pub open spec fn spec_transpose_rep(m: Seq<Fx>, size: nat) -> Seq<Fx> {
    Seq::new(
        16,
        |i: int|
            {
                let y = i / 4;
                let x = i % 4;
                if y < size && x < size {
                    g_at(m, x, y)
                } else {
                    Fx { raw: 0 }
                }
            },
    )
}

/// The grid of the inverse: transposed cofactors divided by the determinant.
pub open spec fn spec_inverse_rep(m: Seq<Fx>, size: nat) -> Seq<Fx> {
    Seq::new(
        16,
        |i: int|
            {
                let y = i / 4;
                let x = i % 4;
                if y < size && x < size {
                    fx_div(spec_cofactor(m, size, x as nat, y as nat), spec_det(m, size))
                } else {
                    Fx { raw: 0 }
                }
            },
    )
}

/// The first `k` terms of the product entry at `(y, x)`.
pub open spec fn spec_mm_sum(a: Seq<Fx>, b: Seq<Fx>, y: int, x: int, k: nat) -> Fx
    decreases k,
{
    if k == 0 {
        Fx { raw: 0 }
    } else {
        fx_add(
            spec_mm_sum(a, b, y, x, (k - 1) as nat),
            fx_mul(g_at(a, y, k - 1), g_at(b, k - 1, x)),
        )
    }
}

/// The grid of the matrix product (entries outside the block keep `a`'s).
pub open spec fn spec_mm_rep(a: Seq<Fx>, b: Seq<Fx>, size: nat) -> Seq<Fx> {
    Seq::new(
        16,
        |i: int|
            {
                let y = i / 4;
                let x = i % 4;
                if y < size && x < size {
                    spec_mm_sum(a, b, y, x, size)
                } else {
                    a[i]
                }
            },
    )
}

/// One component of a matrix-tuple product.
pub open spec fn spec_mt_row(m: Seq<Fx>, t: Tuple, n: int) -> Fx {
    fx_add(
        fx_add(
            fx_add(fx_mul(g_at(m, n, 0), t.x), fx_mul(g_at(m, n, 1), t.y)),
            fx_mul(g_at(m, n, 2), t.z),
        ),
        fx_mul(g_at(m, n, 3), t.w),
    )
}

/// Matrix-tuple product; components beyond the block are zero.
pub open spec fn spec_mul_tuple(m: Seq<Fx>, size: nat, t: Tuple) -> Tuple {
    Tuple {
        x: if 0 < size {
            spec_mt_row(m, t, 0)
        } else {
            Fx { raw: 0 }
        },
        y: if 1 < size {
            spec_mt_row(m, t, 1)
        } else {
            Fx { raw: 0 }
        },
        z: if 2 < size {
            spec_mt_row(m, t, 2)
        } else {
            Fx { raw: 0 }
        },
        w: if 3 < size {
            spec_mt_row(m, t, 3)
        } else {
            Fx { raw: 0 }
        },
    }
}

/// The 4x4 identity grid.
pub open spec fn spec_identity_rep() -> Seq<Fx> {
    Seq::new(
        16,
        |i: int|
            if i == 0 || i == 5 || i == 10 || i == 15 {
                Fx { raw: SCALE }
            } else {
                Fx { raw: 0 }
            },
    )
}

/// Entrywise tolerance equality over the whole 4x4 grid, within about 1e-4.
pub open spec fn matrix_approx(a: Seq<Fx>, b: Seq<Fx>) -> bool {
    forall|i: int| 0 <= i < 16 ==> iabs(a[i]@ - b[i]@) <= EPS_MAT_RAW as int
}

impl Matrix {
    /// A matrix is well formed when its grid has 16 entries and its size is
    /// at most 4.
    pub open spec fn wf(self) -> bool {
        self.size <= 4 && self.v@.len() == 16
    }

    pub open spec fn rep(self) -> Seq<Fx> {
        self.v@
    }

    /// The 4x4 identity matrix.
    pub fn identity() -> (r: Matrix)
        ensures
            r.wf(),
            r.size == 4,
            r.rep() =~= spec_identity_rep(),
    {
        let mut v: Vec<Fx> = Vec::new();
        let mut i: usize = 0;
        while i < 16
            invariant
                i <= 16,
                v@.len() == i,
                forall|j: int| 0 <= j < i ==> v@[j] == spec_identity_rep()[j],
            decreases 16 - i,
        {
            if i == 0 || i == 5 || i == 10 || i == 15 {
                v.push(Fx { raw: SCALE });
            } else {
                v.push(Fx { raw: 0 });
            }
            i = i + 1;
        }
        Matrix { size: 4, v }
    }

    /// Build a 4x4 matrix from rows.
    pub fn from4(rows: [[Fx; 4]; 4]) -> (r: Matrix)
        ensures
            r.wf(),
            r.size == 4,
            forall|j: int| 0 <= j < 16 ==> r.rep()[j] == rows[j / 4][j % 4],
            forall|y: int, x: int|
                0 <= y < 4 && 0 <= x < 4 ==> g_at(r.rep(), y, x) == rows[y][x],
    {
        let mut v: Vec<Fx> = Vec::new();
        let mut i: usize = 0;
        while i < 16
            invariant
                i <= 16,
                v@.len() == i,
                forall|j: int| 0 <= j < i ==> v@[j] == rows[j / 4][j % 4],
            decreases 16 - i,
        {
            v.push(rows[i / 4][i % 4]);
            i = i + 1;
        }
        Matrix { size: 4, v }
    }

    /// Build a 3x3 matrix from rows; the rest of the grid is zero.
    pub fn from3(rows: [[Fx; 3]; 3]) -> (r: Matrix)
        ensures
            r.wf(),
            r.size == 3,
            forall|y: int, x: int|
                0 <= y < 3 && 0 <= x < 3 ==> g_at(r.rep(), y, x) == rows[y][x],
            forall|y: int, x: int|
                0 <= y < 4 && 0 <= x < 4 && (y >= 3 || x >= 3) ==> g_at(r.rep(), y, x) == (Fx {
                    raw: 0,
                }),
    {
        let mut v: Vec<Fx> = Vec::new();
        let mut i: usize = 0;
        while i < 16
            invariant
                i <= 16,
                v@.len() == i,
                forall|j: int|
                    0 <= j < i ==> v@[j] == if j / 4 < 3 && j % 4 < 3 {
                        rows[j / 4][j % 4]
                    } else {
                        Fx { raw: 0 }
                    },
            decreases 16 - i,
        {
            let y = i / 4;
            let x = i % 4;
            if y < 3 && x < 3 {
                v.push(rows[y][x]);
            } else {
                v.push(Fx { raw: 0 });
            }
            i = i + 1;
        }
        Matrix { size: 3, v }
    }

    /// Build a 2x2 matrix from rows; the rest of the grid is zero.
    pub fn from2(rows: [[Fx; 2]; 2]) -> (r: Matrix)
        ensures
            r.wf(),
            r.size == 2,
            forall|y: int, x: int|
                0 <= y < 2 && 0 <= x < 2 ==> g_at(r.rep(), y, x) == rows[y][x],
    {
        let mut v: Vec<Fx> = Vec::new();
        let mut i: usize = 0;
        while i < 16
            invariant
                i <= 16,
                v@.len() == i,
                forall|j: int|
                    0 <= j < i ==> v@[j] == if j / 4 < 2 && j % 4 < 2 {
                        rows[j / 4][j % 4]
                    } else {
                        Fx { raw: 0 }
                    },
            decreases 16 - i,
        {
            let y = i / 4;
            let x = i % 4;
            if y < 2 && x < 2 {
                v.push(rows[y][x]);
            } else {
                v.push(Fx { raw: 0 });
            }
            i = i + 1;
        }
        Matrix { size: 2, v }
    }

    /// Read the entry at `(r, c)` of the 4x4 grid.
    pub fn at(&self, r: usize, c: usize) -> (e: Fx)
        requires
            self.wf(),
            r < 4,
            c < 4,
        ensures
            e == g_at(self.rep(), r as int, c as int),
    {
        self.v[r * 4 + c]
    }

    /// The transpose.
    pub fn transpose(&self) -> (r: Matrix)
        requires
            self.wf(),
        ensures
            r.wf(),
            r.size == self.size,
            r.rep() =~= spec_transpose_rep(self.rep(), self.size as nat),
    {
        let mut v: Vec<Fx> = Vec::new();
        let mut i: usize = 0;
        while i < 16
            invariant
                self.wf(),
                i <= 16,
                v@.len() == i,
                forall|j: int|
                    0 <= j < i ==> v@[j] == spec_transpose_rep(self.rep(), self.size as nat)[j],
            decreases 16 - i,
        {
            let y = i / 4;
            let x = i % 4;
            if y < self.size && x < self.size {
                v.push(self.at(x, y));
            } else {
                v.push(Fx { raw: 0 });
            }
            i = i + 1;
        }
        Matrix { size: self.size, v }
    }

    /// The submatrix dropping one row and one column.
    pub fn submatrix(&self, row: usize, col: usize) -> (r: Matrix)
        requires
            self.wf(),
            1 <= self.size,
            row < 4,
            col < 4,
        ensures
            r.wf(),
            r.size == self.size - 1,
            r.rep() =~= spec_sub_rep(self.rep(), self.size as nat, row as int, col as int),
    {
        let size = self.size - 1;
        let mut v: Vec<Fx> = Vec::new();
        let mut i: usize = 0;
        while i < 16
            invariant
                self.wf(),
                size == self.size - 1,
                i <= 16,
                v@.len() == i,
                forall|j: int|
                    0 <= j < i ==> v@[j] == spec_sub_rep(
                        self.rep(),
                        self.size as nat,
                        row as int,
                        col as int,
                    )[j],
            decreases 16 - i,
        {
            let y = i / 4;
            let x = i % 4;
            if y < size && x < size {
                let y2 = if y < row {
                    y
                } else {
                    y + 1
                };
                let x2 = if x < col {
                    x
                } else {
                    x + 1
                };
                v.push(self.at(y2, x2));
            } else {
                v.push(Fx { raw: 0 });
            }
            i = i + 1;
        }
        Matrix { size, v }
    }

    /// Determinant by cofactor expansion along row 0.
    pub fn determinant(&self) -> (d: Fx)
        requires
            self.wf(),
        ensures
            d == spec_det(self.rep(), self.size as nat),
        decreases self.size, 2int,
    {
        if self.size == 2 {
            self.at(0, 0).mul(self.at(1, 1)).sub(self.at(0, 1).mul(self.at(1, 0)))
        } else {
            let mut acc = Fx { raw: 0 };
            let mut k: usize = 0;
            while k < self.size
                invariant
                    self.wf(),
                    self.size != 2,
                    k <= self.size,
                    acc == spec_det_sum(self.rep(), self.size as nat, k as nat),
                decreases self.size - k,
            {
                acc = acc.add(self.at(0, k).mul(self.cofactor(0, k)));
                k = k + 1;
            }
            acc
        }
    }

    /// The determinant of the submatrix dropping `(r, c)`.
    pub fn minor(&self, r: usize, c: usize) -> (d: Fx)
        requires
            self.wf(),
            1 <= self.size,
            r < 4,
            c < 4,
        ensures
            d == spec_det(
                spec_sub_rep(self.rep(), self.size as nat, r as int, c as int),
                (self.size - 1) as nat,
            ),
        decreases self.size, 0int,
    {
        self.submatrix(r, c).determinant()
    }

    /// The signed minor.
    pub fn cofactor(&self, r: usize, c: usize) -> (d: Fx)
        requires
            self.wf(),
            1 <= self.size,
            r < 4,
            c < 4,
        ensures
            d == spec_cofactor(self.rep(), self.size as nat, r as nat, c as nat),
        decreases self.size, 1int,
    {
        let minor = self.minor(r, c);
        if (r + c) % 2 == 0 {
            minor
        } else {
            minor.neg()
        }
    }

    /// Whether the determinant is exactly nonzero.
    pub fn is_invertible(&self) -> (r: bool)
        requires
            self.wf(),
        ensures
            r == (spec_det(self.rep(), self.size as nat)@ != 0),
    {
        let d = self.determinant();
        d.raw != 0
    }

    /// The inverse: transposed cofactors divided by the determinant.  Fails
    /// exactly when the determinant is exactly zero.
    pub fn inverse(&self) -> (r: Result<Matrix, ()>)
        requires
            self.wf(),
            1 <= self.size,
        ensures
            r is Err <==> spec_det(self.rep(), self.size as nat)@ == 0,
            r matches Ok(m) ==> m.wf() && m.size == self.size && m.rep() =~= spec_inverse_rep(
                self.rep(),
                self.size as nat,
            ),
    {
        let det = self.determinant();
        if det.raw == 0 {
            return Err(());
        }
        let mut v: Vec<Fx> = Vec::new();
        let mut i: usize = 0;
        while i < 16
            invariant
                self.wf(),
                1 <= self.size,
                det == spec_det(self.rep(), self.size as nat),
                i <= 16,
                v@.len() == i,
                forall|j: int|
                    0 <= j < i ==> v@[j] == spec_inverse_rep(self.rep(), self.size as nat)[j],
            decreases 16 - i,
        {
            let y = i / 4;
            let x = i % 4;
            if y < self.size && x < self.size {
                v.push(self.cofactor(x, y).div(det));
            } else {
                v.push(Fx { raw: 0 });
            }
            i = i + 1;
        }
        Ok(Matrix { size: self.size, v })
    }

    /// Matrix product; entries outside the block keep the left operand's.
    pub fn mul_mat(&self, rhs: &Matrix) -> (r: Matrix)
        requires
            self.wf(),
            rhs.wf(),
            self.size == rhs.size,
        ensures
            r.wf(),
            r.size == self.size,
            r.rep() =~= spec_mm_rep(self.rep(), rhs.rep(), self.size as nat),
    {
        let mut v: Vec<Fx> = Vec::new();
        let mut i: usize = 0;
        while i < 16
            invariant
                self.wf(),
                rhs.wf(),
                self.size == rhs.size,
                i <= 16,
                v@.len() == i,
                forall|j: int|
                    0 <= j < i ==> v@[j] == spec_mm_rep(self.rep(), rhs.rep(), self.size as nat)[j],
            decreases 16 - i,
        {
            let y = i / 4;
            let x = i % 4;
            if y < self.size && x < self.size {
                let mut acc = Fx { raw: 0 };
                let mut k: usize = 0;
                while k < self.size
                    invariant
                        self.wf(),
                        rhs.wf(),
                        self.size == rhs.size,
                        y < 4,
                        x < 4,
                        k <= self.size,
                        acc == spec_mm_sum(self.rep(), rhs.rep(), y as int, x as int, k as nat),
                    decreases self.size - k,
                {
                    acc = acc.add(self.at(y, k).mul(rhs.at(k, x)));
                    k = k + 1;
                }
                v.push(acc);
            } else {
                v.push(self.v[i]);
            }
            i = i + 1;
        }
        Matrix { size: self.size, v }
    }

    /// Matrix-tuple product.
    pub fn mul_tuple(&self, t: Tuple) -> (r: Tuple)
        requires
            self.wf(),
        ensures
            r == spec_mul_tuple(self.rep(), self.size as nat, t),
    {
        let x = if 0 < self.size {
            self.row_dot(0, t)
        } else {
            Fx { raw: 0 }
        };
        let y = if 1 < self.size {
            self.row_dot(1, t)
        } else {
            Fx { raw: 0 }
        };
        let z = if 2 < self.size {
            self.row_dot(2, t)
        } else {
            Fx { raw: 0 }
        };
        let w = if 3 < self.size {
            self.row_dot(3, t)
        } else {
            Fx { raw: 0 }
        };
        Tuple { x, y, z, w }
    }

    fn row_dot(&self, n: usize, t: Tuple) -> (r: Fx)
        requires
            self.wf(),
            n < 4,
        ensures
            r == spec_mt_row(self.rep(), t, n as int),
    {
        self.at(n, 0).mul(t.x).add(self.at(n, 1).mul(t.y)).add(self.at(n, 2).mul(t.z)).add(
            self.at(n, 3).mul(t.w),
        )
    }

    /// Tolerance-based equality over the whole 4x4 grid.
    pub fn approx_eq(&self, rhs: &Matrix) -> (r: bool)
        requires
            self.wf(),
            rhs.wf(),
        ensures
            r == matrix_approx(self.rep(), rhs.rep()),
    {
        let mut i: usize = 0;
        while i < 16
            invariant
                self.wf(),
                rhs.wf(),
                i <= 16,
                forall|j: int| 0 <= j < i ==> iabs(self.rep()[j]@ - rhs.rep()[j]@) <= EPS_MAT_RAW as int,
            decreases 16 - i,
        {
            let a = self.v[i];
            let b = rhs.v[i];
            let d: i128 = (a.raw as i128) - (b.raw as i128);
            let m: i128 = if d < 0 {
                -d
            } else {
                d
            };
            if m > EPS_MAT_RAW as i128 {
                return false;
            }
            i = i + 1;
        }
        true
    }
}

} // verus!
