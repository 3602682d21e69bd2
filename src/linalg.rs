//! Four-component vectors and 4x4 matrices over a scalar type `T`.
//!
//! Storage convention: a matrix holds its sixteen entries in one flat array in
//! column-major order, so the entry in row `i` and column `j` lives at index
//! `4 * j + i`. This is the layout that GPU uniform upload expects.
//!
//! Composition law: `a.mul(&b)` is the standard product `a · b`, whose entry
//! `(i, j)` is `a(i, 0) * b(0, j) + a(i, 1) * b(1, j) + a(i, 2) * b(2, j) + a(i, 3) * b(3, j)`.
//! Applied to a column vector `v`, `(a · b) v == a (b v)`: `b` acts first, then `a`.
//!
//! The constructors and the product are generic over the scalar. Their
//! contracts state the exact entries for scalars whose `From<i8>`, `Neg`,
//! `Add` and `Mul` follow vstd's specifications (the machine integers); for
//! other scalars, such as `f32`, the same code runs with the scalar's own
//! arithmetic.
use vstd::prelude::*;
use vstd::std_specs::convert::FromSpec;
use core::ops::Neg;
use vstd::std_specs::ops::{AddSpec, MulSpec, NegSpec};

verus! {

/// A four-component vector.
pub struct Vec4<T> {
    pub data: [T; 4],
}

impl<T> Vec4<T> {
    pub fn new(data: [T; 4]) -> (r: Self)
        ensures
            r.data == data,
    {
        Vec4 { data }
    }
}

/// A 4x4 matrix stored column-major: entry `(i, j)` (row `i`, column `j`) is `data[4 * j + i]`.
pub struct Mat4<T> {
    pub data: [T; 16],
}

/// Flat position of the entry in row `i` and column `j`.
pub open spec fn flat_index(i: int, j: int) -> int {
    4 * j + i
}

/// The scalar that `T::from(v)` gives, for a `T` that follows vstd's specification of `From<i8>`.
pub open spec fn scalar<T: From<i8>>(v: i8) -> T {
    <T as FromSpec<i8>>::from_spec(v)
}

/// `T::from` on `i8` follows vstd's specification.
pub open spec fn obeys_from<T: From<i8>>() -> bool {
    <T as FromSpec<i8>>::obeys_from_spec()
}

/// `+` and `*` on `T` follow vstd's specifications.
pub open spec fn obeys_arith<T: core::ops::Add<Output = T> + core::ops::Mul<Output = T>>() -> bool {
    <T as AddSpec<T>>::obeys_add_spec() && <T as MulSpec<T>>::obeys_mul_spec()
}

/// `+` and `*` on `T` are defined for every pair of operands (they never panic).
pub open spec fn total_arith<T: core::ops::Add<Output = T> + core::ops::Mul<Output = T>>() -> bool {
    &&& forall|x: T, y: T| #[trigger] x.add_req(y)
    &&& forall|x: T, y: T| #[trigger] x.mul_req(y)
}

impl<T> Mat4<T> {
    /// The entry in row `i` and column `j`.
    pub open spec fn at(self, i: int, j: int) -> T {
        self.data@[flat_index(i, j)]
    }
}

/// Entry `(i, j)` of the product `a · b`, summed left to right over `k = 0..4`.
pub open spec fn product_entry<T: core::ops::Add<Output = T> + core::ops::Mul<Output = T>>(
    a: Mat4<T>,
    b: Mat4<T>,
    i: int,
    j: int,
) -> T {
    a.at(i, 0).mul_spec(b.at(0, j)).add_spec(a.at(i, 1).mul_spec(b.at(1, j))).add_spec(
        a.at(i, 2).mul_spec(b.at(2, j)),
    ).add_spec(a.at(i, 3).mul_spec(b.at(3, j)))
}

/// Every multiplication and addition in computing entry `(i, j)` of `a · b` is defined,
/// for a `T` whose arithmetic follows vstd's specifications.
pub open spec fn entry_defined<T: core::ops::Add<Output = T> + core::ops::Mul<Output = T>>(
    a: Mat4<T>,
    b: Mat4<T>,
    i: int,
    j: int,
) -> bool {
    let p0 = a.at(i, 0).mul_spec(b.at(0, j));
    let p1 = a.at(i, 1).mul_spec(b.at(1, j));
    let p2 = a.at(i, 2).mul_spec(b.at(2, j));
    let p3 = a.at(i, 3).mul_spec(b.at(3, j));
    &&& a.at(i, 0).mul_req(b.at(0, j))
    &&& a.at(i, 1).mul_req(b.at(1, j))
    &&& a.at(i, 2).mul_req(b.at(2, j))
    &&& a.at(i, 3).mul_req(b.at(3, j))
    &&& p0.add_req(p1)
    &&& p0.add_spec(p1).add_req(p2)
    &&& p0.add_spec(p1).add_spec(p2).add_req(p3)
}

/// The product `a · b` can be computed: either `+` and `*` never fail on `T`, or they
/// follow vstd's specifications and every step of every entry is defined (for machine
/// integers: nothing overflows).
pub open spec fn product_defined<T: core::ops::Add<Output = T> + core::ops::Mul<Output = T>>(
    a: Mat4<T>,
    b: Mat4<T>,
) -> bool {
    ||| total_arith::<T>()
    ||| obeys_arith::<T>() && forall|i: int, j: int|
        0 <= i < 4 && 0 <= j < 4 ==> #[trigger] entry_defined(a, b, i, j)
}

/// `m` is the product `a · b`.
pub open spec fn is_product<T: core::ops::Add<Output = T> + core::ops::Mul<Output = T>>(
    a: Mat4<T>,
    b: Mat4<T>,
    m: Mat4<T>,
) -> bool {
    forall|i: int, j: int|
        0 <= i < 4 && 0 <= j < 4 ==> #[trigger] m.at(i, j) == product_entry(a, b, i, j)
}

/// `m` is zero off the diagonal and has `d0, d1, d2, d3` on it.
pub open spec fn is_diagonal<T>(m: Mat4<T>, zero: T, d0: T, d1: T, d2: T, d3: T) -> bool {
    &&& forall|i: int, j: int| 0 <= i < 4 && 0 <= j < 4 && i != j ==> #[trigger] m.at(i, j) == zero
    &&& m.at(0, 0) == d0
    &&& m.at(1, 1) == d1
    &&& m.at(2, 2) == d2
    &&& m.at(3, 3) == d3
}

/// `m` is the identity matrix of the scalar type `T`.
pub open spec fn is_identity<T: From<i8>>(m: Mat4<T>) -> bool {
    is_diagonal(m, scalar::<T>(0), scalar::<T>(1), scalar::<T>(1), scalar::<T>(1), scalar::<T>(1))
}

impl<T: Copy> Mat4<T> {
    pub fn new(data: [T; 16]) -> (r: Self)
        ensures
            r.data == data,
    {
        Mat4 { data }
    }

    /// Writes the entry in row `i` and column `j`.
    pub fn set(&mut self, i: usize, j: usize, value: T)
        requires
            i < 4,
            j < 4,
        ensures
            final(self).data@ == old(self).data@.update(flat_index(i as int, j as int), value),
    {
        self.data[4 * j + i] = value;
    }

    /// Reads the entry in row `i` and column `j`.
    pub fn get(&self, i: usize, j: usize) -> (r: T)
        requires
            i < 4,
            j < 4,
        ensures
            r == self.at(i as int, j as int),
    {
        self.data[4 * j + i]
    }
}

impl<T: Copy + From<i8>> Mat4<T> {
    /// The diagonal matrix with `d0 .. d3` on the diagonal and `T::from(0)` elsewhere.
    fn diagonal(d0: T, d1: T, d2: T, d3: T) -> (r: Self)
        ensures
            obeys_from::<T>() ==> is_diagonal(r, scalar::<T>(0), d0, d1, d2, d3),
    {
        let z = T::from(0i8);
        let r = Mat4 { data: [d0, z, z, z, z, d1, z, z, z, z, d2, z, z, z, z, d3] };
        assert(obeys_from::<T>() ==> is_diagonal(r, scalar::<T>(0), d0, d1, d2, d3)) by {
            if obeys_from::<T>() {
                assert forall|i: int, j: int| 0 <= i < 4 && 0 <= j < 4 && i != j implies #[trigger] r.at(
                    i,
                    j,
                ) == scalar::<T>(0) by {
                    assert(0 <= flat_index(i, j) < 16);
                }
            }
        }
        r
    }

    /// The matrix whose every entry is zero.
    pub fn zero() -> (r: Self)
        ensures
            obeys_from::<T>() ==> is_diagonal(
                r,
                scalar::<T>(0),
                scalar::<T>(0),
                scalar::<T>(0),
                scalar::<T>(0),
                scalar::<T>(0),
            ),
    {
        let z = T::from(0i8);
        Self::diagonal(z, z, z, z)
    }

    /// The identity matrix.
    pub fn identity() -> (r: Self)
        ensures
            obeys_from::<T>() ==> is_identity(r),
    {
        let one = T::from(1i8);
        Self::diagonal(one, one, one, one)
    }

    /// Scales the three axes by `xfactor`, `yfactor` and `zfactor`.
    pub fn scale(xfactor: T, yfactor: T, zfactor: T) -> (r: Self)
        ensures
            obeys_from::<T>() ==> is_diagonal(
                r,
                scalar::<T>(0),
                xfactor,
                yfactor,
                zfactor,
                scalar::<T>(1),
            ),
    {
        let one = T::from(1i8);
        Self::diagonal(xfactor, yfactor, zfactor, one)
    }
}

/// The rotation in the plane of axes `p < q`: entries `(p, p) = (q, q) = cos_theta`,
/// `(p, q) = upper`, `(q, p) = lower`, the rest of the diagonal one and all else zero.
pub open spec fn is_rotation<T: From<i8>>(
    m: Mat4<T>,
    p: int,
    q: int,
    cos_theta: T,
    upper: T,
    lower: T,
) -> bool {
    forall|i: int, j: int|
        0 <= i < 4 && 0 <= j < 4 ==> #[trigger] m.at(i, j) == if (i == p && j == p) || (i == q && j
            == q) {
            cos_theta
        } else if i == p && j == q {
            upper
        } else if i == q && j == p {
            lower
        } else if i == j {
            scalar::<T>(1)
        } else {
            scalar::<T>(0)
        }
}

/// `T::from` on `i8` and unary `-` on `T` follow vstd's specifications.
pub open spec fn obeys_from_neg<T: From<i8> + core::ops::Neg<Output = T>>() -> bool {
    obeys_from::<T>() && <T as NegSpec>::obeys_neg_spec()
}

/// `-x` can be computed: either `-` never fails on `T`, or it follows vstd's
/// specification and is defined on `x` (for machine integers: `x` is not the minimum).
pub open spec fn neg_defined<T: core::ops::Neg<Output = T>>(x: T) -> bool {
    ||| forall|y: T| #[trigger] y.neg_req()
    ||| <T as NegSpec>::obeys_neg_spec() && x.neg_req()
}

impl<T: Copy + From<i8>> Mat4<T> {
    /// The rotation in the plane of axes `p < q` with the given cosine and off-diagonal entries.
    fn rotation(p: usize, q: usize, cos_theta: T, upper: T, lower: T) -> (r: Self)
        requires
            p < q < 3,
        ensures
            obeys_from::<T>() ==> is_rotation(r, p as int, q as int, cos_theta, upper, lower),
    {
        let mut r = Self::identity();
        let ghost r0 = r;
        r.set(p, p, cos_theta);
        r.set(q, q, cos_theta);
        r.set(p, q, upper);
        r.set(q, p, lower);
        proof {
            if obeys_from::<T>() {
                assert forall|i: int, j: int| 0 <= i < 4 && 0 <= j < 4 implies #[trigger] r.at(i, j)
                    == if (i == p && j == p) || (i == q && j == q) {
                    cos_theta
                } else if i == p && j == q {
                    upper
                } else if i == q && j == p {
                    lower
                } else if i == j {
                    scalar::<T>(1)
                } else {
                    scalar::<T>(0)
                } by {
                    assert(0 <= flat_index(i, j) < 16);
                    assert(r0.at(i, j) == if i == j {
                        scalar::<T>(1)
                    } else {
                        scalar::<T>(0)
                    });
                }
            }
        }
        r
    }
}

impl<T: Copy + From<i8> + core::ops::Neg<Output = T>> Mat4<T> {
    /// Rotation by an angle about the x axis, given the angle's cosine and sine
    /// (right-handed: it turns the y axis towards the z axis).
    pub fn rotate_x(cos_theta: T, sin_theta: T) -> (r: Self)
        requires
            neg_defined(sin_theta),
        ensures
            obeys_from_neg::<T>() ==> is_rotation(r, 1, 2, cos_theta, sin_theta.neg_spec(), sin_theta),
    {
        Self::rotation(1, 2, cos_theta, sin_theta.neg(), sin_theta)
    }

    /// Rotation by an angle about the y axis, given the angle's cosine and sine
    /// (right-handed: it turns the z axis towards the x axis).
    pub fn rotate_y(cos_theta: T, sin_theta: T) -> (r: Self)
        requires
            neg_defined(sin_theta),
        ensures
            obeys_from_neg::<T>() ==> is_rotation(r, 0, 2, cos_theta, sin_theta, sin_theta.neg_spec()),
    {
        Self::rotation(0, 2, cos_theta, sin_theta, sin_theta.neg())
    }

    /// Rotation by an angle about the z axis, given the angle's cosine and sine
    /// (right-handed: it turns the x axis towards the y axis).
    pub fn rotate_z(cos_theta: T, sin_theta: T) -> (r: Self)
        requires
            neg_defined(sin_theta),
        ensures
            obeys_from_neg::<T>() ==> is_rotation(r, 0, 1, cos_theta, sin_theta.neg_spec(), sin_theta),
    {
        Self::rotation(0, 1, cos_theta, sin_theta.neg(), sin_theta)
    }
}

impl<T: Copy + core::ops::Add<Output = T> + core::ops::Mul<Output = T>> Mat4<T> {
    /// The product `self · other`.
    pub fn mul(&self, other: &Self) -> (r: Self)
        requires
            product_defined(*self, *other),
        ensures
            obeys_arith::<T>() ==> is_product(*self, *other, r),
    {
        let mut res = Mat4 { data: self.data };
        let mut idx: usize = 0;
        while idx < 16
            invariant
                product_defined(*self, *other),
                idx <= 16,
                obeys_arith::<T>() ==> forall|k: int|
                    0 <= k < idx ==> #[trigger] res.data@[k] == product_entry(
                        *self,
                        *other,
                        k % 4,
                        k / 4,
                    ),
            decreases 16 - idx,
        {
            let i = idx % 4;
            let j = idx / 4;
            proof {
                if !total_arith::<T>() {
                    assert(entry_defined(*self, *other, i as int, j as int));
                }
            }
            let p0 = self.get(i, 0) * other.get(0, j);
            let p1 = self.get(i, 1) * other.get(1, j);
            let p2 = self.get(i, 2) * other.get(2, j);
            let p3 = self.get(i, 3) * other.get(3, j);
            let v = p0 + p1 + p2 + p3;
            res.set(i, j, v);
            idx = idx + 1;
        }
        proof {
            if obeys_arith::<T>() {
                assert forall|i: int, j: int| 0 <= i < 4 && 0 <= j < 4 implies #[trigger] res.at(i, j)
                    == product_entry(*self, *other, i, j) by {
                    let k = flat_index(i, j);
                    assert(k % 4 == i && k / 4 == j);
                }
            }
        }
        res
    }
}

/// `T::from(0)` and `T::from(1)` behave as zero and one under `+` and `*`:
/// `1 * x == x * 1 == x`, `0 * x == x * 0 == 0` and `x + 0 == 0 + x == x` for every `x`.
pub open spec fn unital<T: From<i8> + core::ops::Add<Output = T> + core::ops::Mul<Output = T>>() -> bool {
    forall|x: T|
        {
            &&& #[trigger] scalar::<T>(1).mul_spec(x) == x
            &&& x.mul_spec(scalar::<T>(1)) == x
            &&& scalar::<T>(0).mul_spec(x) == scalar::<T>(0)
            &&& x.mul_spec(scalar::<T>(0)) == scalar::<T>(0)
            &&& x.add_spec(scalar::<T>(0)) == x
            &&& scalar::<T>(0).add_spec(x) == x
        }
}

/// 64-bit integers have units: `T::from(0)` and `T::from(1)` are `0` and `1`.
pub proof fn lemma_i64_unital()
    ensures
        unital::<i64>(),
{
    assert(scalar::<i64>(0) == 0i64 && scalar::<i64>(1) == 1i64);
    assert forall|x: i64| #[trigger] scalar::<i64>(1).mul_spec(x) == x by {
        assert(scalar::<i64>(1).mul_spec(x) == (1 * x) as i64);
    }
    assert forall|x: i64| #[trigger] scalar::<i64>(1).mul_spec(x) == x ==> {
        &&& x.mul_spec(scalar::<i64>(1)) == x
        &&& scalar::<i64>(0).mul_spec(x) == scalar::<i64>(0)
        &&& x.mul_spec(scalar::<i64>(0)) == scalar::<i64>(0)
        &&& x.add_spec(scalar::<i64>(0)) == x
        &&& scalar::<i64>(0).add_spec(x) == x
    } by {
        assert(x.mul_spec(1i64) == (x * 1) as i64);
        assert(0i64.mul_spec(x) == (0 * x) as i64);
        assert(x.mul_spec(0i64) == (x * 0) as i64);
        assert(x.add_spec(0i64) == (x + 0) as i64);
        assert(0i64.add_spec(x) == (0 + x) as i64);
    }
}

/// The identity is neutral for the product on both sides: for every matrix `m`,
/// `identity · m` and `m · identity` both have exactly the entries of `m`, over any
/// scalar whose zero and one act as units.
pub proof fn lemma_identity_neutral<T: From<i8> + core::ops::Add<Output = T> + core::ops::Mul<Output = T>>(
    id: Mat4<T>,
    m: Mat4<T>,
)
    requires
        is_identity(id),
        unital::<T>(),
    ensures
        forall|i: int, j: int|
            0 <= i < 4 && 0 <= j < 4 ==> #[trigger] product_entry(id, m, i, j) == m.at(i, j),
        forall|i: int, j: int|
            0 <= i < 4 && 0 <= j < 4 ==> #[trigger] product_entry(m, id, i, j) == m.at(i, j),
{
    let z = scalar::<T>(0);
    let o = scalar::<T>(1);
    assert forall|i: int, j: int| 0 <= i < 4 && 0 <= j < 4 implies #[trigger] product_entry(id, m, i, j)
        == m.at(i, j) by {
        assert(id.at(i, 0) == if i == 0 { o } else { z });
        assert(id.at(i, 1) == if i == 1 { o } else { z });
        assert(id.at(i, 2) == if i == 2 { o } else { z });
        assert(id.at(i, 3) == if i == 3 { o } else { z });
        let _ = o.mul_spec(m.at(0, j));
        let _ = o.mul_spec(m.at(1, j));
        let _ = o.mul_spec(m.at(2, j));
        let _ = o.mul_spec(m.at(3, j));
        let _ = o.mul_spec(z);
    }
    assert forall|i: int, j: int| 0 <= i < 4 && 0 <= j < 4 implies #[trigger] product_entry(m, id, i, j)
        == m.at(i, j) by {
        assert(id.at(0, j) == if j == 0 { o } else { z });
        assert(id.at(1, j) == if j == 1 { o } else { z });
        assert(id.at(2, j) == if j == 2 { o } else { z });
        assert(id.at(3, j) == if j == 3 { o } else { z });
        let _ = o.mul_spec(m.at(i, 0));
        let _ = o.mul_spec(m.at(i, 1));
        let _ = o.mul_spec(m.at(i, 2));
        let _ = o.mul_spec(m.at(i, 3));
        let _ = o.mul_spec(z);
    }
}

/// A rotation by the zero angle (cosine one, sine zero) about any axis is the identity,
/// over any scalar in which negating zero gives zero.
pub proof fn lemma_zero_rotation_is_identity<T: From<i8> + core::ops::Neg<Output = T>>(
    m: Mat4<T>,
    p: int,
    q: int,
)
    requires
        0 <= p < q < 3,
        scalar::<T>(0).neg_spec() == scalar::<T>(0),
        is_rotation(m, p, q, scalar::<T>(1), scalar::<T>(0).neg_spec(), scalar::<T>(0))
            || is_rotation(m, p, q, scalar::<T>(1), scalar::<T>(0), scalar::<T>(0).neg_spec()),
    ensures
        is_identity(m),
{
    assert(m.at(0, 0) == scalar::<T>(1));
    assert(m.at(1, 1) == scalar::<T>(1));
    assert(m.at(2, 2) == scalar::<T>(1));
    assert(m.at(3, 3) == scalar::<T>(1));
}

} // verus!
