//! The homogeneous coordinate tuple: construction, classification,
//! componentwise arithmetic, and tolerance-based equality.

use vstd::prelude::*;

use crate::approx_eq;
use crate::float_eq;
use crate::SCALE;

verus! {

/// Mathematical model of a tuple: four unbounded integer components, each
/// counting fixed-point units ([`SCALE`](crate::SCALE) to a whole).
pub ghost struct TupleModel {
    pub x: int,
    pub y: int,
    pub z: int,
    pub w: int,
}

/// A four-component homogeneous coordinate value, representing either a
/// point (`w` exactly one whole) or a vector (`w` exactly zero) in 3D space.
///
/// Each component is a fixed-point scalar counting millionths of a whole.
/// The type does not restrict `w`: arithmetic may produce other `w` values
/// (adding two points gives `w` of two wholes), which are well-formed tuples
/// with no point or vector meaning; interpreting them is the caller's
/// responsibility.
///
/// Tuples are immutable values: every operation returns a fresh tuple and
/// never mutates its operands.
#[derive(Clone, Copy, Debug)]
pub struct Tuple {
    pub x: i64,
    pub y: i64,
    pub z: i64,
    pub w: i64,
}

impl View for Tuple {
    type V = TupleModel;

    open spec fn view(&self) -> TupleModel {
        TupleModel { x: self.x as int, y: self.y as int, z: self.z as int, w: self.w as int }
    }
}

/// The model of a tuple built from four given components.
pub open spec fn tuple_model(x: int, y: int, z: int, w: int) -> TupleModel {
    TupleModel { x, y, z, w }
}

/// The model of a point: `w` is exactly one whole.
pub open spec fn point_model(x: int, y: int, z: int) -> TupleModel {
    TupleModel { x, y, z, w: SCALE as int }
}

/// The model of a vector: `w` is exactly zero.
pub open spec fn vector_model(x: int, y: int, z: int) -> TupleModel {
    TupleModel { x, y, z, w: 0 }
}

/// A tuple classifies as a point exactly when `w` equals one whole, with no
/// tolerance.
pub open spec fn is_point_model(t: TupleModel) -> bool {
    t.w == SCALE
}

/// A tuple classifies as a vector exactly when `w` equals zero, with no
/// tolerance.
pub open spec fn is_vector_model(t: TupleModel) -> bool {
    t.w == 0
}

/// A scalar value fits the fixed-point representation.
pub open spec fn fits_scalar(v: int) -> bool {
    i64::MIN <= v <= i64::MAX
}

/// Componentwise sum, the `w` component included.
pub open spec fn add_model(a: TupleModel, b: TupleModel) -> TupleModel {
    TupleModel { x: a.x + b.x, y: a.y + b.y, z: a.z + b.z, w: a.w + b.w }
}

/// Componentwise difference, the `w` component included.
pub open spec fn sub_model(a: TupleModel, b: TupleModel) -> TupleModel {
    TupleModel { x: a.x - b.x, y: a.y - b.y, z: a.z - b.z, w: a.w - b.w }
}

/// Componentwise negation, the `w` component included.
pub open spec fn neg_model(t: TupleModel) -> TupleModel {
    TupleModel { x: -t.x, y: -t.y, z: -t.z, w: -t.w }
}

/// Two tuples are equal enough when all four corresponding components are,
/// each within the comparison tolerance. Symmetric and reflexive; not
/// transitive, since the componentwise tolerance relation is not.
pub open spec fn approx_eq_model(a: TupleModel, b: TupleModel) -> bool {
    approx_eq(a.x, b.x) && approx_eq(a.y, b.y) && approx_eq(a.z, b.z) && approx_eq(a.w, b.w)
}

/// One fixed-point component times a fixed-point scalar: the exact product
/// carries a factor of `SCALE` twice, so it is divided by `SCALE` once,
/// rounding toward zero.
pub open spec fn scale_scalar(c: int, s: int) -> int {
    if c * s >= 0 {
        (c * s) / (SCALE as int)
    } else {
        -((-(c * s)) / (SCALE as int))
    }
}

/// Componentwise scaling, the `w` component included.
pub open spec fn scale_model(t: TupleModel, s: int) -> TupleModel {
    TupleModel {
        x: scale_scalar(t.x, s),
        y: scale_scalar(t.y, s),
        z: scale_scalar(t.z, s),
        w: scale_scalar(t.w, s),
    }
}

/// One component of a scaled tuple, computed by sign and magnitude: the
/// magnitudes are multiplied exactly in 128 bits, divided by `SCALE`, and the
/// sign of the product is restored, which rounds the quotient toward zero.
fn scale_component(c: i64, s: i64) -> (r: i64)
    requires
        fits_scalar(scale_scalar(c as int, s as int)),
    ensures
        r as int == scale_scalar(c as int, s as int),
{
    let cw: i128 = c as i128;
    let sw: i128 = s as i128;
    let ca: u128 = if cw < 0 {
        (-cw) as u128
    } else {
        cw as u128
    };
    let sa: u128 = if sw < 0 {
        (-sw) as u128
    } else {
        sw as u128
    };
    proof {
        assert(ca * sa <= 0x8000000000000000 * 0x8000000000000000) by (nonlinear_arith)
            requires
                ca <= 0x8000000000000000,
                sa <= 0x8000000000000000,
        ;
        assert(ca as int * sa as int == (if c as int * s as int >= 0 {
            c as int * s as int
        } else {
            -(c as int * s as int)
        })) by (nonlinear_arith)
            requires
                ca == (if c as int >= 0 { c as int } else { -(c as int) }),
                sa == (if s as int >= 0 { s as int } else { -(s as int) }),
        ;
    }
    let prod: u128 = ca * sa;
    let q: u128 = prod / 1_000_000;
    let neg: bool = (c < 0) != (s < 0);
    proof {
        assert(!neg ==> (c as int) * (s as int) >= 0) by (nonlinear_arith)
            requires
                neg == ((c < 0) != (s < 0)),
        ;
        assert(neg ==> (c as int) * (s as int) <= 0) by (nonlinear_arith)
            requires
                neg == ((c < 0) != (s < 0)),
        ;
    }
    if neg {
        let qi: i128 = q as i128;
        (-qi) as i64
    } else {
        q as i64
    }
}

impl Tuple {
    /// Builds a tuple from four components, taken verbatim. Total: every
    /// combination of scalars is accepted.
    pub fn tuple(x: i64, y: i64, z: i64, w: i64) -> (r: Tuple)
        ensures
            r@ == tuple_model(x as int, y as int, z as int, w as int),
    {
        Tuple { x, y, z, w }
    }

    /// Builds a point: a tuple whose `w` is exactly one whole.
    pub fn point(x: i64, y: i64, z: i64) -> (r: Tuple)
        ensures
            r@ == point_model(x as int, y as int, z as int),
    {
        Tuple::tuple(x, y, z, SCALE)
    }

    /// Builds a vector: a tuple whose `w` is exactly zero.
    pub fn vector(x: i64, y: i64, z: i64) -> (r: Tuple)
        ensures
            r@ == vector_model(x as int, y as int, z as int),
    {
        Tuple::tuple(x, y, z, 0)
    }

    /// True if and only if `w` is exactly one whole. Exact comparison, no
    /// tolerance: this deliberately differs from tuple equality, which is
    /// tolerance-based, so a tuple can compare equal to a point yet not
    /// classify as one.
    pub fn is_point(&self) -> (r: bool)
        ensures
            r == is_point_model(self@),
    {
        self.w == SCALE
    }

    /// True if and only if `w` is exactly zero. Exact comparison, no
    /// tolerance, mirroring [`Tuple::is_point`].
    pub fn is_vector(&self) -> (r: bool)
        ensures
            r == is_vector_model(self@),
    {
        self.w == 0
    }

    /// Componentwise sum of two tuples, the `w` component included: a point
    /// plus a vector is a point, a vector plus a vector is a vector. The
    /// operands are left untouched. The bounds asked for are only what the
    /// scalar representation forces: each component sum must fit it.
    pub fn add(&self, other: &Tuple) -> (r: Tuple)
        requires
            fits_scalar(self@.x + other@.x),
            fits_scalar(self@.y + other@.y),
            fits_scalar(self@.z + other@.z),
            fits_scalar(self@.w + other@.w),
        ensures
            r@ == add_model(self@, other@),
    {
        Tuple {
            x: self.x + other.x,
            y: self.y + other.y,
            z: self.z + other.z,
            w: self.w + other.w,
        }
    }

    /// Componentwise difference of two tuples, the `w` component included: a
    /// point minus a point is a vector, a point minus a vector is a point, a
    /// vector minus a vector is a vector. The bounds asked for are only what
    /// the scalar representation forces.
    pub fn subtract(&self, other: &Tuple) -> (r: Tuple)
        requires
            fits_scalar(self@.x - other@.x),
            fits_scalar(self@.y - other@.y),
            fits_scalar(self@.z - other@.z),
            fits_scalar(self@.w - other@.w),
        ensures
            r@ == sub_model(self@, other@),
    {
        Tuple {
            x: self.x - other.x,
            y: self.y - other.y,
            z: self.z - other.z,
            w: self.w - other.w,
        }
    }

    /// Componentwise negation, the `w` component included: negating a point
    /// also negates its `w`, breaking point semantics, which is the caller's
    /// responsibility to mind. The bounds asked for are only what the scalar
    /// representation forces.
    pub fn negate(&self) -> (r: Tuple)
        requires
            fits_scalar(-self@.x),
            fits_scalar(-self@.y),
            fits_scalar(-self@.z),
            fits_scalar(-self@.w),
        ensures
            r@ == neg_model(self@),
    {
        Tuple { x: -self.x, y: -self.y, z: -self.z, w: -self.w }
    }

    /// Each component times the scalar, the `w` component included: scaling a
    /// point moves its `w` away from one whole, breaking point semantics,
    /// which is the caller's responsibility to mind. Each product is rounded
    /// toward zero to a whole number of fixed-point units. The bounds asked
    /// for are only what the scalar representation forces: each scaled
    /// component must fit it.
    pub fn scale(&self, s: i64) -> (r: Tuple)
        requires
            fits_scalar(scale_scalar(self@.x, s as int)),
            fits_scalar(scale_scalar(self@.y, s as int)),
            fits_scalar(scale_scalar(self@.z, s as int)),
            fits_scalar(scale_scalar(self@.w, s as int)),
        ensures
            r@ == scale_model(self@, s as int),
    {
        Tuple {
            x: scale_component(self.x, s),
            y: scale_component(self.y, s),
            z: scale_component(self.z, s),
            w: scale_component(self.w, s),
        }
    }
}

// Written by hand because tuple equality is tolerance-based: all four
// corresponding components must lie within the comparison tolerance of each
// other, which a derived field-for-field equality would not express.
impl PartialEq for Tuple {
    fn eq(&self, other: &Tuple) -> (r: bool) {
        float_eq(self.x, other.x) && float_eq(self.y, other.y) && float_eq(self.z, other.z)
            && float_eq(self.w, other.w)
    }
}

impl vstd::std_specs::cmp::PartialEqSpecImpl for Tuple {
    open spec fn obeys_eq_spec() -> bool {
        true
    }

    open spec fn eq_spec(&self, other: &Tuple) -> bool {
        approx_eq_model(self@, other@)
    }
}

/// For all components x, y, z: a point carries them verbatim, its `w` is
/// exactly one whole, and it classifies as a point and not as a vector.
pub proof fn lemma_point_classifies(x: int, y: int, z: int)
    ensures
        point_model(x, y, z).x == x,
        point_model(x, y, z).y == y,
        point_model(x, y, z).z == z,
        point_model(x, y, z).w == SCALE,
        is_point_model(point_model(x, y, z)),
        !is_vector_model(point_model(x, y, z)),
{
}

/// For all components x, y, z: a vector carries them verbatim, its `w` is
/// exactly zero, and it classifies as a vector and not as a point.
pub proof fn lemma_vector_classifies(x: int, y: int, z: int)
    ensures
        vector_model(x, y, z).x == x,
        vector_model(x, y, z).y == y,
        vector_model(x, y, z).z == z,
        vector_model(x, y, z).w == 0,
        is_vector_model(vector_model(x, y, z)),
        !is_point_model(vector_model(x, y, z)),
{
}

/// Adding a vector to a point yields a point.
pub proof fn lemma_point_plus_vector_is_point(p: TupleModel, v: TupleModel)
    requires
        is_point_model(p),
        is_vector_model(v),
    ensures
        is_point_model(add_model(p, v)),
{
}

/// Adding a vector to a vector yields a vector.
pub proof fn lemma_vector_plus_vector_is_vector(u: TupleModel, v: TupleModel)
    requires
        is_vector_model(u),
        is_vector_model(v),
    ensures
        is_vector_model(add_model(u, v)),
{
}

/// Subtracting a point from a point yields a vector.
pub proof fn lemma_point_minus_point_is_vector(p: TupleModel, q: TupleModel)
    requires
        is_point_model(p),
        is_point_model(q),
    ensures
        is_vector_model(sub_model(p, q)),
{
}

/// Subtracting a vector from a point yields a point.
pub proof fn lemma_point_minus_vector_is_point(p: TupleModel, v: TupleModel)
    requires
        is_point_model(p),
        is_vector_model(v),
    ensures
        is_point_model(sub_model(p, v)),
{
}

/// Subtracting a vector from a vector yields a vector.
pub proof fn lemma_vector_minus_vector_is_vector(u: TupleModel, v: TupleModel)
    requires
        is_vector_model(u),
        is_vector_model(v),
    ensures
        is_vector_model(sub_model(u, v)),
{
}

/// Subtracting a vector from the zero vector negates it.
pub proof fn lemma_zero_minus_vector_negates(v: TupleModel)
    requires
        is_vector_model(v),
    ensures
        sub_model(vector_model(0, 0, 0), v) == neg_model(v),
{
}

/// Tuple equality is symmetric: comparing in either order gives the same
/// answer.
pub proof fn lemma_approx_eq_symmetric(a: TupleModel, b: TupleModel)
    ensures
        approx_eq_model(a, b) == approx_eq_model(b, a),
{
}

} // verus!
