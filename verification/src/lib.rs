//! Geometric primitives for a renderer: a four-component homogeneous
//! coordinate tuple unifying points and vectors, with componentwise
//! arithmetic and tolerance-based equality.
//!
//! Scalars are fixed-point reals: an `i64` counts millionths of a whole
//! ([`SCALE`] units per whole). Scaling a tuple rounds each component toward
//! zero, so results of arithmetic can drift by a fraction of a unit; the
//! equality relation absorbs such drift by comparing within a fixed
//! tolerance ([`EPSILON`]) instead of exactly.

mod tuple;

pub use crate::tuple::Tuple;
pub use crate::tuple::TupleModel;

use vstd::prelude::*;

verus! {

/// Fixed-point units per whole: scalars are counted in millionths.
pub const SCALE: i64 = 1_000_000;

/// Comparison tolerance, in fixed-point units: a hundred-thousandth of a
/// whole. Two scalars closer than this are treated as equal.
pub const EPSILON: i64 = 10;

/// Two scalars are equal enough when they differ by strictly less than
/// [`EPSILON`]. Symmetric and reflexive, but not transitive: two values each
/// within tolerance of a shared midpoint need not be within tolerance of
/// each other.
pub open spec fn approx_eq(a: int, b: int) -> bool {
    (if a >= b { a - b } else { b - a }) < EPSILON
}

/// Tolerance-based scalar comparison: true if and only if the two values
/// differ by strictly less than [`EPSILON`] (strict less-than, never
/// less-than-or-equal). Total: no pair of scalars is rejected.
pub fn float_eq(a: i64, b: i64) -> (r: bool)
    ensures
        r == approx_eq(a as int, b as int),
{
    let d: i128 = (a as i128) - (b as i128);
    let m: i128 = if d < 0 {
        -d
    } else {
        d
    };
    m < (EPSILON as i128)
}

} // verus!
