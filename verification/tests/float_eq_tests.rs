use tuple4::float_eq;
use tuple4::EPSILON;

#[test]
fn values_one_unit_apart_are_equal_enough() {
    // One whole against one-and-a-millionth: well inside the tolerance.
    assert!(float_eq(1_000_000, 1_000_001));
    assert!(float_eq(1_000_001, 1_000_000));
}

#[test]
fn the_tolerance_boundary_is_strict() {
    // Exactly EPSILON apart is not equal; one unit less is.
    assert!(!float_eq(0, EPSILON));
    assert!(!float_eq(EPSILON, 0));
    assert!(float_eq(0, EPSILON - 1));
    assert!(float_eq(EPSILON - 1, 0));
    assert!(!float_eq(-EPSILON, 0));
    assert!(float_eq(-(EPSILON - 1), 0));
}

#[test]
fn equal_enough_is_not_transitive() {
    let a: i64 = 0;
    let b: i64 = EPSILON - 1;
    let c: i64 = 2 * (EPSILON - 1);

    assert!(float_eq(a, b));
    assert!(float_eq(b, c));
    assert!(!float_eq(a, c));
}

#[test]
fn extreme_scalars_compare_without_failing() {
    assert!(!float_eq(i64::MIN, i64::MAX));
    assert!(float_eq(i64::MAX, i64::MAX));
    assert!(float_eq(i64::MIN, i64::MIN));
}
