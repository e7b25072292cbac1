//! Every interval operation contains every result of the operation on values of its
//! operand intervals.
use vstd::prelude::*;
use vstd::arithmetic::div_mod::{
    lemma_div_is_ordered, lemma_div_is_ordered_by_denominator, lemma_div_pos_is_pos,
};

use crate::data_type::{in_int_range, DataType};
use crate::error::DataFusionError;
use crate::scalar::{scalar_int, scalar_is_null, scalar_type, ScalarValue};
use crate::interval::{
    max4, min4, spec_add, spec_try_new, spec_div, spec_mul, spec_negate, spec_sub, trunc_div, view_contains,
    IntervalView,
};

verus! {

proof fn lemma_trunc_div_nonneg(x: int, y: int)
    requires
        x >= 0,
        y > 0,
    ensures
        trunc_div(x, y) == x / y,
        trunc_div(x, y) >= 0,
{
    lemma_div_pos_is_pos(x, y);
}

proof fn lemma_trunc_div_neg_num(x: int, y: int)
    requires
        x < 0,
        y > 0,
    ensures
        trunc_div(x, y) == -((-x) / y),
        trunc_div(x, y) <= 0,
{
    lemma_div_pos_is_pos(-x, y);
}

proof fn lemma_trunc_div_neg_den(x: int, y: int)
    requires
        y < 0,
    ensures
        trunc_div(x, y) == -trunc_div(x, -y),
{
    if x >= 0 {
        lemma_div_pos_is_pos(x, -y);
    } else {
        lemma_div_pos_is_pos(-x, -y);
    }
}

/// Division by a positive number rounding toward zero is monotone in the dividend.
proof fn lemma_trunc_div_mono_num(x1: int, x2: int, y: int)
    requires
        x1 <= x2,
        y > 0,
    ensures
        trunc_div(x1, y) <= trunc_div(x2, y),
{
    if x1 >= 0 {
        lemma_trunc_div_nonneg(x1, y);
        lemma_trunc_div_nonneg(x2, y);
        lemma_div_is_ordered(x1, x2, y);
    } else if x2 < 0 {
        lemma_trunc_div_neg_num(x1, y);
        lemma_trunc_div_neg_num(x2, y);
        lemma_div_is_ordered(-x2, -x1, y);
    } else {
        lemma_trunc_div_neg_num(x1, y);
        lemma_trunc_div_nonneg(x2, y);
    }
}

/// For a fixed dividend, division rounding toward zero by positive numbers moves
/// toward zero as the divisor grows.
proof fn lemma_trunc_div_mono_den(x: int, y1: int, y2: int)
    requires
        0 < y1 <= y2,
    ensures
        x >= 0 ==> trunc_div(x, y1) >= trunc_div(x, y2),
        x < 0 ==> trunc_div(x, y1) <= trunc_div(x, y2),
{
    if x >= 0 {
        lemma_trunc_div_nonneg(x, y1);
        lemma_trunc_div_nonneg(x, y2);
        lemma_div_is_ordered_by_denominator(x, y1, y2);
    } else {
        lemma_trunc_div_neg_num(x, y1);
        lemma_trunc_div_neg_num(x, y2);
        lemma_div_is_ordered_by_denominator(-x, y1, y2);
    }
}

/// The quotient of a value of [a, b] by a value of [c, d], where [c, d] holds only
/// positive numbers, lies between the quotients of the bounds.
proof fn lemma_trunc_div_box_pos(a: int, b: int, c: int, d: int, u: int, v: int)
    requires
        a <= u <= b,
        0 < c <= v <= d,
    ensures
        min4(trunc_div(a, c), trunc_div(a, d), trunc_div(b, c), trunc_div(b, d)) <= trunc_div(
            u,
            v,
        ) <= max4(trunc_div(a, c), trunc_div(a, d), trunc_div(b, c), trunc_div(b, d)),
{
    lemma_trunc_div_mono_num(a, u, v);
    lemma_trunc_div_mono_num(u, b, v);
    lemma_trunc_div_mono_den(a, c, v);
    lemma_trunc_div_mono_den(a, v, d);
    lemma_trunc_div_mono_den(b, c, v);
    lemma_trunc_div_mono_den(b, v, d);
}

/// The quotient of a value of [a, b] by a value of [c, d], where [c, d] does not
/// hold zero, lies between the quotients of the bounds.
proof fn lemma_trunc_div_box(a: int, b: int, c: int, d: int, u: int, v: int)
    requires
        a <= u <= b,
        c <= v <= d,
        !(c <= 0 <= d),
    ensures
        min4(trunc_div(a, c), trunc_div(a, d), trunc_div(b, c), trunc_div(b, d)) <= trunc_div(
            u,
            v,
        ) <= max4(trunc_div(a, c), trunc_div(a, d), trunc_div(b, c), trunc_div(b, d)),
{
    if c > 0 {
        lemma_trunc_div_box_pos(a, b, c, d, u, v);
    } else {
        lemma_trunc_div_box_pos(a, b, -d, -c, u, -v);
        lemma_trunc_div_neg_den(a, c);
        lemma_trunc_div_neg_den(a, d);
        lemma_trunc_div_neg_den(b, c);
        lemma_trunc_div_neg_den(b, d);
        lemma_trunc_div_neg_den(u, v);
    }
}

proof fn lemma_mul_between(a: int, b: int, u: int, v: int)
    requires
        a <= u <= b,
    ensures
        v >= 0 ==> a * v <= u * v <= b * v,
        v < 0 ==> b * v <= u * v <= a * v,
{
    if v >= 0 {
        assert(a * v <= u * v) by (nonlinear_arith)
            requires
                a <= u,
                v >= 0,
        ;
        assert(u * v <= b * v) by (nonlinear_arith)
            requires
                u <= b,
                v >= 0,
        ;
    } else {
        assert(u * v <= a * v) by (nonlinear_arith)
            requires
                a <= u,
                v < 0,
        ;
        assert(b * v <= u * v) by (nonlinear_arith)
            requires
                u <= b,
                v < 0,
        ;
    }
}

proof fn lemma_mul_box(a: int, b: int, c: int, d: int, u: int, v: int)
    requires
        a <= u <= b,
        c <= v <= d,
    ensures
        min4(a * c, a * d, b * c, b * d) <= u * v <= max4(a * c, a * d, b * c, b * d),
{
    lemma_mul_between(a, b, u, v);
    lemma_mul_between(c, d, v, a);
    lemma_mul_between(c, d, v, b);
    assert(v * a == a * v && c * a == a * c && d * a == a * d) by (nonlinear_arith);
    assert(v * b == b * v && c * b == b * c && d * b == b * d) by (nonlinear_arith);
}

/// Negation of an interval holds the negation of each of its values.
pub proof fn lemma_negate_contains(x: IntervalView, r: IntervalView, u: int)
    requires
        spec_negate(x) == Ok::<IntervalView, crate::error::DataFusionError>(r),
        view_contains(x, u),
    ensures
        view_contains(r, -u),
{
}

/// The sum of two intervals holds the sum of any value of each.
pub proof fn lemma_add_contains(x: IntervalView, y: IntervalView, r: IntervalView, u: int, v: int)
    requires
        spec_add(x, y) == Ok::<IntervalView, crate::error::DataFusionError>(r),
        view_contains(x, u),
        view_contains(y, v),
    ensures
        view_contains(r, u + v),
{
}

/// The difference of two intervals holds the difference of any value of each.
pub proof fn lemma_sub_contains(x: IntervalView, y: IntervalView, r: IntervalView, u: int, v: int)
    requires
        spec_sub(x, y) == Ok::<IntervalView, crate::error::DataFusionError>(r),
        view_contains(x, u),
        view_contains(y, v),
    ensures
        view_contains(r, u - v),
{
}

/// The product of two intervals holds the product of any value of each.
pub proof fn lemma_mul_contains(x: IntervalView, y: IntervalView, r: IntervalView, u: int, v: int)
    requires
        spec_mul(x, y) == Ok::<IntervalView, crate::error::DataFusionError>(r),
        view_contains(x, u),
        view_contains(y, v),
    ensures
        view_contains(r, u * v),
{
    if let (Some((a, b)), Some((c, d))) = (x.1, y.1) {
        lemma_mul_box(a, b, c, d, u, v);
    }
}

/// The quotient of two intervals holds the quotient, rounded toward zero, of any
/// value of the first by any nonzero value of the second.
pub proof fn lemma_div_contains(x: IntervalView, y: IntervalView, r: IntervalView, u: int, v: int)
    requires
        spec_div(x, y) == Ok::<IntervalView, crate::error::DataFusionError>(r),
        view_contains(x, u),
        view_contains(y, v),
        v != 0,
    ensures
        view_contains(r, trunc_div(u, v)),
{
    if let (Some((a, b)), Some((c, d))) = (x.1, y.1) {
        if !(c <= 0 <= d) {
            lemma_trunc_div_box(a, b, c, d, u, v);
        }
    }
}

/// The sum of two integers.
pub open spec fn sum_of(u: int, v: int) -> int {
    u + v
}

/// The difference of two integers.
pub open spec fn difference_of(u: int, v: int) -> int {
    u - v
}

/// The negation of an integer.
pub open spec fn negation_of(u: int) -> int {
    -u
}

/// The sum of two bounded intervals of one integer type is exactly the interval from
/// the least to the greatest sum of their values: where `lo` and `hi` are sums of
/// values of the operands that bound every such sum, the result is [lo, hi] when both
/// are values of the type, and an overflow otherwise.
pub proof fn lemma_add_is_exact(
    t: DataType,
    a: int,
    b: int,
    c: int,
    d: int,
    lo: int,
    hi: int,
    u1: int,
    v1: int,
    u2: int,
    v2: int,
)
    requires
        a <= u1 <= b && c <= v1 <= d && u1 + v1 == lo,
        a <= u2 <= b && c <= v2 <= d && u2 + v2 == hi,
        forall|u: int, v: int| a <= u <= b && c <= v <= d ==> lo <= #[trigger] sum_of(u, v) <= hi,
    ensures
        spec_add((t, Some((a, b))), (t, Some((c, d)))) == if in_int_range(t, lo) && in_int_range(
            t,
            hi,
        ) {
            Ok::<IntervalView, DataFusionError>((t, Some((lo, hi))))
        } else {
            Err::<IntervalView, DataFusionError>(DataFusionError::ArithmeticOverflow)
        },
{
    assert(lo <= sum_of(a, c));
    assert(sum_of(b, d) <= hi);
}

/// The difference of two bounded intervals of one integer type is exactly the
/// interval from the least to the greatest difference of their values, or an
/// overflow where one of those is not a value of the type.
pub proof fn lemma_sub_is_exact(
    t: DataType,
    a: int,
    b: int,
    c: int,
    d: int,
    lo: int,
    hi: int,
    u1: int,
    v1: int,
    u2: int,
    v2: int,
)
    requires
        a <= u1 <= b && c <= v1 <= d && u1 - v1 == lo,
        a <= u2 <= b && c <= v2 <= d && u2 - v2 == hi,
        forall|u: int, v: int|
            a <= u <= b && c <= v <= d ==> lo <= #[trigger] difference_of(u, v) <= hi,
    ensures
        spec_sub((t, Some((a, b))), (t, Some((c, d)))) == if in_int_range(t, lo) && in_int_range(
            t,
            hi,
        ) {
            Ok::<IntervalView, DataFusionError>((t, Some((lo, hi))))
        } else {
            Err::<IntervalView, DataFusionError>(DataFusionError::ArithmeticOverflow)
        },
{
    assert(lo <= difference_of(a, d));
    assert(difference_of(b, c) <= hi);
}

/// The product of two bounded intervals of one integer type is exactly the interval
/// from the least to the greatest product of their values, or an overflow where one
/// of those is not a value of the type.
pub proof fn lemma_mul_is_exact(
    t: DataType,
    a: int,
    b: int,
    c: int,
    d: int,
    lo: int,
    hi: int,
    u1: int,
    v1: int,
    u2: int,
    v2: int,
)
    requires
        a <= u1 <= b && c <= v1 <= d && u1 * v1 == lo,
        a <= u2 <= b && c <= v2 <= d && u2 * v2 == hi,
        forall|u: int, v: int| a <= u <= b && c <= v <= d ==> lo <= #[trigger] (u * v) <= hi,
    ensures
        spec_mul((t, Some((a, b))), (t, Some((c, d)))) == if in_int_range(t, lo) && in_int_range(
            t,
            hi,
        ) {
            Ok::<IntervalView, DataFusionError>((t, Some((lo, hi))))
        } else {
            Err::<IntervalView, DataFusionError>(DataFusionError::ArithmeticOverflow)
        },
{
    assert(lo <= a * c && a * c <= hi);
    assert(lo <= a * d && a * d <= hi);
    assert(lo <= b * c && b * c <= hi);
    assert(lo <= b * d && b * d <= hi);
    lemma_mul_box(a, b, c, d, u1, v1);
    lemma_mul_box(a, b, c, d, u2, v2);
}

/// The quotient, rounded toward zero, of a bounded interval by a bounded interval of
/// the same integer type without zero is exactly the interval from the least to the
/// greatest quotient of their values, or an overflow where one of those is not a
/// value of the type.
pub proof fn lemma_div_is_exact(
    t: DataType,
    a: int,
    b: int,
    c: int,
    d: int,
    lo: int,
    hi: int,
    u1: int,
    v1: int,
    u2: int,
    v2: int,
)
    requires
        !(c <= 0 <= d),
        a <= u1 <= b && c <= v1 <= d && trunc_div(u1, v1) == lo,
        a <= u2 <= b && c <= v2 <= d && trunc_div(u2, v2) == hi,
        forall|u: int, v: int|
            a <= u <= b && c <= v <= d ==> lo <= #[trigger] trunc_div(u, v) <= hi,
    ensures
        spec_div((t, Some((a, b))), (t, Some((c, d)))) == if in_int_range(t, lo) && in_int_range(
            t,
            hi,
        ) {
            Ok::<IntervalView, DataFusionError>((t, Some((lo, hi))))
        } else {
            Err::<IntervalView, DataFusionError>(DataFusionError::ArithmeticOverflow)
        },
{
    assert(lo <= trunc_div(a, c) <= hi);
    assert(lo <= trunc_div(a, d) <= hi);
    assert(lo <= trunc_div(b, c) <= hi);
    assert(lo <= trunc_div(b, d) <= hi);
    lemma_trunc_div_box(a, b, c, d, u1, v1);
    lemma_trunc_div_box(a, b, c, d, u2, v2);
}

/// A divisor interval that holds zero gives a quotient interval without bounds.
pub proof fn lemma_div_by_interval_with_zero(t: DataType, a: int, b: int, c: int, d: int)
    requires
        c <= 0 <= d,
    ensures
        spec_div((t, Some((a, b))), (t, Some((c, d)))) == Ok::<IntervalView, DataFusionError>(
            (t, None),
        ),
{
}

/// The negation of a bounded interval of a signed integer type is exactly the
/// interval from the least to the greatest negated value, or an overflow where one
/// of those is not a value of the type; an unsigned interval cannot be negated.
pub proof fn lemma_negate_is_exact(t: DataType, a: int, b: int, lo: int, hi: int, u1: int, u2: int)
    requires
        a <= u1 <= b && -u1 == lo,
        a <= u2 <= b && -u2 == hi,
        forall|u: int| a <= u <= b ==> lo <= #[trigger] negation_of(u) <= hi,
    ensures
        spec_negate((t, Some((a, b)))) == if !(t == DataType::Int8 || t == DataType::Int16 || t
            == DataType::Int32 || t == DataType::Int64) {
            Err::<IntervalView, DataFusionError>(DataFusionError::UnsupportedNegation)
        } else if in_int_range(t, lo) && in_int_range(t, hi) {
            Ok::<IntervalView, DataFusionError>((t, Some((lo, hi))))
        } else {
            Err::<IntervalView, DataFusionError>(DataFusionError::ArithmeticOverflow)
        },
{
    assert(lo <= negation_of(b));
    assert(negation_of(a) <= hi);
}

/// Arithmetic on intervals of different types is a type mismatch; where the types
/// agree and an operand has no bounds, the result has no bounds; the negation of an
/// interval without bounds is itself.
pub proof fn lemma_interval_ops_on_mismatch_or_unbounded(x: IntervalView, y: IntervalView)
    ensures
        x.0 != y.0 ==> spec_add(x, y) == Err::<IntervalView, DataFusionError>(
            DataFusionError::TypeMismatch,
        ) && spec_sub(x, y) == Err::<IntervalView, DataFusionError>(DataFusionError::TypeMismatch)
            && spec_mul(x, y) == Err::<IntervalView, DataFusionError>(
            DataFusionError::TypeMismatch,
        ) && spec_div(x, y) == Err::<IntervalView, DataFusionError>(DataFusionError::TypeMismatch),
        x.0 == y.0 && (x.1 is None || y.1 is None) ==> spec_add(x, y) == Ok::<
            IntervalView,
            DataFusionError,
        >((x.0, None)) && spec_sub(x, y) == Ok::<IntervalView, DataFusionError>((x.0, None))
            && spec_mul(x, y) == Ok::<IntervalView, DataFusionError>((x.0, None)) && spec_div(x, y)
            == Ok::<IntervalView, DataFusionError>((x.0, None)),
        x.1 is None ==> spec_negate(x) == Ok::<IntervalView, DataFusionError>(x),
{
}

/// Two non-null integer endpoints of one type, the lower not greater than the upper,
/// form the interval between them; two null endpoints of one type form the interval
/// without bounds; endpoints of different types, a null with a non-null endpoint, or a
/// lower endpoint greater than the upper do not form an interval.
pub proof fn lemma_try_new_is_exact(lower: ScalarValue, upper: ScalarValue)
    ensures
        scalar_type(lower) == scalar_type(upper) && scalar_int(lower) is Some && scalar_int(upper) is Some
            && scalar_int(lower).unwrap() <= scalar_int(upper).unwrap() ==> spec_try_new(lower, upper)
            == Ok::<IntervalView, DataFusionError>(
            (scalar_type(lower), Some((scalar_int(lower).unwrap(), scalar_int(upper).unwrap()))),
        ),
        scalar_type(lower) == scalar_type(upper) && scalar_is_null(lower) && scalar_is_null(upper)
            ==> spec_try_new(lower, upper) == Ok::<IntervalView, DataFusionError>(
            (scalar_type(lower), None),
        ),
        scalar_type(lower) != scalar_type(upper) || scalar_is_null(lower) != scalar_is_null(upper)
            || (scalar_int(lower) is Some && scalar_int(upper) is Some && scalar_int(lower).unwrap()
            > scalar_int(upper).unwrap()) ==> spec_try_new(lower, upper) == Err::<
            IntervalView,
            DataFusionError,
        >(DataFusionError::InvalidInterval),
{
}

} // verus!
