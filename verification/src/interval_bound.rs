//! Integer interval bounds of expressions: the range of values an integer expression
//! can take, derived from the ranges of its columns' types and its literals.
use vstd::prelude::*;

use crate::column::Column;
use crate::data_type::{
    in_int_range, int_max, int_min, is_integer_type, signed_width, spec_is_integer_type, DataType,
};
use crate::error::DataFusionError;
use crate::expr::{BinaryExpr, Cast, Expr, Operator};
use crate::interval::{
    lower_scalar, max4, min4, result_view, spec_add, trunc_div, valid_view, view_contains, spec_div, spec_mul, spec_negate, spec_sub,
    spec_try_new, unbounded_view, upper_scalar, Interval, IntervalView,
};
use crate::interval_laws::{
    lemma_add_contains, lemma_div_contains, lemma_mul_contains, lemma_negate_contains,
    lemma_sub_contains,
};
use crate::scalar::{
    int_scalar, lemma_int_scalar_of_scalar_int, lemma_null_of, null_of, lemma_scalar_int_of_int_scalar, scalar_int,
    scalar_type, ScalarValue,
};
use crate::simplify::SimplifyInfo;

verus! {

/// The interval of all values of an integer type; without bounds for other types.
pub open spec fn spec_full_integer_range(dt: DataType) -> IntervalView {
    if spec_is_integer_type(dt) {
        (dt, Some((int_min(dt), int_max(dt))))
    } else {
        unbounded_view(dt)
    }
}

fn full_integer_range(dt: &DataType) -> (r: Result<Interval, DataFusionError>)
    ensures
        result_view(r) == Ok::<IntervalView, DataFusionError>(spec_full_integer_range(*dt)),
{
    let (lower, upper) = match dt {
        DataType::Int16 => (ScalarValue::Int16(Some(i16::MIN)), ScalarValue::Int16(Some(i16::MAX))),
        DataType::Int8 => (ScalarValue::Int8(Some(i8::MIN)), ScalarValue::Int8(Some(i8::MAX))),
        DataType::Int32 => (ScalarValue::Int32(Some(i32::MIN)), ScalarValue::Int32(Some(i32::MAX))),
        DataType::Int64 => (ScalarValue::Int64(Some(i64::MIN)), ScalarValue::Int64(Some(i64::MAX))),
        DataType::UInt8 => (ScalarValue::UInt8(Some(u8::MIN)), ScalarValue::UInt8(Some(u8::MAX))),
        DataType::UInt16 => (
            ScalarValue::UInt16(Some(u16::MIN)),
            ScalarValue::UInt16(Some(u16::MAX)),
        ),
        DataType::UInt32 => (
            ScalarValue::UInt32(Some(u32::MIN)),
            ScalarValue::UInt32(Some(u32::MAX)),
        ),
        DataType::UInt64 => (
            ScalarValue::UInt64(Some(u64::MIN)),
            ScalarValue::UInt64(Some(u64::MAX)),
        ),
        other => {
            return Interval::make_unbounded(other);
        },
    };
    Interval::try_new(lower, upper)
}

fn unbounded_for(dt: &DataType) -> (r: Result<Interval, DataFusionError>)
    ensures
        result_view(r) == Ok::<IntervalView, DataFusionError>(unbounded_view(*dt)),
{
    Interval::make_unbounded(dt)
}

/// The outcome of an interval operation whose result has type `dt`, where an
/// overflow gives the interval without bounds.
pub open spec fn spec_safe_interval_op(
    dt: DataType,
    result: Result<IntervalView, DataFusionError>,
) -> Result<IntervalView, DataFusionError> {
    match result {
        Err(DataFusionError::ArithmeticOverflow) => Ok(unbounded_view(dt)),
        other => other,
    }
}

fn safe_interval_op(dt: &DataType, result: Result<Interval, DataFusionError>) -> (r: Result<
    Interval,
    DataFusionError,
>)
    ensures
        result_view(r) == spec_safe_interval_op(*dt, result_view(result)),
{
    match result {
        Ok(iv) => Ok(iv),
        Err(DataFusionError::ArithmeticOverflow) => unbounded_for(dt),
        Err(e) => Err(e),
    }
}

/// The integer types between which scalar casts are supported.
pub open spec fn is_cast_int_type(dt: DataType) -> bool {
    matches!(dt, DataType::Int16 | DataType::Int32 | DataType::Int64)
}

/// The cast of an integer scalar between Int16, Int32 and Int64: the scalar of the
/// target type holding the value truncated to the target's width, or null for null.
pub open spec fn spec_cast_scalar_int(value: ScalarValue, to: DataType) -> Result<
    ScalarValue,
    DataFusionError,
> {
    if is_cast_int_type(scalar_type(value)) && is_cast_int_type(to) {
        Ok(
            match scalar_int(value) {
                Some(x) => int_scalar(to, x),
                None => null_of(to),
            },
        )
    } else {
        Err(DataFusionError::UnsupportedCast)
    }
}

/// Casting an Int16 or Int32 scalar to a type at least as wide and back (as
/// `cast_scalar_int_to_type` does, whose result is `spec_cast_scalar_int`) gives the
/// scalar back.
pub proof fn lemma_cast_through_wider_type_round_trips(value: ScalarValue, wide: DataType)
    requires
        is_cast_int_type(scalar_type(value)),
        is_cast_int_type(wide),
        signed_width(scalar_type(value)) <= signed_width(wide),
    ensures
        spec_cast_scalar_int(value, wide) matches Ok(w) && spec_cast_scalar_int(
            w,
            scalar_type(value),
        ) == Ok::<ScalarValue, DataFusionError>(value),
{
    let narrow = scalar_type(value);
    match scalar_int(value) {
        Some(x) => {
            lemma_int_scalar_of_scalar_int(value);
            lemma_scalar_int_of_int_scalar(wide, x);
        },
        None => {
            lemma_null_of(wide);
        },
    }
}

fn cast_scalar_int_to_type(value: &ScalarValue, to: &DataType) -> (r: Result<
    ScalarValue,
    DataFusionError,
>)
    ensures
        r == spec_cast_scalar_int(*value, *to),
{
    match (value, to) {
        (ScalarValue::Int16(v), DataType::Int64) => Ok(
            ScalarValue::Int64(
                match v {
                    Some(x) => Some(*x as i64),
                    None => None,
                },
            ),
        ),
        (ScalarValue::Int16(v), DataType::Int32) => Ok(
            ScalarValue::Int32(
                match v {
                    Some(x) => Some(*x as i32),
                    None => None,
                },
            ),
        ),
        (ScalarValue::Int16(v), DataType::Int16) => Ok(ScalarValue::Int16(*v)),
        (ScalarValue::Int32(v), DataType::Int16) => Ok(
            ScalarValue::Int16(
                match v {
                    Some(x) => Some(*x as i16),
                    None => None,
                },
            ),
        ),
        (ScalarValue::Int32(v), DataType::Int32) => Ok(ScalarValue::Int32(*v)),
        (ScalarValue::Int32(v), DataType::Int64) => Ok(
            ScalarValue::Int64(
                match v {
                    Some(x) => Some(*x as i64),
                    None => None,
                },
            ),
        ),
        (ScalarValue::Int64(v), DataType::Int16) => Ok(
            ScalarValue::Int16(
                match v {
                    Some(x) => Some(*x as i16),
                    None => None,
                },
            ),
        ),
        (ScalarValue::Int64(v), DataType::Int32) => Ok(
            ScalarValue::Int32(
                match v {
                    Some(x) => Some(*x as i32),
                    None => None,
                },
            ),
        ),
        (ScalarValue::Int64(v), DataType::Int64) => Ok(ScalarValue::Int64(*v)),
        _ => Err(DataFusionError::UnsupportedCast),
    }
}

/// Whether `op` is one of the arithmetic operators that intervals follow.
pub open spec fn is_interval_arithmetic(op: Operator) -> bool {
    matches!(op, Operator::Plus | Operator::Minus | Operator::Multiply | Operator::Divide)
}

/// The interval operation of an arithmetic operator.
pub open spec fn spec_interval_op(op: Operator, l: IntervalView, r: IntervalView) -> Result<
    IntervalView,
    DataFusionError,
> {
    match op {
        Operator::Plus => spec_add(l, r),
        Operator::Minus => spec_sub(l, r),
        Operator::Multiply => spec_mul(l, r),
        _ => spec_div(l, r),
    }
}

/// The interval of the casts to `to` of the values of a bounded interval: its bounds
/// cast to `to`.
pub open spec fn spec_cast_interval(child: IntervalView, to: DataType) -> Result<
    IntervalView,
    DataFusionError,
> {
    match spec_cast_scalar_int(lower_scalar(child), to) {
        Err(err) => Err(err),
        Ok(lower) => match spec_cast_scalar_int(upper_scalar(child), to) {
            Err(err) => Err(err),
            Ok(upper) => spec_try_new(lower, upper),
        },
    }
}

/// The interval that holds every value of the integer expression `e`, as `info`
/// types it: the full range of a column's type, the single value of an integer
/// literal, and interval arithmetic for negation, casts and the arithmetic operators
/// (an overflowing operation, and every other expression, give the interval without
/// bounds).
pub open spec fn spec_interval_for_expr<E: SimplifyInfo>(e: Expr, info: E) -> Result<
    IntervalView,
    DataFusionError,
>
    decreases e,
{
    match info.spec_data_type(e) {
        Err(err) => Err(err),
        Ok(dt) => if !spec_is_integer_type(dt) {
            Ok(unbounded_view(dt))
        } else {
            match e {
                Expr::Column(_) => Ok(spec_full_integer_range(dt)),
                Expr::Literal(v) => if spec_is_integer_type(scalar_type(v)) {
                    spec_try_new(v, v)
                } else {
                    Ok(unbounded_view(dt))
                },
                Expr::Negative(c) => match spec_interval_for_expr(*c, info) {
                    Err(err) => Err(err),
                    Ok(iv) => spec_safe_interval_op(dt, spec_negate(iv)),
                },
                Expr::Cast(c) => match spec_interval_for_expr(*c.expr, info) {
                    Err(err) => Err(err),
                    Ok(child) => if child.1 is None {
                        Ok(unbounded_view(c.data_type))
                    } else {
                        spec_cast_interval(child, c.data_type)
                    },
                },
                Expr::BinaryExpr(be) => if is_interval_arithmetic(be.op) {
                    match spec_interval_for_expr(*be.left, info) {
                        Err(err) => Err(err),
                        Ok(l) => match spec_interval_for_expr(*be.right, info) {
                            Err(err) => Err(err),
                            Ok(r) => if l.1 is None || r.1 is None {
                                Ok(unbounded_view(dt))
                            } else {
                                spec_safe_interval_op(dt, spec_interval_op(be.op, l, r))
                            },
                        },
                    }
                } else {
                    Ok(unbounded_view(dt))
                },
                _ => Ok(unbounded_view(dt)),
            }
        },
    }
}

/// The interval that holds every value the integer expression `expr` can take.
pub fn integer_interval_for_expr<E: SimplifyInfo>(expr: &Expr, info: &E) -> (r: Result<
    Interval,
    DataFusionError,
>)
    ensures
        result_view(r) == spec_interval_for_expr(*expr, *info),
    decreases *expr,
{
    let dt = info.get_data_type(expr)?;

    if !is_integer_type(&dt) {
        return unbounded_for(&dt);
    }
    match expr {
        Expr::Column(_) => full_integer_range(&dt),
        Expr::Literal(v) => {
            if is_integer_type(&v.data_type()) {
                Interval::try_new(copy_int_scalar(v), copy_int_scalar(v))
            } else {
                unbounded_for(&dt)
            }
        },
        Expr::Negative(c) => {
            let iv = integer_interval_for_expr(c, info)?;
            safe_interval_op(&dt, iv.arithmetic_negate())
        },
        Expr::Cast(c) => {
            let child_iv = integer_interval_for_expr(&c.expr, info)?;
            let to_type = &c.data_type;
            if child_iv.is_unbounded() {
                return unbounded_for(to_type);
            }
            let lower = cast_scalar_int_to_type(child_iv.lower(), to_type)?;
            let upper = cast_scalar_int_to_type(child_iv.upper(), to_type)?;

            Interval::try_new(lower, upper)
        },
        Expr::BinaryExpr(be) => {
            match be.op {
                Operator::Plus | Operator::Minus | Operator::Multiply | Operator::Divide => {
                    let l = integer_interval_for_expr(&be.left, info)?;
                    let r = integer_interval_for_expr(&be.right, info)?;

                    if l.is_unbounded() || r.is_unbounded() {
                        return unbounded_for(&dt);
                    }
                    let result = match be.op {
                        Operator::Plus => l.add(&r),
                        Operator::Minus => l.sub(&r),
                        Operator::Multiply => l.mul(&r),
                        _ => l.div(&r),
                    };
                    safe_interval_op(&dt, result)
                },
                _ => unbounded_for(&dt),
            }
        },
        _ => unbounded_for(&dt),
    }
}

/// A copy of an integer scalar.
fn copy_int_scalar(v: &ScalarValue) -> (r: ScalarValue)
    requires
        spec_is_integer_type(scalar_type(*v)),
    ensures
        r == *v,
{
    match v {
        ScalarValue::Int8(x) => ScalarValue::Int8(*x),
        ScalarValue::Int16(x) => ScalarValue::Int16(*x),
        ScalarValue::Int32(x) => ScalarValue::Int32(*x),
        ScalarValue::Int64(x) => ScalarValue::Int64(*x),
        ScalarValue::UInt8(x) => ScalarValue::UInt8(*x),
        ScalarValue::UInt16(x) => ScalarValue::UInt16(*x),
        ScalarValue::UInt32(x) => ScalarValue::UInt32(*x),
        _ => ScalarValue::UInt64(match v {
            ScalarValue::UInt64(x) => *x,
            _ => None,
        }),
    }
}

/// The exact integer value of an expression whose columns take the values `env`:
/// casts keep the value, division rounds toward zero, and there is no value where
/// a divisor is zero, a literal is null or not an integer, or the operator is not
/// arithmetic.
pub open spec fn eval_int(e: Expr, env: spec_fn(Column) -> int) -> Option<int>
    decreases e,
{
    match e {
        Expr::Column(c) => Some(env(c)),
        Expr::Literal(v) => scalar_int(v),
        Expr::Alias(a) => eval_int(*a.expr, env),
        Expr::Negative(x) => match eval_int(*x, env) {
            Some(v) => Some(-v),
            None => None,
        },
        Expr::Cast(c) => eval_int(*c.expr, env),
        Expr::BinaryExpr(be) => match (eval_int(*be.left, env), eval_int(*be.right, env)) {
            (Some(l), Some(r)) => match be.op {
                Operator::Plus => Some(l + r),
                Operator::Minus => Some(l - r),
                Operator::Multiply => Some(l * r),
                Operator::Divide => if r == 0 {
                    None
                } else {
                    Some(trunc_div(l, r))
                },
                _ => None,
            },
            _ => None,
        },
    }
}

/// Every cast in `e` whose operand has a bounded interval casts to a type that holds
/// both bounds, so that casting the bounds keeps them.
pub open spec fn casts_keep_bounds<E: SimplifyInfo>(e: Expr, info: E) -> bool
    decreases e,
{
    match e {
        Expr::Column(_) => true,
        Expr::Literal(_) => true,
        Expr::Alias(a) => casts_keep_bounds(*a.expr, info),
        Expr::Negative(x) => casts_keep_bounds(*x, info),
        Expr::Cast(c) => {
            &&& casts_keep_bounds(*c.expr, info)
            &&& (spec_interval_for_expr(*c.expr, info) matches Ok(child) ==> (child.1 matches Some(
                (lo, hi),
            ) ==> in_int_range(c.data_type, lo) && in_int_range(c.data_type, hi)))
        },
        Expr::BinaryExpr(be) => casts_keep_bounds(*be.left, info) && casts_keep_bounds(
            *be.right,
            info,
        ),
    }
}

/// Every column has, under `env`, a value of the integer type that `info` gives it.
pub open spec fn env_fits_types<E: SimplifyInfo>(env: spec_fn(Column) -> int, info: E) -> bool {
    forall|c: Column|
        #![trigger info.spec_data_type(Expr::Column(c))]
        info.spec_data_type(Expr::Column(c)) matches Ok(t) ==> (spec_is_integer_type(t)
            ==> in_int_range(t, env(c)))
}

/// Intervals built from two scalars are valid.
proof fn lemma_try_new_valid(lower: ScalarValue, upper: ScalarValue)
    ensures
        spec_try_new(lower, upper) matches Ok(iv) ==> valid_view(iv),
{
    if scalar_int(lower) is Some {
        lemma_int_scalar_of_scalar_int(lower);
    }
    if scalar_int(upper) is Some {
        lemma_int_scalar_of_scalar_int(upper);
    }
}

/// The cast between Int16, Int32 and Int64 of an integer value of the source type to
/// a type that holds it keeps the value.
pub proof fn lemma_cast_keeps_value(from: DataType, to: DataType, x: int)
    requires
        in_int_range(from, x),
        in_int_range(to, x),
        spec_cast_scalar_int(int_scalar(from, x), to) is Ok,
    ensures
        spec_cast_scalar_int(int_scalar(from, x), to) == Ok::<ScalarValue, DataFusionError>(
            int_scalar(to, x),
        ),
        scalar_int(int_scalar(to, x)) == Some(x),
        scalar_type(int_scalar(to, x)) == to,
{
    lemma_scalar_int_of_int_scalar(to, x);
}

proof fn lemma_cast_case_valid(child: IntervalView, to: DataType)
    requires
        valid_view(child),
        child.1 is Some,
    ensures
        spec_cast_interval(child, to) matches Ok(iv) ==> valid_view(iv),
{
    if let (Ok(lower), Ok(upper)) = (
        spec_cast_scalar_int(lower_scalar(child), to),
        spec_cast_scalar_int(upper_scalar(child), to),
    ) {
        lemma_try_new_valid(lower, upper);
    }
}

proof fn lemma_op_valid(op: Operator, l: IntervalView, r: IntervalView)
    requires
        valid_view(l),
        valid_view(r),
    ensures
        spec_interval_op(op, l, r) matches Ok(iv) ==> valid_view(iv),
{
    if let (Some((a, b)), Some((c, d))) = (l.1, r.1) {
        assert(min4(a * c, a * d, b * c, b * d) <= max4(a * c, a * d, b * c, b * d));
        assert(min4(trunc_div(a, c), trunc_div(a, d), trunc_div(b, c), trunc_div(b, d)) <= max4(
            trunc_div(a, c),
            trunc_div(a, d),
            trunc_div(b, c),
            trunc_div(b, d),
        ));
    }
}

/// Every interval of an expression has bounds that are values of its type, the
/// lower not greater than the upper.
pub proof fn lemma_interval_for_expr_valid<E: SimplifyInfo>(e: Expr, info: E)
    ensures
        spec_interval_for_expr(e, info) matches Ok(iv) ==> valid_view(iv),
    decreases e,
{
    if let Ok(dt) = info.spec_data_type(e) {
        if spec_is_integer_type(dt) {
            match e {
                Expr::Literal(v) => lemma_try_new_valid(v, v),
                Expr::Negative(x) => lemma_interval_for_expr_valid(*x, info),
                Expr::Cast(c) => {
                    lemma_interval_for_expr_valid(*c.expr, info);
                    if let Ok(child) = spec_interval_for_expr(*c.expr, info) {
                        if child.1 is Some {
                            lemma_cast_case_valid(child, c.data_type);
                        }
                    }
                },
                Expr::BinaryExpr(be) => {
                    lemma_interval_for_expr_valid(*be.left, info);
                    lemma_interval_for_expr_valid(*be.right, info);
                    if let (Ok(l), Ok(r)) = (
                        spec_interval_for_expr(*be.left, info),
                        spec_interval_for_expr(*be.right, info),
                    ) {
                        lemma_op_valid(be.op, l, r);
                    }
                },
                _ => {},
            }
        }
    }
}

proof fn lemma_cast_case_holds(child: IntervalView, to: DataType, v: int)
    requires
        valid_view(child),
        child.1 matches Some((lo, hi)) && in_int_range(to, lo) && in_int_range(to, hi),
        view_contains(child, v),
    ensures
        spec_cast_interval(child, to) matches Ok(iv) ==> view_contains(iv, v),
{
    let (lo, hi) = child.1.unwrap();
    if spec_cast_interval(child, to) is Ok {
        lemma_cast_keeps_value(child.0, to, lo);
        lemma_cast_keeps_value(child.0, to, hi);
    }
}

proof fn lemma_op_case_holds(op: Operator, l: IntervalView, r: IntervalView, lv: int, rv: int)
    requires
        is_interval_arithmetic(op),
        view_contains(l, lv),
        view_contains(r, rv),
        op == Operator::Divide ==> rv != 0,
    ensures
        spec_interval_op(op, l, r) matches Ok(iv) ==> view_contains(
            iv,
            match op {
                Operator::Plus => lv + rv,
                Operator::Minus => lv - rv,
                Operator::Multiply => lv * rv,
                _ => trunc_div(lv, rv),
            },
        ),
{
    if let Ok(res) = spec_interval_op(op, l, r) {
        match op {
            Operator::Plus => lemma_add_contains(l, r, res, lv, rv),
            Operator::Minus => lemma_sub_contains(l, r, res, lv, rv),
            Operator::Multiply => lemma_mul_contains(l, r, res, lv, rv),
            _ => lemma_div_contains(l, r, res, lv, rv),
        }
    }
}

/// The interval of an expression holds the value of the expression for every
/// assignment of values of their types to its columns, where casts keep the bounds
/// of their operands; where the interval is bounded, that value is a value of the
/// interval's type, so computing it does not overflow.
pub proof fn lemma_interval_for_expr_holds_value<E: SimplifyInfo>(
    e: Expr,
    info: E,
    env: spec_fn(Column) -> int,
)
    requires
        env_fits_types(env, info),
        casts_keep_bounds(e, info),
    ensures
        spec_interval_for_expr(e, info) matches Ok(iv) ==> (eval_int(e, env) matches Some(v)
            ==> view_contains(iv, v) && (iv.1 is Some ==> in_int_range(iv.0, v))),
    decreases e,
{
    lemma_interval_for_expr_valid(e, info);
    if let (Ok(iv), Some(v), Ok(dt)) = (
        spec_interval_for_expr(e, info),
        eval_int(e, env),
        info.spec_data_type(e),
    ) {
        if spec_is_integer_type(dt) {
            match e {
                Expr::Column(c) => {
                    assert(info.spec_data_type(Expr::Column(c)) == Ok::<DataType, DataFusionError>(
                        dt,
                    ));
                },
                Expr::Negative(x) => {
                    lemma_interval_for_expr_holds_value(*x, info, env);
                    let child = spec_interval_for_expr(*x, info).unwrap();
                    if let Ok(neg) = spec_negate(child) {
                        lemma_negate_contains(child, neg, eval_int(*x, env).unwrap());
                    }
                },
                Expr::Cast(c) => {
                    lemma_interval_for_expr_holds_value(*c.expr, info, env);
                    lemma_interval_for_expr_valid(*c.expr, info);
                    let child = spec_interval_for_expr(*c.expr, info).unwrap();
                    if child.1 is Some {
                        lemma_cast_case_holds(child, c.data_type, v);
                    }
                },
                Expr::BinaryExpr(be) => {
                    lemma_interval_for_expr_holds_value(*be.left, info, env);
                    lemma_interval_for_expr_holds_value(*be.right, info, env);
                    if is_interval_arithmetic(be.op) {
                        let l = spec_interval_for_expr(*be.left, info).unwrap();
                        let r = spec_interval_for_expr(*be.right, info).unwrap();
                        lemma_op_case_holds(
                            be.op,
                            l,
                            r,
                            eval_int(*be.left, env).unwrap(),
                            eval_int(*be.right, env).unwrap(),
                        );
                    }
                },
                _ => {},
            }
        }
    }
}

/// The interval of a column of an integer type is the full range of that type.
pub proof fn lemma_interval_of_integer_column<E: SimplifyInfo>(c: Column, info: E, t: DataType)
    requires
        info.spec_data_type(Expr::Column(c)) == Ok::<DataType, DataFusionError>(t),
        spec_is_integer_type(t),
    ensures
        spec_interval_for_expr(Expr::Column(c), info) == Ok::<IntervalView, DataFusionError>(
            (t, Some((int_min(t), int_max(t)))),
        ),
{
}

/// An expression whose type is not an integer type has the interval without bounds.
pub proof fn lemma_interval_of_non_integer_expr<E: SimplifyInfo>(e: Expr, info: E, t: DataType)
    requires
        info.spec_data_type(e) == Ok::<DataType, DataFusionError>(t),
        !spec_is_integer_type(t),
    ensures
        spec_interval_for_expr(e, info) == Ok::<IntervalView, DataFusionError>((t, None)),
{
}

/// The interval of an integer literal is its single value, or has no bounds where
/// the literal is null.
pub proof fn lemma_interval_of_integer_literal<E: SimplifyInfo>(
    v: ScalarValue,
    info: E,
    t: DataType,
)
    requires
        info.spec_data_type(Expr::Literal(v)) == Ok::<DataType, DataFusionError>(t),
        spec_is_integer_type(t),
        spec_is_integer_type(scalar_type(v)),
    ensures
        spec_interval_for_expr(Expr::Literal(v), info) == Ok::<IntervalView, DataFusionError>(
            (
                scalar_type(v),
                match scalar_int(v) {
                    Some(x) => Some((x, x)),
                    None => None,
                },
            ),
        ),
{
}

/// The interval of a negation of an expression with a bounded signed interval [a, b]
/// is [-b, -a], or has no bounds where -a is not a value of the type.
pub proof fn lemma_interval_of_negation<E: SimplifyInfo>(
    x: Expr,
    info: E,
    dt: DataType,
    s: DataType,
    a: int,
    b: int,
)
    requires
        info.spec_data_type(Expr::Negative(Box::new(x))) == Ok::<DataType, DataFusionError>(dt),
        spec_is_integer_type(dt),
        spec_interval_for_expr(x, info) == Ok::<IntervalView, DataFusionError>((s, Some((a, b)))),
        s == DataType::Int8 || s == DataType::Int16 || s == DataType::Int32 || s == DataType::Int64,
    ensures
        spec_interval_for_expr(Expr::Negative(Box::new(x)), info) == if in_int_range(s, -a) {
            Ok::<IntervalView, DataFusionError>((s, Some((-b, -a))))
        } else {
            Ok::<IntervalView, DataFusionError>((dt, None))
        },
{
    lemma_interval_for_expr_valid(x, info);
}

/// The least and greatest results of an arithmetic operator on values of [a, b] and
/// [c, d] (for division, by values of a [c, d] without zero, rounding toward zero).
pub open spec fn extreme_results(op: Operator, a: int, b: int, c: int, d: int) -> (int, int) {
    match op {
        Operator::Plus => (a + c, b + d),
        Operator::Minus => (a - d, b - c),
        Operator::Multiply => (min4(a * c, a * d, b * c, b * d), max4(a * c, a * d, b * c, b * d)),
        _ => (
            min4(trunc_div(a, c), trunc_div(a, d), trunc_div(b, c), trunc_div(b, d)),
            max4(trunc_div(a, c), trunc_div(a, d), trunc_div(b, c), trunc_div(b, d)),
        ),
    }
}

/// The interval of an arithmetic expression whose operands have bounded intervals
/// [a, b] and [c, d] of one integer type is the interval from the least to the
/// greatest result of the operator on their values; it has no bounds where one of
/// those is not a value of the type, or where a divisor interval holds zero.
pub proof fn lemma_interval_of_arithmetic<E: SimplifyInfo>(
    be: BinaryExpr,
    info: E,
    dt: DataType,
    t: DataType,
    a: int,
    b: int,
    c: int,
    d: int,
)
    requires
        info.spec_data_type(Expr::BinaryExpr(be)) == Ok::<DataType, DataFusionError>(dt),
        spec_is_integer_type(dt),
        be.op == Operator::Plus || be.op == Operator::Minus || be.op == Operator::Multiply || be.op
            == Operator::Divide,
        spec_interval_for_expr(*be.left, info) == Ok::<IntervalView, DataFusionError>(
            (t, Some((a, b))),
        ),
        spec_interval_for_expr(*be.right, info) == Ok::<IntervalView, DataFusionError>(
            (t, Some((c, d))),
        ),
    ensures
        spec_interval_for_expr(Expr::BinaryExpr(be), info) == if be.op == Operator::Divide && c
            <= 0 <= d {
            Ok::<IntervalView, DataFusionError>((t, None))
        } else if in_int_range(t, extreme_results(be.op, a, b, c, d).0) && in_int_range(
            t,
            extreme_results(be.op, a, b, c, d).1,
        ) {
            Ok::<IntervalView, DataFusionError>((t, Some(extreme_results(be.op, a, b, c, d))))
        } else {
            Ok::<IntervalView, DataFusionError>((dt, None))
        },
{
}

/// The cast between Int16, Int32 and Int64 of an expression with a bounded interval
/// whose bounds are values of the target type has the same bounds in the target
/// type.
pub proof fn lemma_interval_of_cast<E: SimplifyInfo>(
    c: Cast,
    info: E,
    dt: DataType,
    s: DataType,
    a: int,
    b: int,
)
    requires
        info.spec_data_type(Expr::Cast(c)) == Ok::<DataType, DataFusionError>(dt),
        spec_is_integer_type(dt),
        spec_interval_for_expr(*c.expr, info) == Ok::<IntervalView, DataFusionError>(
            (s, Some((a, b))),
        ),
        is_cast_int_type(s),
        is_cast_int_type(c.data_type),
        in_int_range(c.data_type, a),
        in_int_range(c.data_type, b),
    ensures
        spec_interval_for_expr(Expr::Cast(c), info) == Ok::<IntervalView, DataFusionError>(
            (c.data_type, Some((a, b))),
        ),
{
    lemma_interval_for_expr_valid(*c.expr, info);
    lemma_cast_keeps_value(s, c.data_type, a);
    lemma_cast_keeps_value(s, c.data_type, b);
}

/// The cast of an expression whose interval has no bounds has no bounds in the
/// target type.
pub proof fn lemma_interval_of_cast_unbounded<E: SimplifyInfo>(
    c: Cast,
    info: E,
    dt: DataType,
    s: DataType,
)
    requires
        info.spec_data_type(Expr::Cast(c)) == Ok::<DataType, DataFusionError>(dt),
        spec_is_integer_type(dt),
        spec_interval_for_expr(*c.expr, info) == Ok::<IntervalView, DataFusionError>((s, None)),
    ensures
        spec_interval_for_expr(Expr::Cast(c), info) == Ok::<IntervalView, DataFusionError>(
            (c.data_type, None),
        ),
{
}

/// An alias, and an operator other than + - * /, have the interval without bounds.
pub proof fn lemma_interval_of_alias_or_other_operator<E: SimplifyInfo>(
    e: Expr,
    info: E,
    dt: DataType,
)
    requires
        info.spec_data_type(e) == Ok::<DataType, DataFusionError>(dt),
        e is Alias || (e matches Expr::BinaryExpr(be) && !(be.op == Operator::Plus || be.op
            == Operator::Minus || be.op == Operator::Multiply || be.op == Operator::Divide)),
    ensures
        spec_interval_for_expr(e, info) == Ok::<IntervalView, DataFusionError>((dt, None)),
{
}

} // verus!
