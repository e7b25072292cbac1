//! Closed intervals of integer values, with interval arithmetic.
use vstd::prelude::*;

use crate::data_type::{in_int_range, int_max, int_min, spec_is_integer_type, spec_is_signed_int, DataType};
use crate::error::DataFusionError;
use crate::scalar::{
    int_scalar, lemma_int_scalar_of_scalar_int, lemma_null_of, lemma_scalar_int_of_int_scalar,
    null_of, scalar_int, scalar_is_null, scalar_type, ScalarValue,
};

verus! {

/// The view of an interval: its data type and, when it is bounded, its least and
/// greatest values. An interval without bounds holds every value of its type.
pub type IntervalView = (DataType, Option<(int, int)>);

/// The interval of type `dt` without bounds.
pub open spec fn unbounded_view(dt: DataType) -> IntervalView {
    (dt, None)
}

/// The interval [lo, hi] of type `dt`, or an overflow where a bound is not a value
/// of the type.
pub open spec fn checked_bounds(dt: DataType, lo: int, hi: int) -> Result<
    IntervalView,
    DataFusionError,
> {
    if in_int_range(dt, lo) && in_int_range(dt, hi) {
        Ok((dt, Some((lo, hi))))
    } else {
        Err(DataFusionError::ArithmeticOverflow)
    }
}

/// Whether the interval holds the value `v`.
pub open spec fn view_contains(iv: IntervalView, v: int) -> bool {
    match iv.1 {
        Some((lo, hi)) => lo <= v <= hi,
        None => true,
    }
}

pub open spec fn min4(a: int, b: int, c: int, d: int) -> int {
    let ab = if a <= b { a } else { b };
    let cd = if c <= d { c } else { d };
    if ab <= cd { ab } else { cd }
}

pub open spec fn max4(a: int, b: int, c: int, d: int) -> int {
    let ab = if a >= b { a } else { b };
    let cd = if c >= d { c } else { d };
    if ab >= cd { ab } else { cd }
}

/// Integer division rounding toward zero.
pub open spec fn trunc_div(x: int, y: int) -> int {
    let q = (if x >= 0 { x } else { -x }) / (if y >= 0 { y } else { -y });
    if (x >= 0) == (y > 0) || q == 0 { q } else { -q }
}

/// Interval negation: [-hi, -lo]. Only signed integer intervals can be negated.
pub open spec fn spec_negate(x: IntervalView) -> Result<IntervalView, DataFusionError> {
    match x.1 {
        None => Ok(x),
        Some((a, b)) => if spec_is_signed_int(x.0) {
            checked_bounds(x.0, -b, -a)
        } else {
            Err(DataFusionError::UnsupportedNegation)
        },
    }
}

/// Interval addition: [a + c, b + d].
pub open spec fn spec_add(x: IntervalView, y: IntervalView) -> Result<IntervalView, DataFusionError> {
    if x.0 != y.0 {
        Err(DataFusionError::TypeMismatch)
    } else {
        match (x.1, y.1) {
            (Some((a, b)), Some((c, d))) => checked_bounds(x.0, a + c, b + d),
            _ => Ok(unbounded_view(x.0)),
        }
    }
}

/// Interval subtraction: [a - d, b - c].
pub open spec fn spec_sub(x: IntervalView, y: IntervalView) -> Result<IntervalView, DataFusionError> {
    if x.0 != y.0 {
        Err(DataFusionError::TypeMismatch)
    } else {
        match (x.1, y.1) {
            (Some((a, b)), Some((c, d))) => checked_bounds(x.0, a - d, b - c),
            _ => Ok(unbounded_view(x.0)),
        }
    }
}

/// Interval multiplication: the least and greatest products of the bounds.
pub open spec fn spec_mul(x: IntervalView, y: IntervalView) -> Result<IntervalView, DataFusionError> {
    if x.0 != y.0 {
        Err(DataFusionError::TypeMismatch)
    } else {
        match (x.1, y.1) {
            (Some((a, b)), Some((c, d))) => checked_bounds(
                x.0,
                min4(a * c, a * d, b * c, b * d),
                max4(a * c, a * d, b * c, b * d),
            ),
            _ => Ok(unbounded_view(x.0)),
        }
    }
}

/// Interval division rounding toward zero: the least and greatest quotients of the
/// bounds; without bounds where the divisor interval holds zero.
pub open spec fn spec_div(x: IntervalView, y: IntervalView) -> Result<IntervalView, DataFusionError> {
    if x.0 != y.0 {
        Err(DataFusionError::TypeMismatch)
    } else {
        match (x.1, y.1) {
            (Some((a, b)), Some((c, d))) => if c <= 0 <= d {
                Ok(unbounded_view(x.0))
            } else {
                checked_bounds(
                    x.0,
                    min4(trunc_div(a, c), trunc_div(a, d), trunc_div(b, c), trunc_div(b, d)),
                    max4(trunc_div(a, c), trunc_div(a, d), trunc_div(b, c), trunc_div(b, d)),
                )
            },
            _ => Ok(unbounded_view(x.0)),
        }
    }
}

/// The interval with the given endpoints: without bounds where both are null, the
/// integers between them where both are integers of one type and the lower is not
/// greater than the upper.
pub open spec fn spec_try_new(lower: ScalarValue, upper: ScalarValue) -> Result<
    IntervalView,
    DataFusionError,
> {
    if scalar_type(lower) != scalar_type(upper) {
        Err(DataFusionError::InvalidInterval)
    } else if scalar_is_null(lower) && scalar_is_null(upper) {
        Ok(unbounded_view(scalar_type(lower)))
    } else {
        match (scalar_int(lower), scalar_int(upper)) {
            (Some(lo), Some(hi)) => if lo <= hi {
                Ok((scalar_type(lower), Some((lo, hi))))
            } else {
                Err(DataFusionError::InvalidInterval)
            },
            _ => Err(DataFusionError::InvalidInterval),
        }
    }
}

/// A closed interval of values of one type: either without bounds, or the integers
/// between two integer endpoints.
pub struct Interval {
    lower: ScalarValue,
    upper: ScalarValue,
}

impl View for Interval {
    type V = IntervalView;

    closed spec fn view(&self) -> IntervalView {
        (
            scalar_type(self.lower),
            match (scalar_int(self.lower), scalar_int(self.upper)) {
                (Some(lo), Some(hi)) => Some((lo, hi)),
                _ => None,
            },
        )
    }
}

/// The endpoint values of an interval view: the null value of its type where it has
/// no bounds.
pub open spec fn lower_scalar(iv: IntervalView) -> ScalarValue {
    match iv.1 {
        Some((lo, hi)) => int_scalar(iv.0, lo),
        None => null_of(iv.0),
    }
}

pub open spec fn upper_scalar(iv: IntervalView) -> ScalarValue {
    match iv.1 {
        Some((lo, hi)) => int_scalar(iv.0, hi),
        None => null_of(iv.0),
    }
}

/// The views of valid intervals: bounds are values of the type, lower below upper.
pub open spec fn valid_view(iv: IntervalView) -> bool {
    match iv.1 {
        Some((lo, hi)) => in_int_range(iv.0, lo) && in_int_range(iv.0, hi) && lo <= hi,
        None => true,
    }
}

/// The view of the result of an interval operation.
pub open spec fn result_view(r: Result<Interval, DataFusionError>) -> Result<
    IntervalView,
    DataFusionError,
> {
    match r {
        Ok(iv) => Ok(iv@),
        Err(e) => Err(e),
    }
}

fn type_bounds(dt: &DataType) -> (r: (i128, i128))
    requires
        spec_is_integer_type(*dt),
    ensures
        r.0 as int == int_min(*dt),
        r.1 as int == int_max(*dt),
{
    match dt {
        DataType::Int8 => (i8::MIN as i128, i8::MAX as i128),
        DataType::Int16 => (i16::MIN as i128, i16::MAX as i128),
        DataType::Int32 => (i32::MIN as i128, i32::MAX as i128),
        DataType::Int64 => (i64::MIN as i128, i64::MAX as i128),
        DataType::UInt8 => (0, u8::MAX as i128),
        DataType::UInt16 => (0, u16::MAX as i128),
        DataType::UInt32 => (0, u32::MAX as i128),
        _ => (0, u64::MAX as i128),
    }
}

impl Interval {
    #[verifier::type_invariant]
    spec fn endpoints_valid(&self) -> bool {
        &&& scalar_type(self.lower) == scalar_type(self.upper)
        &&& (scalar_is_null(self.lower) && scalar_is_null(self.upper)) || (scalar_int(
            self.lower,
        ) is Some && scalar_int(self.upper) is Some && scalar_int(self.lower).unwrap()
            <= scalar_int(self.upper).unwrap())
    }

    /// The interval of type `dt` without bounds.
    pub fn make_unbounded(dt: &DataType) -> (r: Result<Interval, DataFusionError>)
        ensures
            r matches Ok(iv) && iv@ == unbounded_view(*dt),
    {
        proof {
            lemma_null_of(*dt);
        }
        Ok(Interval { lower: ScalarValue::new_null(dt), upper: ScalarValue::new_null(dt) })
    }

    fn bounded(dt: &DataType, lo: i128, hi: i128) -> (r: Interval)
        requires
            in_int_range(*dt, lo as int),
            in_int_range(*dt, hi as int),
            lo <= hi,
        ensures
            r@ == (*dt, Some((lo as int, hi as int))),
    {
        proof {
            lemma_scalar_int_of_int_scalar(*dt, lo as int);
            lemma_scalar_int_of_int_scalar(*dt, hi as int);
        }
        Interval { lower: ScalarValue::from_i128(dt, lo), upper: ScalarValue::from_i128(dt, hi) }
    }

    /// The interval between the given endpoints.
    pub fn try_new(lower: ScalarValue, upper: ScalarValue) -> (r: Result<Interval, DataFusionError>)
        ensures
            match r {
                Ok(iv) => spec_try_new(lower, upper) == Ok::<IntervalView, DataFusionError>(iv@),
                Err(e) => spec_try_new(lower, upper) == Err::<IntervalView, DataFusionError>(e),
            },
    {
        let lt = lower.data_type();
        let ut = upper.data_type();
        if lt != ut {
            return Err(DataFusionError::InvalidInterval);
        }
        if lower.is_null() && upper.is_null() {
            proof {
                assert(scalar_int(lower) is None && scalar_int(upper) is None);
            }
            return Ok(Interval { lower, upper });
        }
        match (lower.to_i128(), upper.to_i128()) {
            (Some(lo), Some(hi)) => {
                if lo <= hi {
                    Ok(Interval { lower, upper })
                } else {
                    Err(DataFusionError::InvalidInterval)
                }
            },
            _ => Err(DataFusionError::InvalidInterval),
        }
    }

    /// The type of the values of this interval.
    pub fn data_type(&self) -> (r: DataType)
        ensures
            r == self@.0,
    {
        self.lower.data_type()
    }

    /// Whether this interval has no bounds.
    pub fn is_unbounded(&self) -> (r: bool)
        ensures
            r == (self@.1 is None),
    {
        proof {
            use_type_invariant(self);
        }
        self.lower.is_null()
    }

    /// The lower endpoint: the least value, or null where there are no bounds.
    pub fn lower(&self) -> (r: &ScalarValue)
        ensures
            *r == lower_scalar(self@),
    {
        proof {
            use_type_invariant(self);
            if scalar_int(self.lower) is Some {
                lemma_int_scalar_of_scalar_int(self.lower);
            }
        }
        &self.lower
    }

    /// The upper endpoint: the greatest value, or null where there are no bounds.
    pub fn upper(&self) -> (r: &ScalarValue)
        ensures
            *r == upper_scalar(self@),
    {
        proof {
            use_type_invariant(self);
            if scalar_int(self.upper) is Some {
                lemma_int_scalar_of_scalar_int(self.upper);
            }
        }
        &self.upper
    }

    fn checked(dt: &DataType, lo: i128, hi: i128) -> (r: Result<Interval, DataFusionError>)
        requires
            spec_is_integer_type(*dt),
            lo <= hi,
        ensures
            result_view(r) == checked_bounds(*dt, lo as int, hi as int),
    {
        let (min, max) = type_bounds(dt);
        if min <= lo && lo <= max && min <= hi && hi <= max {
            Ok(Interval::bounded(dt, lo, hi))
        } else {
            Err(DataFusionError::ArithmeticOverflow)
        }
    }

    fn int_bounds(&self) -> (r: Option<(i128, i128)>)
        ensures
            match r {
                Some((lo, hi)) => self@.1 == Some((lo as int, hi as int)) && in_int_range(
                    self@.0,
                    lo as int,
                ) && in_int_range(self@.0, hi as int) && lo <= hi,
                None => self@.1 is None,
            },
    {
        proof {
            use_type_invariant(self);
            if scalar_int(self.lower) is Some {
                lemma_int_scalar_of_scalar_int(self.lower);
                lemma_int_scalar_of_scalar_int(self.upper);
            }
        }
        match (self.lower.to_i128(), self.upper.to_i128()) {
            (Some(lo), Some(hi)) => Some((lo, hi)),
            _ => None,
        }
    }
}

fn min4_exec(a: i128, b: i128, c: i128, d: i128) -> (r: i128)
    ensures
        r as int == min4(a as int, b as int, c as int, d as int),
{
    let ab = if a <= b { a } else { b };
    let cd = if c <= d { c } else { d };
    if ab <= cd { ab } else { cd }
}

fn max4_exec(a: i128, b: i128, c: i128, d: i128) -> (r: i128)
    ensures
        r as int == max4(a as int, b as int, c as int, d as int),
{
    let ab = if a >= b { a } else { b };
    let cd = if c >= d { c } else { d };
    if ab >= cd { ab } else { cd }
}

fn trunc_div_exec(x: i128, y: i128) -> (r: i128)
    requires
        y != 0,
        -0x1_0000_0000_0000_0000 <= x <= 0x1_0000_0000_0000_0000,
        -0x1_0000_0000_0000_0000 <= y <= 0x1_0000_0000_0000_0000,
    ensures
        r as int == trunc_div(x as int, y as int),
{
    let ax: u128 = if x >= 0 { x as u128 } else { (-x) as u128 };
    let ay: u128 = if y >= 0 { y as u128 } else { (-y) as u128 };
    let q = ax / ay;
    assert(q <= ax) by (nonlinear_arith)
        requires
            q == ax / ay,
            ay >= 1,
    ;
    if (x >= 0) == (y > 0) || q == 0 {
        q as i128
    } else {
        -(q as i128)
    }
}

impl Interval {
    /// The interval of the negated values: [-hi, -lo].
    pub fn arithmetic_negate(&self) -> (r: Result<Interval, DataFusionError>)
        ensures
            result_view(r) == spec_negate(self@),
    {
        let dt = self.data_type();
        match self.int_bounds() {
            None => Interval::make_unbounded(&dt),
            Some((a, b)) => {
                match dt {
                    DataType::Int8 | DataType::Int16 | DataType::Int32 | DataType::Int64 => {
                        Interval::checked(&dt, -b, -a)
                    },
                    _ => Err(DataFusionError::UnsupportedNegation),
                }
            },
        }
    }

    /// The interval of the sums of values of the two intervals.
    pub fn add(&self, other: &Interval) -> (r: Result<Interval, DataFusionError>)
        ensures
            result_view(r) == spec_add(self@, other@),
    {
        let dt = self.data_type();
        if dt != other.data_type() {
            return Err(DataFusionError::TypeMismatch);
        }
        match (self.int_bounds(), other.int_bounds()) {
            (Some((a, b)), Some((c, d))) => Interval::checked(&dt, a + c, b + d),
            _ => Interval::make_unbounded(&dt),
        }
    }

    /// The interval of the differences of values of the two intervals.
    pub fn sub(&self, other: &Interval) -> (r: Result<Interval, DataFusionError>)
        ensures
            result_view(r) == spec_sub(self@, other@),
    {
        let dt = self.data_type();
        if dt != other.data_type() {
            return Err(DataFusionError::TypeMismatch);
        }
        match (self.int_bounds(), other.int_bounds()) {
            (Some((a, b)), Some((c, d))) => Interval::checked(&dt, a - d, b - c),
            _ => Interval::make_unbounded(&dt),
        }
    }

    /// The interval of the products of values of the two intervals.
    pub fn mul(&self, other: &Interval) -> (r: Result<Interval, DataFusionError>)
        ensures
            result_view(r) == spec_mul(self@, other@),
    {
        let dt = self.data_type();
        if dt != other.data_type() {
            return Err(DataFusionError::TypeMismatch);
        }
        match (self.int_bounds(), other.int_bounds()) {
            (Some((a, b)), Some((c, d))) => {
                let ghost (ai, bi, ci, di) = (a as int, b as int, c as int, d as int);
                let ghost lo = min4(ai * ci, ai * di, bi * ci, bi * di);
                let ghost hi = max4(ai * ci, ai * di, bi * ci, bi * di);
                match (a.checked_mul(c), a.checked_mul(d), b.checked_mul(c), b.checked_mul(d)) {
                    (Some(ac), Some(ad), Some(bc), Some(bd)) => {
                        Interval::checked(&dt, min4_exec(ac, ad, bc, bd), max4_exec(ac, ad, bc, bd))
                    },
                    _ => {
                        proof {
                            assert(lo < int_min(dt) || hi > int_max(dt));
                        }
                        Err(DataFusionError::ArithmeticOverflow)
                    },
                }
            },
            _ => Interval::make_unbounded(&dt),
        }
    }

    /// The interval of the quotients, rounded toward zero, of values of the two
    /// intervals; without bounds where the divisor interval holds zero.
    pub fn div(&self, other: &Interval) -> (r: Result<Interval, DataFusionError>)
        ensures
            result_view(r) == spec_div(self@, other@),
    {
        let dt = self.data_type();
        if dt != other.data_type() {
            return Err(DataFusionError::TypeMismatch);
        }
        match (self.int_bounds(), other.int_bounds()) {
            (Some((a, b)), Some((c, d))) => {
                if c <= 0 && 0 <= d {
                    return Interval::make_unbounded(&dt);
                }
                let ac = trunc_div_exec(a, c);
                let ad = trunc_div_exec(a, d);
                let bc = trunc_div_exec(b, c);
                let bd = trunc_div_exec(b, d);
                Interval::checked(&dt, min4_exec(ac, ad, bc, bd), max4_exec(ac, ad, bc, bd))
            },
            _ => Interval::make_unbounded(&dt),
        }
    }
}

} // verus!
