use vstd::prelude::*;

verus! {

/// The logical types of values that expressions and columns can have.
#[derive(Clone, Copy, Debug, PartialEq, Eq, Structural)]
pub enum DataType {
    Null,
    Boolean,
    Int8,
    Int16,
    Int32,
    Int64,
    UInt8,
    UInt16,
    UInt32,
    UInt64,
    Utf8,
    Binary,
    /// Days since the epoch.
    Date32,
    /// Milliseconds since the epoch.
    Date64,
    /// Decimal numbers with a precision and a scale.
    Decimal128(u8, i8),
}

/// Whether `dt` is one of the eight fixed-width integer types.
pub open spec fn spec_is_integer_type(dt: DataType) -> bool {
    matches!(dt, DataType::Int8 | DataType::Int16 | DataType::Int32 | DataType::Int64
        | DataType::UInt8 | DataType::UInt16 | DataType::UInt32 | DataType::UInt64)
}

/// Whether `dt` is one of the small signed integer types (Int8, Int16, Int32).
pub open spec fn spec_is_small_int(dt: DataType) -> bool {
    matches!(dt, DataType::Int8 | DataType::Int16 | DataType::Int32)
}

/// Smallest value of an integer type.
pub open spec fn int_min(dt: DataType) -> int {
    match dt {
        DataType::Int8 => i8::MIN as int,
        DataType::Int16 => i16::MIN as int,
        DataType::Int32 => i32::MIN as int,
        DataType::Int64 => i64::MIN as int,
        _ => 0,
    }
}

/// Largest value of an integer type.
pub open spec fn int_max(dt: DataType) -> int {
    match dt {
        DataType::Int8 => i8::MAX as int,
        DataType::Int16 => i16::MAX as int,
        DataType::Int32 => i32::MAX as int,
        DataType::Int64 => i64::MAX as int,
        DataType::UInt8 => u8::MAX as int,
        DataType::UInt16 => u16::MAX as int,
        DataType::UInt32 => u32::MAX as int,
        DataType::UInt64 => u64::MAX as int,
        _ => 0,
    }
}

/// Whether the mathematical integer `v` is a value of the integer type `dt`.
pub open spec fn in_int_range(dt: DataType, v: int) -> bool {
    spec_is_integer_type(dt) && int_min(dt) <= v <= int_max(dt)
}

/// Whether `dt` is a signed integer type.
pub open spec fn spec_is_signed_int(dt: DataType) -> bool {
    matches!(dt, DataType::Int8 | DataType::Int16 | DataType::Int32 | DataType::Int64)
}

/// Bit width of a signed integer type.
pub open spec fn signed_width(dt: DataType) -> int {
    match dt {
        DataType::Int8 => 8,
        DataType::Int16 => 16,
        DataType::Int32 => 32,
        DataType::Int64 => 64,
        _ => 0,
    }
}

/// `to` is a signed integer type strictly wider than the signed integer type `from`:
/// the result of promoting a value of type `from`.
pub open spec fn spec_is_widened(from: DataType, to: DataType) -> bool {
    spec_is_signed_int(from) && spec_is_signed_int(to) && signed_width(from) < signed_width(to)
}

/// Returns true if `dt` is a fixed-width integer type.
pub fn is_integer_type(dt: &DataType) -> (r: bool)
    ensures
        r == spec_is_integer_type(*dt),
{
    match dt {
        DataType::Int8 | DataType::Int16 | DataType::Int32 | DataType::Int64 | DataType::UInt8
        | DataType::UInt16 | DataType::UInt32 | DataType::UInt64 => true,
        _ => false,
    }
}

/// Returns true if `dt` is Int8, Int16 or Int32.
pub fn is_small_int(dt: &DataType) -> (r: bool)
    ensures
        r == spec_is_small_int(*dt),
{
    match dt {
        DataType::Int8 | DataType::Int16 | DataType::Int32 => true,
        _ => false,
    }
}

/// Adding or subtracting two values of a signed integer type cannot overflow once
/// the values have been promoted to a wider signed integer type.
pub proof fn lemma_widened_sum_fits(from: DataType, to: DataType, a: int, b: int)
    requires
        spec_is_widened(from, to),
        in_int_range(from, a),
        in_int_range(from, b),
    ensures
        in_int_range(to, a + b),
        in_int_range(to, a - b),
{
}

} // verus!
