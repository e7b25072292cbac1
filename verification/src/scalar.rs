use vstd::prelude::*;

use crate::data_type::{in_int_range, DataType};

verus! {

/// A single value of one of the supported data types; `None` is the null value.
#[derive(Clone, Debug, PartialEq, Eq)]
pub enum ScalarValue {
    Null,
    Boolean(Option<bool>),
    Int8(Option<i8>),
    Int16(Option<i16>),
    Int32(Option<i32>),
    Int64(Option<i64>),
    UInt8(Option<u8>),
    UInt16(Option<u16>),
    UInt32(Option<u32>),
    UInt64(Option<u64>),
    Utf8(Option<String>),
    Binary(Option<Vec<u8>>),
    Date32(Option<i32>),
    Date64(Option<i64>),
    /// An unscaled value with the precision and scale of its type.
    Decimal128(Option<i128>, u8, i8),
}

/// The data type of a scalar value.
pub open spec fn scalar_type(v: ScalarValue) -> DataType {
    match v {
        ScalarValue::Null => DataType::Null,
        ScalarValue::Boolean(_) => DataType::Boolean,
        ScalarValue::Int8(_) => DataType::Int8,
        ScalarValue::Int16(_) => DataType::Int16,
        ScalarValue::Int32(_) => DataType::Int32,
        ScalarValue::Int64(_) => DataType::Int64,
        ScalarValue::UInt8(_) => DataType::UInt8,
        ScalarValue::UInt16(_) => DataType::UInt16,
        ScalarValue::UInt32(_) => DataType::UInt32,
        ScalarValue::UInt64(_) => DataType::UInt64,
        ScalarValue::Utf8(_) => DataType::Utf8,
        ScalarValue::Binary(_) => DataType::Binary,
        ScalarValue::Date32(_) => DataType::Date32,
        ScalarValue::Date64(_) => DataType::Date64,
        ScalarValue::Decimal128(_, p, s) => DataType::Decimal128(p, s),
    }
}

/// Whether a scalar value is null.
pub open spec fn scalar_is_null(v: ScalarValue) -> bool {
    match v {
        ScalarValue::Null => true,
        ScalarValue::Boolean(x) => x is None,
        ScalarValue::Int8(x) => x is None,
        ScalarValue::Int16(x) => x is None,
        ScalarValue::Int32(x) => x is None,
        ScalarValue::Int64(x) => x is None,
        ScalarValue::UInt8(x) => x is None,
        ScalarValue::UInt16(x) => x is None,
        ScalarValue::UInt32(x) => x is None,
        ScalarValue::UInt64(x) => x is None,
        ScalarValue::Utf8(x) => x is None,
        ScalarValue::Binary(x) => x is None,
        ScalarValue::Date32(x) => x is None,
        ScalarValue::Date64(x) => x is None,
        ScalarValue::Decimal128(x, _, _) => x is None,
    }
}

/// The integer held by a non-null integer scalar.
pub open spec fn scalar_int(v: ScalarValue) -> Option<int> {
    match v {
        ScalarValue::Int8(Some(x)) => Some(x as int),
        ScalarValue::Int16(Some(x)) => Some(x as int),
        ScalarValue::Int32(Some(x)) => Some(x as int),
        ScalarValue::Int64(Some(x)) => Some(x as int),
        ScalarValue::UInt8(Some(x)) => Some(x as int),
        ScalarValue::UInt16(Some(x)) => Some(x as int),
        ScalarValue::UInt32(Some(x)) => Some(x as int),
        ScalarValue::UInt64(Some(x)) => Some(x as int),
        _ => None,
    }
}

/// The null value of a data type.
pub open spec fn null_of(dt: DataType) -> ScalarValue {
    match dt {
        DataType::Null => ScalarValue::Null,
        DataType::Boolean => ScalarValue::Boolean(None),
        DataType::Int8 => ScalarValue::Int8(None),
        DataType::Int16 => ScalarValue::Int16(None),
        DataType::Int32 => ScalarValue::Int32(None),
        DataType::Int64 => ScalarValue::Int64(None),
        DataType::UInt8 => ScalarValue::UInt8(None),
        DataType::UInt16 => ScalarValue::UInt16(None),
        DataType::UInt32 => ScalarValue::UInt32(None),
        DataType::UInt64 => ScalarValue::UInt64(None),
        DataType::Utf8 => ScalarValue::Utf8(None),
        DataType::Binary => ScalarValue::Binary(None),
        DataType::Date32 => ScalarValue::Date32(None),
        DataType::Date64 => ScalarValue::Date64(None),
        DataType::Decimal128(p, s) => ScalarValue::Decimal128(None, p, s),
    }
}

/// The non-null scalar of integer type `dt` holding `v`.
pub open spec fn int_scalar(dt: DataType, v: int) -> ScalarValue {
    match dt {
        DataType::Int8 => ScalarValue::Int8(Some(v as i8)),
        DataType::Int16 => ScalarValue::Int16(Some(v as i16)),
        DataType::Int32 => ScalarValue::Int32(Some(v as i32)),
        DataType::Int64 => ScalarValue::Int64(Some(v as i64)),
        DataType::UInt8 => ScalarValue::UInt8(Some(v as u8)),
        DataType::UInt16 => ScalarValue::UInt16(Some(v as u16)),
        DataType::UInt32 => ScalarValue::UInt32(Some(v as u32)),
        DataType::UInt64 => ScalarValue::UInt64(Some(v as u64)),
        _ => null_of(dt),
    }
}

/// An integer scalar rebuilt from its type and value is the same scalar.
pub proof fn lemma_int_scalar_of_scalar_int(v: ScalarValue)
    requires
        scalar_int(v) is Some,
    ensures
        in_int_range(scalar_type(v), scalar_int(v).unwrap()),
        int_scalar(scalar_type(v), scalar_int(v).unwrap()) == v,
        scalar_type(int_scalar(scalar_type(v), scalar_int(v).unwrap())) == scalar_type(v),
{
}

/// The integer scalar of a type holding a value of the type has that type and value.
pub proof fn lemma_scalar_int_of_int_scalar(dt: DataType, v: int)
    requires
        in_int_range(dt, v),
    ensures
        scalar_int(int_scalar(dt, v)) == Some(v),
        scalar_type(int_scalar(dt, v)) == dt,
        !scalar_is_null(int_scalar(dt, v)),
{
}

/// The null value of a type has that type and is null.
pub proof fn lemma_null_of(dt: DataType)
    ensures
        scalar_type(null_of(dt)) == dt,
        scalar_is_null(null_of(dt)),
        scalar_int(null_of(dt)) is None,
{
}

impl ScalarValue {
    /// The data type of this value.
    pub fn data_type(&self) -> (r: DataType)
        ensures
            r == scalar_type(*self),
    {
        match self {
            ScalarValue::Null => DataType::Null,
            ScalarValue::Boolean(_) => DataType::Boolean,
            ScalarValue::Int8(_) => DataType::Int8,
            ScalarValue::Int16(_) => DataType::Int16,
            ScalarValue::Int32(_) => DataType::Int32,
            ScalarValue::Int64(_) => DataType::Int64,
            ScalarValue::UInt8(_) => DataType::UInt8,
            ScalarValue::UInt16(_) => DataType::UInt16,
            ScalarValue::UInt32(_) => DataType::UInt32,
            ScalarValue::UInt64(_) => DataType::UInt64,
            ScalarValue::Utf8(_) => DataType::Utf8,
            ScalarValue::Binary(_) => DataType::Binary,
            ScalarValue::Date32(_) => DataType::Date32,
            ScalarValue::Date64(_) => DataType::Date64,
            ScalarValue::Decimal128(_, p, s) => DataType::Decimal128(*p, *s),
        }
    }

    /// Whether this value is null.
    pub fn is_null(&self) -> (r: bool)
        ensures
            r == scalar_is_null(*self),
    {
        match self {
            ScalarValue::Null => true,
            ScalarValue::Boolean(x) => x.is_none(),
            ScalarValue::Int8(x) => x.is_none(),
            ScalarValue::Int16(x) => x.is_none(),
            ScalarValue::Int32(x) => x.is_none(),
            ScalarValue::Int64(x) => x.is_none(),
            ScalarValue::UInt8(x) => x.is_none(),
            ScalarValue::UInt16(x) => x.is_none(),
            ScalarValue::UInt32(x) => x.is_none(),
            ScalarValue::UInt64(x) => x.is_none(),
            ScalarValue::Utf8(x) => x.is_none(),
            ScalarValue::Binary(x) => x.is_none(),
            ScalarValue::Date32(x) => x.is_none(),
            ScalarValue::Date64(x) => x.is_none(),
            ScalarValue::Decimal128(x, _, _) => x.is_none(),
        }
    }

    /// The null value of `dt`.
    pub fn new_null(dt: &DataType) -> (r: ScalarValue)
        ensures
            r == null_of(*dt),
    {
        match dt {
            DataType::Null => ScalarValue::Null,
            DataType::Boolean => ScalarValue::Boolean(None),
            DataType::Int8 => ScalarValue::Int8(None),
            DataType::Int16 => ScalarValue::Int16(None),
            DataType::Int32 => ScalarValue::Int32(None),
            DataType::Int64 => ScalarValue::Int64(None),
            DataType::UInt8 => ScalarValue::UInt8(None),
            DataType::UInt16 => ScalarValue::UInt16(None),
            DataType::UInt32 => ScalarValue::UInt32(None),
            DataType::UInt64 => ScalarValue::UInt64(None),
            DataType::Utf8 => ScalarValue::Utf8(None),
            DataType::Binary => ScalarValue::Binary(None),
            DataType::Date32 => ScalarValue::Date32(None),
            DataType::Date64 => ScalarValue::Date64(None),
            DataType::Decimal128(p, s) => ScalarValue::Decimal128(None, *p, *s),
        }
    }

    /// The integer held by this value, if it is a non-null integer.
    pub fn to_i128(&self) -> (r: Option<i128>)
        ensures
            match r {
                Some(x) => scalar_int(*self) == Some(x as int),
                None => scalar_int(*self) is None,
            },
    {
        match self {
            ScalarValue::Int8(Some(x)) => Some(*x as i128),
            ScalarValue::Int16(Some(x)) => Some(*x as i128),
            ScalarValue::Int32(Some(x)) => Some(*x as i128),
            ScalarValue::Int64(Some(x)) => Some(*x as i128),
            ScalarValue::UInt8(Some(x)) => Some(*x as i128),
            ScalarValue::UInt16(Some(x)) => Some(*x as i128),
            ScalarValue::UInt32(Some(x)) => Some(*x as i128),
            ScalarValue::UInt64(Some(x)) => Some(*x as i128),
            _ => None,
        }
    }

    /// The non-null integer scalar of type `dt` holding `v`.
    pub fn from_i128(dt: &DataType, v: i128) -> (r: ScalarValue)
        requires
            in_int_range(*dt, v as int),
        ensures
            r == int_scalar(*dt, v as int),
    {
        match dt {
            DataType::Int8 => ScalarValue::Int8(Some(v as i8)),
            DataType::Int16 => ScalarValue::Int16(Some(v as i16)),
            DataType::Int32 => ScalarValue::Int32(Some(v as i32)),
            DataType::Int64 => ScalarValue::Int64(Some(v as i64)),
            DataType::UInt8 => ScalarValue::UInt8(Some(v as u8)),
            DataType::UInt16 => ScalarValue::UInt16(Some(v as u16)),
            DataType::UInt32 => ScalarValue::UInt32(Some(v as u32)),
            DataType::UInt64 => ScalarValue::UInt64(Some(v as u64)),
            _ => ScalarValue::new_null(dt),
        }
    }
}

} // verus!
