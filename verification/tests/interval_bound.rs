use std::sync::Arc;

use overflow_safe::column::{Column, TableReference};
use overflow_safe::data_type::DataType;
use overflow_safe::error::DataFusionError;
use overflow_safe::expr::{Alias, BinaryExpr, Cast, Expr, Operator};
use overflow_safe::interval::Interval;
use overflow_safe::interval_bound::integer_interval_for_expr;
use overflow_safe::scalar::ScalarValue;
use overflow_safe::schema::{DFField, DFSchema};
use overflow_safe::simplify::{ExecutionProps, SimplifyContext, SimplifyInfo};

fn field(name: &str, data_type: DataType) -> DFField {
    DFField {
        qualifier: Some(TableReference::Bare { table: "t".into() }),
        name: name.to_string(),
        data_type,
        nullable: false,
    }
}

fn schema() -> Arc<DFSchema> {
    Arc::new(DFSchema {
        fields: vec![
            field("i8", DataType::Int8),
            field("i16", DataType::Int16),
            field("i32", DataType::Int32),
            field("i64", DataType::Int64),
            field("u8", DataType::UInt8),
            field("u64", DataType::UInt64),
            field("s", DataType::Utf8),
        ],
    })
}

fn col(name: &str) -> Expr {
    Expr::Column(Column { relation: None, name: name.to_string() })
}

fn lit(v: ScalarValue) -> Expr {
    Expr::Literal(v)
}

fn bin(left: Expr, op: Operator, right: Expr) -> Expr {
    Expr::BinaryExpr(BinaryExpr { left: Box::new(left), op, right: Box::new(right) })
}

fn cast(e: Expr, dt: DataType) -> Expr {
    Expr::Cast(Cast { expr: Box::new(e), data_type: dt })
}

fn bounds(iv: &Interval) -> (ScalarValue, ScalarValue) {
    (iv.lower().clone(), iv.upper().clone())
}

#[test]
fn column_gives_full_range_of_its_type() {
    let props = ExecutionProps::new();
    let ctx = SimplifyContext::new(&props).with_schema(schema());
    let iv = integer_interval_for_expr(&col("i32"), &ctx).unwrap();
    assert_eq!(bounds(&iv), (ScalarValue::Int32(Some(i32::MIN)), ScalarValue::Int32(Some(i32::MAX))));
    let iv = integer_interval_for_expr(&col("u8"), &ctx).unwrap();
    assert_eq!(bounds(&iv), (ScalarValue::UInt8(Some(0)), ScalarValue::UInt8(Some(255))));
}

#[test]
fn literal_gives_single_value() {
    let props = ExecutionProps::new();
    let ctx = SimplifyContext::new(&props).with_schema(schema());
    let iv = integer_interval_for_expr(&lit(ScalarValue::Int32(Some(7))), &ctx).unwrap();
    assert_eq!(bounds(&iv), (ScalarValue::Int32(Some(7)), ScalarValue::Int32(Some(7))));
    let iv = integer_interval_for_expr(&lit(ScalarValue::Int32(None)), &ctx).unwrap();
    assert!(iv.is_unbounded());
    assert_eq!(iv.data_type(), DataType::Int32);
}

#[test]
fn non_integer_expression_is_unbounded() {
    let props = ExecutionProps::new();
    let ctx = SimplifyContext::new(&props).with_schema(schema());
    let iv = integer_interval_for_expr(&col("s"), &ctx).unwrap();
    assert!(iv.is_unbounded());
    assert_eq!(iv.data_type(), DataType::Utf8);
    assert_eq!(iv.lower(), &ScalarValue::Utf8(None));
}

#[test]
fn addition_overflowing_its_type_is_unbounded() {
    let props = ExecutionProps::new();
    let ctx = SimplifyContext::new(&props).with_schema(schema());
    // i32 + 1 may overflow Int32
    let e = bin(col("i32"), Operator::Plus, lit(ScalarValue::Int32(Some(1))));
    let iv = integer_interval_for_expr(&e, &ctx).unwrap();
    assert!(iv.is_unbounded());
    assert_eq!(iv.data_type(), DataType::Int32);
}

#[test]
fn promoted_addition_is_bounded() {
    let props = ExecutionProps::new();
    let ctx = SimplifyContext::new(&props).with_schema(schema());
    // CAST(i32 AS Int64) + 1 cannot overflow Int64
    let e = bin(cast(col("i32"), DataType::Int64), Operator::Plus, lit(ScalarValue::Int64(Some(1))));
    let iv = integer_interval_for_expr(&e, &ctx).unwrap();
    assert_eq!(
        bounds(&iv),
        (
            ScalarValue::Int64(Some(i32::MIN as i64 + 1)),
            ScalarValue::Int64(Some(i32::MAX as i64 + 1))
        )
    );
}

#[test]
fn subtraction_multiplication_division() {
    let props = ExecutionProps::new();
    let ctx = SimplifyContext::new(&props).with_schema(schema());
    let i16_64 = cast(col("i16"), DataType::Int64);
    let e = bin(lit(ScalarValue::Int64(Some(10))), Operator::Minus, cast(col("i16"), DataType::Int64));
    let iv = integer_interval_for_expr(&e, &ctx).unwrap();
    assert_eq!(bounds(&iv), (ScalarValue::Int64(Some(10 - 32767)), ScalarValue::Int64(Some(10 + 32768))));
    let e = bin(i16_64, Operator::Multiply, lit(ScalarValue::Int64(Some(-3))));
    let iv = integer_interval_for_expr(&e, &ctx).unwrap();
    assert_eq!(bounds(&iv), (ScalarValue::Int64(Some(-98301)), ScalarValue::Int64(Some(98304))));
    let e = bin(col("i8"), Operator::Divide, lit(ScalarValue::Int8(Some(-2))));
    let iv = integer_interval_for_expr(&e, &ctx).unwrap();
    // -128 / -2 = 64, 127 / -2 = -63 (rounded toward zero)
    assert_eq!(bounds(&iv), (ScalarValue::Int8(Some(-63)), ScalarValue::Int8(Some(64))));
    let e = bin(col("i8"), Operator::Divide, lit(ScalarValue::Int8(Some(-1))));
    let iv = integer_interval_for_expr(&e, &ctx).unwrap();
    // -128 / -1 overflows Int8
    assert!(iv.is_unbounded());
    let e = bin(lit(ScalarValue::Int8(Some(5))), Operator::Divide, col("i8"));
    let iv = integer_interval_for_expr(&e, &ctx).unwrap();
    // the divisor may be zero
    assert!(iv.is_unbounded());
}

#[test]
fn negation() {
    let props = ExecutionProps::new();
    let ctx = SimplifyContext::new(&props).with_schema(schema());
    let iv = integer_interval_for_expr(&Expr::Negative(Box::new(col("i8"))), &ctx).unwrap();
    // -(-128) overflows Int8
    assert!(iv.is_unbounded());
    let e = Expr::Negative(Box::new(lit(ScalarValue::Int16(Some(-5)))));
    let iv = integer_interval_for_expr(&e, &ctx).unwrap();
    assert_eq!(bounds(&iv), (ScalarValue::Int16(Some(5)), ScalarValue::Int16(Some(5))));
    let e = Expr::Negative(Box::new(col("u8")));
    assert_eq!(integer_interval_for_expr(&e, &ctx).err(), Some(DataFusionError::UnsupportedNegation));
}

#[test]
fn casts() {
    let props = ExecutionProps::new();
    let ctx = SimplifyContext::new(&props).with_schema(schema());
    let e = cast(lit(ScalarValue::Int64(Some(300))), DataType::Int16);
    let iv = integer_interval_for_expr(&e, &ctx).unwrap();
    assert_eq!(bounds(&iv), (ScalarValue::Int16(Some(300)), ScalarValue::Int16(Some(300))));
    // narrowing the full Int32 range: the bounds wrap around and do not form an interval
    let e = cast(col("i32"), DataType::Int16);
    assert_eq!(integer_interval_for_expr(&e, &ctx).err(), Some(DataFusionError::InvalidInterval));
    // Int8 values are not cast
    let e = cast(col("i8"), DataType::Int64);
    assert_eq!(integer_interval_for_expr(&e, &ctx).err(), Some(DataFusionError::UnsupportedCast));
    // a cast of an unbounded interval is unbounded in the target type
    let e = cast(bin(col("i32"), Operator::Plus, col("i32")), DataType::Int64);
    let iv = integer_interval_for_expr(&e, &ctx).unwrap();
    assert!(iv.is_unbounded());
    assert_eq!(iv.data_type(), DataType::Int64);
}

#[test]
fn errors_propagate() {
    let props = ExecutionProps::new();
    let ctx = SimplifyContext::new(&props).with_schema(schema());
    let e = bin(col("i32"), Operator::Plus, col("missing"));
    assert_eq!(integer_interval_for_expr(&e, &ctx).err(), Some(DataFusionError::FieldNotFound));
    let e = bin(cast(col("i16"), DataType::Int32), Operator::Plus, lit(ScalarValue::Int64(Some(1))));
    // Int32 and Int64 bounds cannot be added without a common type
    assert_eq!(integer_interval_for_expr(&e, &ctx).err(), Some(DataFusionError::TypeMismatch));
    let no_schema = SimplifyContext::new(&props);
    assert_eq!(
        integer_interval_for_expr(&col("i32"), &no_schema).err(),
        Some(DataFusionError::MissingSchema)
    );
}

#[test]
fn aliases_and_comparisons_are_unbounded() {
    let props = ExecutionProps::new();
    let ctx = SimplifyContext::new(&props).with_schema(schema());
    let e = Expr::Alias(Alias { expr: Box::new(col("i8")), relation: None, name: "x".to_string() });
    let iv = integer_interval_for_expr(&e, &ctx).unwrap();
    assert!(iv.is_unbounded());
    let e = bin(col("i8"), Operator::Modulo, lit(ScalarValue::Int8(Some(3))));
    let iv = integer_interval_for_expr(&e, &ctx).unwrap();
    assert!(iv.is_unbounded());
    let e = bin(col("i8"), Operator::Lt, col("i8"));
    let iv = integer_interval_for_expr(&e, &ctx).unwrap();
    assert_eq!(iv.data_type(), DataType::Boolean);
    assert!(iv.is_unbounded());
    assert_eq!(ctx.get_data_type(&e), Ok(DataType::Boolean));
}

#[test]
fn interval_arithmetic_directly() {
    let a = Interval::try_new(ScalarValue::Int16(Some(-3)), ScalarValue::Int16(Some(4))).unwrap();
    let b = Interval::try_new(ScalarValue::Int16(Some(2)), ScalarValue::Int16(Some(5))).unwrap();
    assert_eq!(bounds(&a.add(&b).unwrap()), (ScalarValue::Int16(Some(-1)), ScalarValue::Int16(Some(9))));
    assert_eq!(bounds(&a.sub(&b).unwrap()), (ScalarValue::Int16(Some(-8)), ScalarValue::Int16(Some(2))));
    assert_eq!(bounds(&a.mul(&b).unwrap()), (ScalarValue::Int16(Some(-15)), ScalarValue::Int16(Some(20))));
    assert_eq!(bounds(&a.div(&b).unwrap()), (ScalarValue::Int16(Some(-1)), ScalarValue::Int16(Some(2))));
    assert!(b.div(&a).unwrap().is_unbounded());
    assert_eq!(bounds(&a.arithmetic_negate().unwrap()), (ScalarValue::Int16(Some(-4)), ScalarValue::Int16(Some(3))));
    let big = Interval::try_new(ScalarValue::Int16(Some(200)), ScalarValue::Int16(Some(300))).unwrap();
    assert_eq!(big.mul(&big).err(), Some(DataFusionError::ArithmeticOverflow));
    let u = Interval::try_new(ScalarValue::UInt64(Some(u64::MAX)), ScalarValue::UInt64(Some(u64::MAX))).unwrap();
    assert_eq!(u.mul(&u).err(), Some(DataFusionError::ArithmeticOverflow));
    assert_eq!(u.add(&a).err(), Some(DataFusionError::TypeMismatch));
    assert_eq!(
        Interval::try_new(ScalarValue::Int16(Some(2)), ScalarValue::Int16(Some(1))).err(),
        Some(DataFusionError::InvalidInterval)
    );
    assert_eq!(
        Interval::try_new(ScalarValue::Int16(Some(2)), ScalarValue::Int32(Some(3))).err(),
        Some(DataFusionError::InvalidInterval)
    );
    assert_eq!(
        Interval::try_new(ScalarValue::Int16(None), ScalarValue::Int16(Some(3))).err(),
        Some(DataFusionError::InvalidInterval)
    );
    let unb = Interval::make_unbounded(&DataType::Int16).unwrap();
    assert!(a.add(&unb).unwrap().is_unbounded());
}

#[test]
fn narrowing_cast_outside_target_range_wraps_bounds() {
    let props = ExecutionProps::new();
    let ctx = SimplifyContext::new(&props).with_schema(schema());
    // CAST(i16 AS Int32) / 7 + 45000 lies in [40319, 49681], outside Int16
    let shifted = bin(
        bin(cast(col("i16"), DataType::Int32), Operator::Divide, lit(ScalarValue::Int32(Some(7)))),
        Operator::Plus,
        lit(ScalarValue::Int32(Some(45000))),
    );
    let iv = integer_interval_for_expr(&shifted, &ctx).unwrap();
    assert_eq!(bounds(&iv), (ScalarValue::Int32(Some(40319)), ScalarValue::Int32(Some(49681))));
    // casting those bounds to Int16 wraps them around
    let iv = integer_interval_for_expr(&cast(shifted, DataType::Int16), &ctx).unwrap();
    assert_eq!(bounds(&iv), (ScalarValue::Int16(Some(-25217)), ScalarValue::Int16(Some(-15855))));
}

#[test]
fn cast_through_wider_type_and_back_keeps_value() {
    let props = ExecutionProps::new();
    let ctx = SimplifyContext::new(&props).with_schema(schema());
    let e = cast(cast(lit(ScalarValue::Int16(Some(-300))), DataType::Int64), DataType::Int16);
    let iv = integer_interval_for_expr(&e, &ctx).unwrap();
    assert_eq!(bounds(&iv), (ScalarValue::Int16(Some(-300)), ScalarValue::Int16(Some(-300))));
    let e = cast(cast(col("i32"), DataType::Int64), DataType::Int32);
    let iv = integer_interval_for_expr(&e, &ctx).unwrap();
    assert_eq!(bounds(&iv), (ScalarValue::Int32(Some(i32::MIN)), ScalarValue::Int32(Some(i32::MAX))));
}

#[test]
fn other_types_are_unbounded() {
    let props = ExecutionProps::new();
    let ctx = SimplifyContext::new(&props).with_schema(schema());
    let iv = integer_interval_for_expr(&lit(ScalarValue::Decimal128(Some(1234), 10, 2)), &ctx).unwrap();
    assert!(iv.is_unbounded());
    assert_eq!(iv.data_type(), DataType::Decimal128(10, 2));
    assert_eq!(iv.lower(), &ScalarValue::Decimal128(None, 10, 2));
    let iv = integer_interval_for_expr(&lit(ScalarValue::Date32(Some(19000))), &ctx).unwrap();
    assert_eq!(iv.upper(), &ScalarValue::Date32(None));
}
