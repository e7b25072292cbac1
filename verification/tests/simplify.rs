use std::sync::Arc;

use overflow_safe::column::{Column, TableReference};
use overflow_safe::data_type::DataType;
use overflow_safe::error::DataFusionError;
use overflow_safe::expr::{Alias, BinaryExpr, Cast, Expr, ExprSimplifyResult, Operator};
use overflow_safe::scalar::ScalarValue;
use overflow_safe::schema::{DFField, DFSchema};
use overflow_safe::simplify::{ExecutionProps, SimplifyContext, SimplifyInfo};
use overflow_safe::type_tracker::OriginalTypeTracker;

fn field(table: Option<&str>, name: &str, data_type: DataType, nullable: bool) -> DFField {
    DFField {
        qualifier: table.map(|t| TableReference::Bare { table: t.into() }),
        name: name.to_string(),
        data_type,
        nullable,
    }
}

fn schema() -> Arc<DFSchema> {
    Arc::new(DFSchema {
        fields: vec![
            field(Some("t"), "age", DataType::Int64, false),
            field(Some("t"), "flag", DataType::Boolean, true),
            field(Some("t"), "id", DataType::Int64, false),
            field(Some("u"), "id", DataType::Int32, false),
        ],
    })
}

fn qcol(table: &str, name: &str) -> Column {
    Column { relation: Some(TableReference::Bare { table: table.into() }), name: name.to_string() }
}

fn ucol(name: &str) -> Column {
    Column { relation: None, name: name.to_string() }
}

fn tracker() -> OriginalTypeTracker {
    let mut tracker = OriginalTypeTracker::new();
    tracker.record_original_type(&Some("t".to_string()), "age", DataType::Int32).unwrap();
    tracker.record_original_type(&Some("t".to_string()), "id", DataType::Int64).unwrap();
    tracker
}

#[test]
fn data_types_and_errors() {
    let props = ExecutionProps::new();
    let ctx = SimplifyContext::new(&props).with_schema(schema());
    assert_eq!(ctx.get_data_type(&Expr::Column(ucol("age"))), Ok(DataType::Int64));
    assert_eq!(ctx.get_data_type(&Expr::Column(qcol("u", "id"))), Ok(DataType::Int32));
    assert_eq!(
        ctx.get_data_type(&Expr::Column(ucol("id"))),
        Err(DataFusionError::AmbiguousReference)
    );
    assert_eq!(ctx.get_data_type(&Expr::Column(ucol("nope"))), Err(DataFusionError::FieldNotFound));
    assert_eq!(
        ctx.get_data_type(&Expr::Column(qcol("v", "age"))),
        Err(DataFusionError::FieldNotFound)
    );
    let sum = Expr::BinaryExpr(BinaryExpr {
        left: Box::new(Expr::Column(qcol("u", "id"))),
        op: Operator::Plus,
        right: Box::new(Expr::Literal(ScalarValue::UInt16(Some(1)))),
    });
    assert_eq!(ctx.get_data_type(&sum), Ok(DataType::Int32));
    let bad = Expr::BinaryExpr(BinaryExpr {
        left: Box::new(Expr::Column(ucol("flag"))),
        op: Operator::Plus,
        right: Box::new(Expr::Literal(ScalarValue::Int8(Some(1)))),
    });
    assert_eq!(ctx.get_data_type(&bad), Err(DataFusionError::TypeMismatch));
    let no_schema = SimplifyContext::new(&props);
    assert_eq!(no_schema.get_data_type(&Expr::Column(ucol("age"))), Err(DataFusionError::MissingSchema));
    assert_eq!(no_schema.nullable(&Expr::Column(ucol("age"))), Err(DataFusionError::MissingSchema));
    assert_eq!(no_schema.is_boolean_type(&Expr::Column(ucol("flag"))), Ok(false));
}

#[test]
fn booleans_and_nullability() {
    let props = ExecutionProps::new();
    let ctx = SimplifyContext::new(&props).with_schema(schema());
    assert_eq!(ctx.is_boolean_type(&Expr::Column(ucol("flag"))), Ok(true));
    assert_eq!(ctx.is_boolean_type(&Expr::Column(ucol("age"))), Ok(false));
    assert_eq!(ctx.is_boolean_type(&Expr::Column(ucol("nope"))), Ok(false));
    assert_eq!(ctx.nullable(&Expr::Column(ucol("flag"))), Ok(true));
    assert_eq!(ctx.nullable(&Expr::Column(ucol("age"))), Ok(false));
    let cmp = Expr::BinaryExpr(BinaryExpr {
        left: Box::new(Expr::Column(ucol("age"))),
        op: Operator::Lt,
        right: Box::new(Expr::Literal(ScalarValue::Int64(None))),
    });
    assert_eq!(ctx.is_boolean_type(&cmp), Ok(true));
    assert_eq!(ctx.nullable(&cmp), Ok(true));
    assert_eq!(ctx.execution_props().query_execution_start_time, None);
}

#[test]
fn original_types_through_the_context() {
    let props = ExecutionProps::new();
    let ctx = SimplifyContext::new(&props).with_schema(schema()).with_original_type_tracker(tracker());
    let info = ctx.get_original_type_info(&qcol("t", "age")).unwrap().unwrap();
    assert_eq!(info.original_type, DataType::Int32);
    assert_eq!(info.current_type, DataType::Int64);
    assert!(info.was_coerced);
    assert_eq!(ctx.get_original_type_info(&qcol("u", "id")), Ok(None));
    assert_eq!(ctx.get_original_type_info(&ucol("id")), Err(DataFusionError::AmbiguousReference));

    let age = Expr::Column(qcol("t", "age"));
    assert_eq!(ctx.is_originally_small_int(&age), Ok(true));
    let cast_alias = Expr::Alias(Alias {
        expr: Box::new(Expr::Cast(Cast { expr: Box::new(Expr::Column(ucol("age"))), data_type: DataType::Int64 })),
        relation: None,
        name: "a".to_string(),
    });
    // the tracker knows "t.age", not the unqualified "age"
    assert_eq!(ctx.is_originally_small_int(&cast_alias), Ok(false));
    let cast_alias = Expr::Alias(Alias {
        expr: Box::new(Expr::Cast(Cast { expr: Box::new(age), data_type: DataType::Int64 })),
        relation: None,
        name: "a".to_string(),
    });
    assert_eq!(ctx.is_originally_small_int(&cast_alias), Ok(true));
    assert_eq!(ctx.is_originally_small_int(&Expr::Column(qcol("t", "id"))), Ok(false));
    assert_eq!(
        ctx.is_originally_small_int(&Expr::Literal(ScalarValue::Int8(Some(1)))),
        Ok(false)
    );

    let no_tracker = SimplifyContext::new(&props).with_schema(schema());
    assert_eq!(no_tracker.get_original_type_info(&qcol("t", "age")), Ok(None));
    assert_eq!(no_tracker.is_originally_small_int(&Expr::Column(qcol("t", "age"))), Ok(false));

    let no_schema = SimplifyContext::new(&props).with_original_type_tracker(tracker());
    assert_eq!(
        no_schema.is_originally_small_int(&Expr::Column(qcol("t", "age"))),
        Err(DataFusionError::MissingSchema)
    );
}

#[test]
fn simplify_result_holds_expressions() {
    let r = ExprSimplifyResult::Original(vec![Expr::Literal(ScalarValue::Boolean(Some(true)))]);
    match r {
        ExprSimplifyResult::Original(args) => assert_eq!(args.len(), 1),
        ExprSimplifyResult::Simplified(_) => panic!("expected the original arguments"),
    }
}
