use overflow_safe::column::{column_to_key, parse_column_key, Column, TableReference};
use overflow_safe::data_type::DataType;
use overflow_safe::type_tracker::{OriginalTypeInfo, OriginalTypeTracker};

fn bare_column(table: &str, name: &str) -> Column {
    Column {
        relation: Some(TableReference::Bare { table: table.into() }),
        name: name.to_string(),
    }
}

#[test]
fn test_original_type_tracker() {
    let mut tracker = OriginalTypeTracker::new();

    // Test recording and retrieving types
    let table_name = Some("test_table".to_string());
    tracker.record_original_type(&table_name, "id", DataType::Int32).unwrap();

    let column = Column {
        relation: Some(TableReference::Bare {
            table: "test_table".into(),
        }),
        name: "id".to_string(),
    };

    assert_eq!(tracker.get_original_type(&column), Some(DataType::Int32));
}

#[test]
fn test_was_promoted_from_small_int() {
    let mut tracker = OriginalTypeTracker::new();

    let table_name = Some("test_table".to_string());
    tracker.record_original_type(&table_name, "age", DataType::Int32).unwrap();

    let column = Column {
        relation: Some(TableReference::Bare {
            table: "test_table".into(),
        }),
        name: "age".to_string(),
    };

    // Test promotion detection
    assert!(tracker.was_promoted_from_small_int(&column, &DataType::Int64));
    assert!(!tracker.was_promoted_from_small_int(&column, &DataType::Int32));
}

#[test]
fn test_column_key_operations() {
    let column_with_table = Column {
        relation: Some(TableReference::Bare {
            table: "users".into(),
        }),
        name: "age".to_string(),
    };

    let column_without_table = Column {
        relation: None,
        name: "value".to_string(),
    };

    assert_eq!(column_to_key(&column_with_table), "users.age");
    assert_eq!(column_to_key(&column_without_table), "value");

    assert_eq!(parse_column_key("users.age"), (Some("users".to_string()), "age".to_string()));
    assert_eq!(parse_column_key("value"), (None, "value".to_string()));
}

#[test]
fn test_original_type_info() {
    let info = OriginalTypeInfo::new(DataType::Int32, DataType::Int64);
    assert!(info.was_coerced);
    assert!(info.is_originally_small_int());

    let info = OriginalTypeInfo::new(DataType::Int64, DataType::Int64);
    assert!(!info.was_coerced);
    assert!(!info.is_originally_small_int());
}

#[test]
fn test_record_overwrites_and_keeps_others() {
    let mut tracker = OriginalTypeTracker::new();
    let t = Some("t".to_string());
    tracker.record_original_type(&t, "a", DataType::Int8).unwrap();
    tracker.record_original_type(&t, "b", DataType::Int16).unwrap();
    tracker.record_original_type(&None, "a", DataType::UInt8).unwrap();
    assert_eq!(tracker.len(), 3);
    tracker.record_original_type(&t, "a", DataType::Int64).unwrap();
    assert_eq!(tracker.len(), 3);
    assert_eq!(tracker.get_original_type(&bare_column("t", "a")), Some(DataType::Int64));
    assert_eq!(tracker.get_original_type(&bare_column("t", "b")), Some(DataType::Int16));
    let unqualified = Column { relation: None, name: "a".to_string() };
    assert_eq!(tracker.get_original_type(&unqualified), Some(DataType::UInt8));
    assert_eq!(tracker.get_original_type(&bare_column("u", "a")), None);
}

#[test]
fn test_qualified_relation_key() {
    let mut tracker = OriginalTypeTracker::new();
    tracker.record_original_type(&Some("s.t".to_string()), "c", DataType::Int16).unwrap();
    let partial = Column {
        relation: Some(TableReference::Partial { schema: "s".into(), table: "t".into() }),
        name: "c".to_string(),
    };
    assert_eq!(tracker.get_original_type(&partial), Some(DataType::Int16));
    assert_eq!(column_to_key(&partial), "s.t.c");
    let full = Column {
        relation: Some(TableReference::Full {
            catalog: "k".into(),
            schema: "s".into(),
            table: "t".into(),
        }),
        name: "c".to_string(),
    };
    assert_eq!(column_to_key(&full), "k.s.t.c");
    assert_eq!(tracker.get_original_type(&full), None);
}

#[test]
fn test_clear_len_is_empty() {
    let mut tracker = OriginalTypeTracker::default();
    assert!(tracker.is_empty());
    assert_eq!(tracker.len(), 0);
    tracker.record_original_type(&None, "x", DataType::Int32).unwrap();
    tracker.record_expression_type("e1", DataType::Int16).unwrap();
    assert!(!tracker.is_empty());
    assert_eq!(tracker.len(), 1);
    tracker.clear();
    assert!(tracker.is_empty());
    assert_eq!(tracker.len(), 0);
    assert_eq!(tracker.get_original_type(&Column { relation: None, name: "x".to_string() }), None);
    assert_eq!(tracker.get_expression_original_type("e1"), None);
}

#[test]
fn test_expression_types() {
    let mut tracker = OriginalTypeTracker::new();
    tracker.record_expression_type("a + 1", DataType::Int32).unwrap();
    tracker.record_expression_type("b", DataType::Int8).unwrap();
    tracker.record_expression_type("a + 1", DataType::Int64).unwrap();
    assert_eq!(tracker.get_expression_original_type("a + 1"), Some(DataType::Int64));
    assert_eq!(tracker.get_expression_original_type("b"), Some(DataType::Int8));
    assert_eq!(tracker.get_expression_original_type("c"), None);
    // expression types are not columns
    assert_eq!(tracker.len(), 0);
}

#[test]
fn test_original_type_info_lookup() {
    let mut tracker = OriginalTypeTracker::new();
    tracker.record_original_type(&Some("t".to_string()), "age", DataType::Int16).unwrap();
    let info = tracker.get_original_type_info(&bare_column("t", "age"), &DataType::Int64).unwrap();
    assert_eq!(info.original_type, DataType::Int16);
    assert_eq!(info.current_type, DataType::Int64);
    assert!(info.was_coerced);
    assert!(tracker.get_original_type_info(&bare_column("t", "other"), &DataType::Int64).is_none());
}

#[test]
fn test_promotion_needs_small_int_and_changed_type() {
    let mut tracker = OriginalTypeTracker::new();
    let t = Some("t".to_string());
    tracker.record_original_type(&t, "i8", DataType::Int8).unwrap();
    tracker.record_original_type(&t, "i32", DataType::Int32).unwrap();
    tracker.record_original_type(&t, "i64", DataType::Int64).unwrap();
    tracker.record_original_type(&t, "u8", DataType::UInt8).unwrap();
    assert!(tracker.was_promoted_from_small_int(&bare_column("t", "i8"), &DataType::Int16));
    assert!(tracker.was_promoted_from_small_int(&bare_column("t", "i8"), &DataType::Int64));
    assert!(tracker.was_promoted_from_small_int(&bare_column("t", "i8"), &DataType::UInt64));
    assert!(tracker.was_promoted_from_small_int(&bare_column("t", "i32"), &DataType::Int16));
    assert!(tracker.was_promoted_from_small_int(&bare_column("t", "i32"), &DataType::Utf8));
    assert!(!tracker.was_promoted_from_small_int(&bare_column("t", "i8"), &DataType::Int8));
    assert!(!tracker.was_promoted_from_small_int(&bare_column("t", "i64"), &DataType::Int64));
    assert!(!tracker.was_promoted_from_small_int(&bare_column("t", "i64"), &DataType::Int32));
    assert!(!tracker.was_promoted_from_small_int(&bare_column("t", "u8"), &DataType::Int64));
    assert!(!tracker.was_promoted_from_small_int(&bare_column("t", "none"), &DataType::Int64));
}

#[test]
fn test_len_counts_distinct_recorded_keys() {
    let mut tracker = OriginalTypeTracker::new();
    let t = Some("t".to_string());
    let keys = [("a", DataType::Date32), ("b", DataType::Decimal128(10, 2)), ("a", DataType::Int16), ("c", DataType::Binary)];
    let mut expected = 0;
    let mut seen: Vec<&str> = Vec::new();
    for (name, dt) in keys.iter() {
        if !seen.contains(name) {
            seen.push(name);
            expected += 1;
        }
        tracker.record_original_type(&t, name, *dt).unwrap();
        tracker.record_expression_type(name, *dt).unwrap();
        assert_eq!(tracker.len(), expected);
    }
    assert_eq!(tracker.get_original_type(&bare_column("t", "a")), Some(DataType::Int16));
    assert_eq!(tracker.get_original_type(&bare_column("t", "b")), Some(DataType::Decimal128(10, 2)));
    tracker.clear();
    tracker.record_original_type(&t, "a", DataType::Int8).unwrap();
    assert_eq!(tracker.len(), 1);
}

#[test]
fn test_parse_column_key_splits_at_last_dot() {
    assert_eq!(parse_column_key("a.b.c"), (Some("a.b".to_string()), "c".to_string()));
    assert_eq!(parse_column_key("a."), (Some("a".to_string()), "".to_string()));
    assert_eq!(parse_column_key(".c"), (Some("".to_string()), "c".to_string()));
    assert_eq!(parse_column_key(""), (None, "".to_string()));
    assert_eq!(parse_column_key("é.ü"), (Some("é".to_string()), "ü".to_string()));
}

#[test]
fn test_key_round_trip() {
    let c = Column {
        relation: Some(TableReference::Partial { schema: "s".into(), table: "t".into() }),
        name: "col".to_string(),
    };
    let key = column_to_key(&c);
    assert_eq!(parse_column_key(&key), (Some("s.t".to_string()), "col".to_string()));
    let d = Column { relation: None, name: "v".to_string() };
    assert_eq!(parse_column_key(&column_to_key(&d)), (None, "v".to_string()));
    // a name holding '.' does not survive the round trip
    let e = Column { relation: None, name: "a.b".to_string() };
    assert_eq!(parse_column_key(&column_to_key(&e)), (Some("a".to_string()), "b".to_string()));
}
