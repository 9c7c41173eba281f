use polars_core::datatypes::{DataType, Field, Schema};
use polars_core::error::PolarsError;

fn schema(fields: &[(&str, DataType)]) -> Schema {
    Schema::new(
        fields
            .iter()
            .map(|(n, dt)| Field::new(n, dt.clone()))
            .collect(),
    )
}

#[test]
fn try_merge_leftmost_wins() {
    let s1 = schema(&[("a", DataType::Int32)]);
    let s2 = schema(&[("a", DataType::Utf8), ("b", DataType::Boolean)]);
    let merged = Schema::try_merge(&[s1, s2]).unwrap();
    assert_eq!(
        merged,
        schema(&[("a", DataType::Int32), ("b", DataType::Boolean)])
    );
}

#[test]
fn index_of_missing_lists_valid_names() {
    let s = schema(&[("a", DataType::Int32), ("b\"c", DataType::Utf8)]);
    assert_eq!(s.index_of("b\"c").unwrap(), 1);
    match s.index_of("zz") {
        Err(PolarsError::NotFound(msg)) => assert_eq!(
            msg,
            "Unable to get field named \"zz\". Valid fields: [\"a\", \"b\\\"c\"]"
        ),
        other => panic!("unexpected {:?}", other),
    }
}

#[test]
fn rename_is_atomic() {
    let s = schema(&[("a", DataType::Int32), ("b", DataType::Utf8)]);
    let renamed = s.rename(&["b", "a"], &["x", "y"]).unwrap();
    assert_eq!(renamed, schema(&[("y", DataType::Int32), ("x", DataType::Utf8)]));
    assert!(matches!(
        s.rename(&["a", "nope"], &["x", "y"]),
        Err(PolarsError::NotFound(_))
    ));
    assert_eq!(s, schema(&[("a", DataType::Int32), ("b", DataType::Utf8)]));
}

#[test]
fn try_merge_keeps_first_appearance_order() {
    let s1 = schema(&[("b", DataType::Int8), ("a", DataType::Int16)]);
    let s2 = schema(&[("c", DataType::Utf8), ("a", DataType::Utf8), ("c", DataType::Date)]);
    let s3 = schema(&[]);
    let s4 = schema(&[("d", DataType::Time), ("b", DataType::Time)]);
    let merged = Schema::try_merge(&[s1, s2, s3, s4]).unwrap();
    assert_eq!(
        merged,
        schema(&[
            ("b", DataType::Int8),
            ("a", DataType::Int16),
            ("c", DataType::Utf8),
            ("d", DataType::Time),
        ])
    );
    assert_eq!(Schema::try_merge(&[]).unwrap(), Schema::default());
}

#[test]
fn lookups_find_the_first_field_of_a_name() {
    let s = schema(&[
        ("a", DataType::Int32),
        ("b", DataType::Utf8),
        ("a", DataType::Date),
    ]);
    assert_eq!(s.len(), 3);
    assert!(!s.is_empty());
    assert!(Schema::default().is_empty());
    assert_eq!(s.index_of("a").unwrap(), 0);
    assert_eq!(s.index_of("b").unwrap(), 1);
    assert_eq!(
        s.field_with_name("a").unwrap(),
        &Field::new("a", DataType::Int32)
    );
    assert!(matches!(
        s.field_with_name("c"),
        Err(PolarsError::NotFound(_))
    ));
    assert_eq!(
        s.column_with_name("b"),
        Some((1, &Field::new("b", DataType::Utf8)))
    );
    assert_eq!(s.column_with_name("c"), None);
    assert_eq!(s.field(2), Some(&Field::new("a", DataType::Date)));
    assert_eq!(s.field(3), None);
    assert_eq!(s.fields().len(), 3);
    assert_eq!(s.names(), vec!["a", "b", "a"]);
    assert_eq!(s.clone(), s);
}

#[test]
fn index_of_on_empty_schema_lists_nothing() {
    match Schema::default().index_of("x") {
        Err(PolarsError::NotFound(msg)) => {
            assert_eq!(msg, "Unable to get field named \"x\". Valid fields: []")
        }
        other => panic!("unexpected {:?}", other),
    }
}

#[test]
fn rename_pairs_names_in_order() {
    let s = schema(&[("a", DataType::Int32), ("b", DataType::Utf8)]);
    // the second rename of one field wins, and names without a partner are ignored
    let renamed = s.rename(&["a", "a", "b"], &["x", "y"]).unwrap();
    assert_eq!(renamed, schema(&[("y", DataType::Int32), ("b", DataType::Utf8)]));
    // old names are looked up in the schema as it was
    let swapped = s.rename(&["a", "b"], &["b", "a"]).unwrap();
    assert_eq!(swapped, schema(&[("b", DataType::Int32), ("a", DataType::Utf8)]));
    // a missing old name fails even where it has no partner
    match s.rename(&["a", "zz"], &["x"]) {
        Err(PolarsError::NotFound(msg)) => assert_eq!(
            msg,
            "Unable to get field named \"zz\". Valid fields: [\"a\", \"b\"]"
        ),
        other => panic!("unexpected {:?}", other),
    }
}

#[test]
fn fields_can_be_changed_in_place() {
    let mut s = schema(&[("a", DataType::Int32), ("b", DataType::Utf8)]);
    s.fields_mut()[0].coerce(DataType::Int64);
    s.fields_mut().push(Field::new("c", DataType::Boolean));
    assert_eq!(
        s,
        schema(&[
            ("a", DataType::Int64),
            ("b", DataType::Utf8),
            ("c", DataType::Boolean),
        ])
    );
    s.set_names(vec!["x".to_string(), "y".to_string(), "z".to_string()]);
    assert_eq!(
        s,
        schema(&[
            ("x", DataType::Int64),
            ("y", DataType::Utf8),
            ("z", DataType::Boolean),
        ])
    );
}
