use polars_core::chunked_array::categorical::StringCache;
use polars_core::chunked_array::logical::LogicalType;
use polars_core::chunked_array::{
    CategoricalChunked, Int32Chunked, Int64Chunked, Scalar, Utf8Chunked,
};
use polars_core::datatypes::{AnyValue, DataType, Field, RevMapping, TimeUnit};
use polars_core::error::PolarsError;
use polars_core::series::Series;

#[test]
fn test_iter() {
    let a = Series::new("age", [23, 71, 9].as_ref());
    let _b = a
        .i32()
        .unwrap()
        .to_vec()
        .into_iter()
        .map(|opt_v| opt_v.map(|v| v * 2));
}

#[test]
fn series_iter_walks_the_values() {
    let a = Series::new("age", [23, 71, 9].as_ref());
    assert_eq!(a.len(), 3);
    assert_eq!(a.name(), "age");
    assert_eq!(a.dtype(), DataType::Int32);
    let mut it = a.iter();
    assert!(matches!(a.get_checked(2), Some(AnyValue::Int32(9))));
    assert!(a.get_checked(3).is_none());
    assert!(matches!(it.next(), Some(AnyValue::Int32(23))));
    assert!(matches!(it.next(), Some(AnyValue::Int32(71))));
    assert!(matches!(it.next(), Some(AnyValue::Int32(9))));
    assert!(it.next().is_none());
    assert!(it.next().is_none());
}

#[test]
fn into_date_reinterprets_values() {
    let ca = Int32Chunked::new_from_opt_slice("d", &[Some(1), None, Some(-3)]);
    assert_eq!(ca.null_count(), 1);
    let dates = ca.into_date();
    assert_eq!(dates.dtype(), &DataType::Date);
    assert!(matches!(dates.get_any_value(0), AnyValue::Date(1)));
    assert!(matches!(dates.get_any_value(1), AnyValue::Null));
    assert!(matches!(dates.get_any_value(2), AnyValue::Date(-3)));
    let f = dates.field();
    assert_eq!(f.name(), "d");
    assert_eq!(f.data_type(), &DataType::Date);
}

#[test]
fn chunks_are_appended_not_merged() {
    let mut a = Int32Chunked::new_from_slice("a", &[1, 2]);
    let b = Int32Chunked::new_from_opt_slice("b", &[None, Some(4)]);
    a.append(b);
    assert_eq!(a.name(), "a");
    assert_eq!(a.len(), 4);
    assert!(!a.is_empty());
    assert_eq!(a.chunks().len(), 2);
    assert_eq!(a.null_count(), 1);
    assert_eq!(a.to_vec(), vec![Some(1), Some(2), None, Some(4)]);
    assert!(matches!(a.get_any_value(3), AnyValue::Int32(4)));
    assert!(matches!(a.get_any_value(2), AnyValue::Null));
    assert!(matches!(a.get(3), Some(AnyValue::Int32(4))));
    assert!(a.get(4).is_none());
    let copy = a.clone();
    assert_eq!(copy.to_vec(), a.to_vec());
    assert_eq!(copy.chunks().len(), 2);
    let one = a.rechunk();
    assert_eq!(one.chunks().len(), 1);
    assert_eq!(one.to_vec(), a.to_vec());
    assert_eq!(one.name(), "a");
    assert_eq!(a.chunks().len(), 2);
    assert_eq!(copy.ref_field(), a.ref_field());
}

#[test]
fn chunks_must_have_the_type_of_the_column() {
    let good = vec![
        vec![Some(Scalar::Int32(1)), None],
        vec![],
        vec![Some(Scalar::Int32(3))],
    ];
    let ca = Int32Chunked::from_chunks("x", good).unwrap();
    assert_eq!(ca.len(), 3);
    assert_eq!(ca.chunks().len(), 3);
    assert!(matches!(ca.get_any_value(2), AnyValue::Int32(3)));
    let bad = vec![vec![Some(Scalar::Int32(1))], vec![Some(Scalar::Int64(1))]];
    assert!(Int32Chunked::from_chunks("x", bad).is_none());
    // a date column stores 32-bit integers
    let stored = vec![vec![Some(Scalar::Utf8("a".to_string()))]];
    assert!(Utf8Chunked::from_chunks("s", stored).is_some());
    let empty = Int32Chunked::from_chunks("e", vec![]).unwrap();
    assert!(empty.is_empty());
    assert_eq!(empty.null_count(), 0);
}

#[test]
fn series_of_other_types_are_no_i32() {
    let s = Series::Utf8(Utf8Chunked::from_chunks("s", vec![]).unwrap());
    assert_eq!(s.dtype(), DataType::Utf8);
    assert_eq!(s.n_chunks(), 0);
    assert!(matches!(
        s.i32(),
        Err(PolarsError::SchemaMisMatch(m)) if m == "Series dtype is not i32"
    ));
    let d = Series::Date(Int32Chunked::new_from_slice("d", &[7]).into_date());
    assert_eq!(d.dtype(), DataType::Date);
    assert!(matches!(d.get(0), AnyValue::Date(7)));
    assert_eq!(d.field(), Field::new("d", DataType::Date));
    let copy = d.clone();
    assert!(matches!(copy.get(0), AnyValue::Date(7)));
}

fn int64_column(name: &str, values: &[Option<i64>]) -> Int64Chunked {
    let chunk = values.iter().map(|v| v.map(Scalar::Int64)).collect();
    Int64Chunked::from_chunks(name, vec![chunk]).unwrap()
}

#[test]
fn datetime_columns_carry_unit_and_time_zone() {
    let ca = int64_column("t", &[Some(5), None]);
    let dt = ca.into_datetime(TimeUnit::Milliseconds, Some("UTC".to_string()));
    assert_eq!(
        dt.dtype(),
        &DataType::Datetime(TimeUnit::Milliseconds, Some("UTC".to_string()))
    );
    assert_eq!(dt.time_unit(), TimeUnit::Milliseconds);
    assert_eq!(dt.time_zone(), &Some("UTC".to_string()));
    assert!(matches!(
        dt.get_any_value(0),
        AnyValue::Datetime(5, TimeUnit::Milliseconds, Some(tz)) if tz == "UTC"
    ));
    assert!(matches!(dt.get_any_value(1), AnyValue::Null));
    assert_eq!(
        dt.field(),
        Field::new(
            "t",
            DataType::Datetime(TimeUnit::Milliseconds, Some("UTC".to_string()))
        )
    );
    // the stored values are those of the physical column
    assert_eq!(dt.len(), 2);
    assert_eq!(dt.null_count(), 1);
    assert!(matches!(dt.0.get_any_value(0), AnyValue::Int64(5)));
}

#[test]
fn duration_and_time_columns() {
    let d = int64_column("d", &[Some(7)]).into_duration(TimeUnit::Nanoseconds);
    assert_eq!(d.dtype(), &DataType::Duration(TimeUnit::Nanoseconds));
    assert_eq!(d.time_unit(), TimeUnit::Nanoseconds);
    assert!(matches!(
        d.get_any_value(0),
        AnyValue::Duration(7, TimeUnit::Nanoseconds)
    ));
    let t = int64_column("t", &[Some(9), None]).into_time();
    assert_eq!(t.dtype(), &DataType::Time);
    assert!(matches!(t.get_any_value(0), AnyValue::Time(9)));
    assert!(matches!(t.get_any_value(1), AnyValue::Null));
    assert_eq!(t.field(), Field::new("t", DataType::Time));
    let copy = t.clone();
    assert!(matches!(copy.get_any_value(0), AnyValue::Time(9)));
}

#[test]
fn categorical_columns_store_indices() {
    let chunk = vec![Some(Scalar::UInt32(1)), None, Some(Scalar::UInt32(0))];
    let ca = CategoricalChunked::from_chunks("c", vec![chunk]).unwrap();
    assert_eq!(ca.ref_field(), &Field::new("c", DataType::Categorical));
    let rev_map = RevMapping::Local(vec!["a".to_string(), "b".to_string()]);
    assert!(matches!(
        ca.get_categorical(0, &rev_map),
        AnyValue::Categorical(1, RevMapping::Local(_))
    ));
    assert!(matches!(ca.get_categorical(1, &rev_map), AnyValue::Null));
    assert!(matches!(ca.get_any_value(2), AnyValue::UInt32(0)));
    // strings are no indices
    let strings = vec![vec![Some(Scalar::Utf8("a".to_string()))]];
    assert!(CategoricalChunked::from_chunks("c", strings).is_none());
}

#[test]
fn string_cache_only_grows() {
    let mut cache = StringCache::new(7);
    assert!(cache.is_empty());
    assert_eq!(cache.id(), 7);
    assert_eq!(cache.insert("a"), Some(0));
    assert_eq!(cache.insert("b"), Some(1));
    assert_eq!(cache.insert("a"), Some(0));
    assert_eq!(cache.insert(""), Some(2));
    assert_eq!(cache.len(), 3);
    assert_eq!(cache.index_of("b"), Some(1));
    assert_eq!(cache.index_of("c"), None);
    assert_eq!(cache.get(1).map(|s| s.as_str()), Some("b"));
    assert_eq!(cache.get(3), None);
    let before = cache.rev_mapping();
    assert_eq!(cache.insert("c"), Some(3));
    // indices that were handed out stand for the same strings
    assert_eq!(cache.get(0).map(|s| s.as_str()), Some("a"));
    assert_eq!(cache.get(2).map(|s| s.as_str()), Some(""));
    match (before, cache.rev_mapping()) {
        (RevMapping::Global(id_a, a), RevMapping::Global(id_b, b)) => {
            assert_eq!(id_a, id_b);
            assert_eq!(a, vec!["a", "b", ""]);
            assert_eq!(b, vec!["a", "b", "", "c"]);
        }
        _ => panic!("expected mappings of the table"),
    }
    // values of one table compare by index
    let m1 = cache.rev_mapping();
    let m2 = cache.rev_mapping();
    assert_eq!(
        AnyValue::Categorical(1, &m1).eq(&AnyValue::Categorical(1, &m2)),
        Ok(true)
    );
}
