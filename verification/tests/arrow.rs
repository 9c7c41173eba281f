use polars_core::datatypes::{
    ArrowDataType, ArrowError, ArrowField, ArrowSchema, ArrowTimeUnit, DataType, Field,
    IndexOfSchema, IntegerType, Schema, TimeUnit,
};

#[test]
fn test_arrow_dtypes_to_polars() {
    let dtypes = [
        (
            ArrowDataType::Duration(ArrowTimeUnit::Nanosecond),
            DataType::Duration(TimeUnit::Nanoseconds),
        ),
        (
            ArrowDataType::Duration(ArrowTimeUnit::Millisecond),
            DataType::Duration(TimeUnit::Milliseconds),
        ),
        (
            ArrowDataType::Date64,
            DataType::Datetime(TimeUnit::Milliseconds, None),
        ),
        (
            ArrowDataType::Timestamp(ArrowTimeUnit::Nanosecond, None),
            DataType::Datetime(TimeUnit::Nanoseconds, None),
        ),
        (
            ArrowDataType::Timestamp(ArrowTimeUnit::Microsecond, None),
            DataType::Datetime(TimeUnit::Nanoseconds, None),
        ),
        (
            ArrowDataType::Timestamp(ArrowTimeUnit::Millisecond, None),
            DataType::Datetime(TimeUnit::Milliseconds, None),
        ),
        (
            ArrowDataType::Timestamp(ArrowTimeUnit::Second, None),
            DataType::Datetime(TimeUnit::Milliseconds, None),
        ),
        (
            ArrowDataType::Timestamp(ArrowTimeUnit::Second, Some("".to_string())),
            DataType::Datetime(TimeUnit::Milliseconds, Some("".to_string())),
        ),
        (ArrowDataType::LargeUtf8, DataType::Utf8),
        (ArrowDataType::Utf8, DataType::Utf8),
        (
            ArrowDataType::Time64(ArrowTimeUnit::Nanosecond),
            DataType::Time,
        ),
        (
            ArrowDataType::Time64(ArrowTimeUnit::Millisecond),
            DataType::Time,
        ),
        (
            ArrowDataType::Time64(ArrowTimeUnit::Microsecond),
            DataType::Time,
        ),
        (ArrowDataType::Time64(ArrowTimeUnit::Second), DataType::Time),
        (
            ArrowDataType::Time32(ArrowTimeUnit::Nanosecond),
            DataType::Time,
        ),
        (
            ArrowDataType::Time32(ArrowTimeUnit::Millisecond),
            DataType::Time,
        ),
        (
            ArrowDataType::Time32(ArrowTimeUnit::Microsecond),
            DataType::Time,
        ),
        (ArrowDataType::Time32(ArrowTimeUnit::Second), DataType::Time),
        (
            ArrowDataType::List(Box::new(ArrowField::new(
                "item",
                ArrowDataType::Float64,
                true,
            ))),
            DataType::List(DataType::Float64.into()),
        ),
        (
            ArrowDataType::LargeList(Box::new(ArrowField::new(
                "item",
                ArrowDataType::Float64,
                true,
            ))),
            DataType::List(DataType::Float64.into()),
        ),
        (
            ArrowDataType::Dictionary(IntegerType::UInt32, ArrowDataType::Utf8.into(), false),
            DataType::Categorical,
        ),
        (
            ArrowDataType::Dictionary(
                IntegerType::UInt32,
                ArrowDataType::LargeUtf8.into(),
                false,
            ),
            DataType::Categorical,
        ),
        (
            ArrowDataType::Dictionary(
                IntegerType::UInt64,
                ArrowDataType::LargeUtf8.into(),
                false,
            ),
            DataType::Categorical,
        ),
    ];

    for (dt_a, dt_p) in dtypes {
        let dt: DataType = DataType::from_arrow(&dt_a);

        assert_eq!(dt_p, dt);
    }
}

fn arrow_field(name: &str, data_type: ArrowDataType) -> ArrowField {
    ArrowField::new(name, data_type, true)
}

#[test]
fn data_types_to_arrow() {
    assert_eq!(DataType::Utf8.to_arrow(), ArrowDataType::LargeUtf8);
    assert_eq!(DataType::Date.to_arrow(), ArrowDataType::Date32);
    assert_eq!(
        DataType::Time.to_arrow(),
        ArrowDataType::Time64(ArrowTimeUnit::Nanosecond)
    );
    assert_eq!(DataType::Categorical.to_arrow(), ArrowDataType::UInt32);
    assert_eq!(DataType::Null.to_arrow(), ArrowDataType::Null);
    assert_eq!(
        DataType::Datetime(TimeUnit::Milliseconds, Some("UTC".to_string())).to_arrow(),
        ArrowDataType::Timestamp(ArrowTimeUnit::Millisecond, Some("UTC".to_string()))
    );
    assert_eq!(
        DataType::Duration(TimeUnit::Nanoseconds).to_arrow(),
        ArrowDataType::Duration(ArrowTimeUnit::Nanosecond)
    );
    assert_eq!(
        DataType::List(Box::new(DataType::Utf8)).to_arrow(),
        ArrowDataType::LargeList(Box::new(arrow_field("", ArrowDataType::LargeUtf8)))
    );
    assert_eq!(TimeUnit::Nanoseconds.to_arrow(), ArrowTimeUnit::Nanosecond);
    assert_eq!(TimeUnit::Milliseconds.to_arrow(), ArrowTimeUnit::Millisecond);
    assert_eq!(TimeUnit::from(&ArrowTimeUnit::Second), TimeUnit::Milliseconds);
    assert_eq!(TimeUnit::from(&ArrowTimeUnit::Microsecond), TimeUnit::Nanoseconds);
    assert!(DataType::List(Box::new(DataType::Int8)).has_arrow());
    assert!(!DataType::Object("x").has_arrow());
    assert!(!DataType::List(Box::new(DataType::Unknown)).has_arrow());
}

#[test]
fn field_to_arrow_is_nullable() {
    let f = Field::new("Value", DataType::Int64);
    let af = ArrowField::new("Value", ArrowDataType::Int64, true);
    assert_eq!(f.to_arrow(), af);
    assert_eq!(Field::from_arrow(&af), f);
}

#[test]
fn unsupported_arrow_types_are_told_apart() {
    assert!(ArrowDataType::Utf8.is_supported());
    assert!(!ArrowDataType::Other("Struct".to_string()).is_supported());
    assert!(!ArrowDataType::List(Box::new(arrow_field(
        "item",
        ArrowDataType::Other("Binary".to_string())
    )))
    .is_supported());
    let extension = |name: &str| {
        ArrowDataType::Extension(name.to_string(), Box::new(ArrowDataType::Null), None)
    };
    assert!(extension("POLARS_EXTENSION_TYPE").is_supported());
    assert!(!extension("OTHER").is_supported());
    assert_eq!(
        DataType::from_arrow(&extension("POLARS_EXTENSION_TYPE")),
        DataType::Object("extension")
    );
    assert!(DataType::Categorical.eq_arrow(&ArrowDataType::Dictionary(
        IntegerType::Int8,
        Box::new(ArrowDataType::Utf8),
        true
    )));
    assert!(!DataType::Utf8.eq_arrow(&ArrowDataType::Date32));
}

#[test]
fn schema_to_arrow_names_list_items_and_encodes_categoricals() {
    let schema = Schema::new(vec![
        Field::new("l", DataType::List(Box::new(DataType::Int32))),
        Field::new("c", DataType::Categorical),
        Field::new("t", DataType::Time),
    ]);
    let arrow = schema.to_arrow();
    assert_eq!(
        arrow,
        ArrowSchema::from(vec![
            arrow_field(
                "l",
                ArrowDataType::LargeList(Box::new(arrow_field("item", ArrowDataType::Int32)))
            ),
            arrow_field(
                "c",
                ArrowDataType::Dictionary(
                    IntegerType::UInt32,
                    Box::new(ArrowDataType::LargeUtf8),
                    false
                )
            ),
            arrow_field("t", ArrowDataType::Time64(ArrowTimeUnit::Nanosecond)),
        ])
    );
    // and back
    assert_eq!(Schema::from_arrow(&arrow), schema);
}

#[test]
fn arrow_schema_round_trip_keeps_names_and_column_types() {
    let arrow = ArrowSchema::from(vec![
        ArrowField::new("a", ArrowDataType::Utf8, false),
        arrow_field("b", ArrowDataType::Time32(ArrowTimeUnit::Second)),
        arrow_field(
            "c",
            ArrowDataType::Timestamp(ArrowTimeUnit::Microsecond, Some("UTC".to_string())),
        ),
        arrow_field(
            "d",
            ArrowDataType::List(Box::new(arrow_field("x", ArrowDataType::Date64))),
        ),
        arrow_field(
            "e",
            ArrowDataType::Dictionary(IntegerType::Int16, Box::new(ArrowDataType::Utf8), true),
        ),
    ]);
    let schema = Schema::from_arrow(&arrow);
    let back = schema.to_arrow();
    assert_eq!(back.fields.len(), arrow.fields.len());
    for (b, a) in back.fields.iter().zip(arrow.fields.iter()) {
        assert_eq!(b.name, a.name);
        assert_eq!(
            DataType::from_arrow(&b.data_type),
            DataType::from_arrow(&a.data_type)
        );
    }
    assert_eq!(Schema::from_arrow(&back), schema);
}

#[test]
fn nested_categorical_does_not_survive_arrow() {
    // inside a list a categorical is handed over by its physical type
    let dt = DataType::List(Box::new(DataType::Categorical));
    assert_eq!(
        DataType::from_arrow(&dt.to_arrow()),
        DataType::List(Box::new(DataType::UInt32))
    );
}

#[test]
fn arrow_schema_index_of() {
    let arrow = ArrowSchema::from(vec![
        arrow_field("a", ArrowDataType::Utf8),
        arrow_field("b", ArrowDataType::Int8),
        arrow_field("a", ArrowDataType::Int8),
    ]);
    assert_eq!(arrow.index_of("a"), Ok(0));
    assert_eq!(arrow.index_of("b"), Ok(1));
    assert_eq!(
        arrow.index_of("c"),
        Err(ArrowError::InvalidArgumentError(
            "Unable to get field named \"c\". Valid fields: [\"a\", \"b\", \"a\"]".to_string()
        ))
    );
}
