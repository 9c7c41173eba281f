use polars_core::datatypes::{
    BooleanType, CategoricalType, DataType, DateType, DatetimeType, Field, Float64Type, Layout,
    ListType, PolarsDataType, TimeUnit, Utf8Type,
};

fn samples() -> Vec<DataType> {
    vec![
        DataType::Boolean,
        DataType::UInt8,
        DataType::UInt16,
        DataType::UInt32,
        DataType::UInt64,
        DataType::Int8,
        DataType::Int16,
        DataType::Int32,
        DataType::Int64,
        DataType::Float32,
        DataType::Float64,
        DataType::Utf8,
        DataType::Date,
        DataType::Datetime(TimeUnit::Milliseconds, None),
        DataType::Datetime(TimeUnit::Nanoseconds, Some("UTC".to_string())),
        DataType::Duration(TimeUnit::Nanoseconds),
        DataType::Time,
        DataType::List(Box::new(DataType::Date)),
        DataType::Object("thing"),
        DataType::Null,
        DataType::Categorical,
        DataType::Unknown,
    ]
}

#[test]
fn to_physical_is_idempotent() {
    for dt in samples() {
        let once = dt.to_physical();
        assert_eq!(once.to_physical(), once);
        assert_eq!(dt.is_logical(), dt != once);
    }
}

#[test]
fn to_physical_maps_logical_types() {
    assert_eq!(DataType::Date.to_physical(), DataType::Int32);
    assert_eq!(
        DataType::Datetime(TimeUnit::Milliseconds, None).to_physical(),
        DataType::Int64
    );
    assert_eq!(
        DataType::Duration(TimeUnit::Nanoseconds).to_physical(),
        DataType::Int64
    );
    assert_eq!(DataType::Time.to_physical(), DataType::Int64);
    assert_eq!(DataType::Categorical.to_physical(), DataType::UInt32);
    assert_eq!(DataType::Utf8.to_physical(), DataType::Utf8);
    // a list is its own storage type, whatever its items are
    let list = DataType::List(Box::new(DataType::Date));
    assert_eq!(list.to_physical(), list);
    assert!(!list.is_logical());
    assert!(DataType::Date.is_logical());
    assert!(DataType::Categorical.is_logical());
    assert!(!DataType::Int64.is_logical());
}

#[test]
fn data_types_compare_by_content() {
    assert_eq!(
        DataType::Datetime(TimeUnit::Milliseconds, Some("UTC".to_string())),
        DataType::Datetime(TimeUnit::Milliseconds, Some(String::from("UTC")))
    );
    assert_ne!(
        DataType::Datetime(TimeUnit::Milliseconds, Some("UTC".to_string())),
        DataType::Datetime(TimeUnit::Milliseconds, None)
    );
    assert_ne!(
        DataType::Datetime(TimeUnit::Milliseconds, None),
        DataType::Datetime(TimeUnit::Nanoseconds, None)
    );
    assert_eq!(DataType::Object("a"), DataType::Object("a"));
    assert_ne!(DataType::Object("a"), DataType::Object("b"));
    assert_ne!(
        DataType::List(Box::new(DataType::Int8)),
        DataType::List(Box::new(DataType::Int16))
    );
    let dt = DataType::List(Box::new(DataType::Datetime(
        TimeUnit::Nanoseconds,
        Some("CET".to_string()),
    )));
    assert_eq!(dt.clone(), dt);
}

#[test]
fn inner_dtype_of_lists_only() {
    let list = DataType::List(Box::new(DataType::Utf8));
    assert_eq!(list.inner_dtype(), Some(&DataType::Utf8));
    assert_eq!(DataType::Utf8.inner_dtype(), None);
}

#[test]
fn data_types_have_short_names() {
    assert_eq!(DataType::Null.to_string(), "null");
    assert_eq!(DataType::Boolean.to_string(), "bool");
    assert_eq!(DataType::UInt8.to_string(), "u8");
    assert_eq!(DataType::Int64.to_string(), "i64");
    assert_eq!(DataType::Float32.to_string(), "f32");
    assert_eq!(DataType::Float64.to_string(), "f64");
    assert_eq!(DataType::Utf8.to_string(), "str");
    assert_eq!(DataType::Date.to_string(), "date");
    assert_eq!(DataType::Time.to_string(), "time");
    assert_eq!(DataType::Categorical.to_string(), "cat");
    assert_eq!(DataType::Object("thing").to_string(), "thing");
    assert_eq!(
        DataType::Datetime(TimeUnit::Milliseconds, None).to_string(),
        "datetime[ms]"
    );
    assert_eq!(
        DataType::Datetime(TimeUnit::Nanoseconds, Some("UTC".to_string())).to_string(),
        "datetime[ns, UTC]"
    );
    assert_eq!(
        DataType::Duration(TimeUnit::Milliseconds).to_string(),
        "duration[ms]"
    );
    assert_eq!(
        DataType::List(Box::new(DataType::List(Box::new(DataType::Int32)))).to_string(),
        "list [list [i32]]"
    );
    assert_eq!(TimeUnit::Nanoseconds.to_string(), "ns");
    assert_eq!(TimeUnit::Milliseconds.to_string(), "ms");
}

#[test]
fn field_accessors() {
    let f = Field::new("Year", DataType::Int32);
    assert_eq!(f.name(), "Year");
    assert_eq!(f.data_type(), &DataType::Int32);

    let mut f = Field::new("Temperature", DataType::Int32);
    f.coerce(DataType::Float32);
    assert_eq!(f, Field::new("Temperature", DataType::Float32));

    let mut f = Field::new("Atomic number", DataType::UInt32);
    f.set_name("Proton".to_owned());
    assert_eq!(f, Field::new("Proton", DataType::UInt32));
    assert_ne!(f, Field::new("Proton", DataType::UInt64));
    assert_ne!(f, Field::new("Neutron", DataType::UInt32));
}

#[test]
fn markers_name_their_data_type() {
    assert_eq!(Utf8Type::get_dtype(), DataType::Utf8);
    assert_eq!(BooleanType::get_dtype(), DataType::Boolean);
    assert_eq!(Float64Type::get_dtype(), DataType::Float64);
    assert_eq!(DateType::get_dtype(), DataType::Date);
    assert_eq!(DatetimeType::get_dtype(), DataType::Unknown);
    assert_eq!(CategoricalType::get_dtype(), DataType::Categorical);
    assert_eq!(
        ListType::get_dtype(),
        DataType::List(Box::new(DataType::Null))
    );
}

#[test]
fn layouts_follow_the_storage_type() {
    for dt in samples() {
        assert_eq!(dt.layout(), dt.to_physical().layout());
    }
    assert_eq!(DataType::Boolean.layout(), Some(Layout::FixedWidth(1)));
    assert_eq!(DataType::Int16.layout(), Some(Layout::FixedWidth(16)));
    assert_eq!(DataType::Float32.layout(), Some(Layout::FixedWidth(32)));
    assert_eq!(DataType::Date.layout(), Some(Layout::FixedWidth(32)));
    assert_eq!(DataType::Time.layout(), Some(Layout::FixedWidth(64)));
    assert_eq!(
        DataType::Duration(TimeUnit::Milliseconds).layout(),
        Some(Layout::FixedWidth(64))
    );
    assert_eq!(DataType::Categorical.layout(), Some(Layout::FixedWidth(32)));
    assert_eq!(DataType::Utf8.layout(), Some(Layout::VariableWidth));
    assert_eq!(
        DataType::List(Box::new(DataType::Int8)).layout(),
        Some(Layout::Recursive)
    );
    assert_eq!(DataType::Object("x").layout(), Some(Layout::Opaque));
    assert_eq!(DataType::Null.layout(), Some(Layout::FixedWidth(0)));
    assert_eq!(DataType::Unknown.layout(), None);
}
