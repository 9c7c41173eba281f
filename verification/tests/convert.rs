use polars_core::convert::{
    any_value_from_host, array_items, integer_source, null_values_from_host, option_from_host,
    utf8_chunked_from_host, vec_from_host, HostValue, IntegerSource, ValueType,
};
use polars_core::datatypes::{AnyValue, TimeUnit};
use polars_core::error::HostError;
use polars_core::lazy::options::{
    CsvEncoding, DistinctKeepStrategy, JoinType, NullValues, QuantileInterpolOptions,
};

fn string(s: &str) -> HostValue {
    HostValue::String(s.to_string())
}

fn other(msg: &str) -> HostError {
    HostError::Other(msg.to_string())
}

fn to_bool(v: &HostValue) -> Result<bool, HostError> {
    match v {
        HostValue::Boolean(b) => Ok(*b),
        _ => Err(other("not a boolean")),
    }
}

#[test]
fn host_values_as_any_values() {
    assert!(matches!(
        any_value_from_host(&HostValue::Undefined),
        Ok(AnyValue::Null)
    ));
    assert!(matches!(
        any_value_from_host(&HostValue::Null),
        Ok(AnyValue::Null)
    ));
    assert!(matches!(
        any_value_from_host(&HostValue::Boolean(true)),
        Ok(AnyValue::Boolean(true))
    ));
    assert!(matches!(
        any_value_from_host(&HostValue::Number(1.5f64.to_bits())),
        Ok(AnyValue::Float64(bits)) if f64::from_bits(bits) == 1.5
    ));
    assert!(matches!(
        any_value_from_host(&string("x")),
        Ok(AnyValue::Utf8("x"))
    ));
    assert!(matches!(
        any_value_from_host(&HostValue::BigInt(u64::MAX)),
        Ok(AnyValue::UInt64(u64::MAX))
    ));
    assert!(matches!(
        any_value_from_host(&HostValue::Date(1_600_000_000_000)),
        Ok(AnyValue::Datetime(
            1_600_000_000_000,
            TimeUnit::Milliseconds,
            None
        ))
    ));
    assert_eq!(
        any_value_from_host(&HostValue::Array(vec![])).err(),
        Some(other("Unsupported Data type"))
    );
    assert_eq!(
        any_value_from_host(&HostValue::Object(vec![])).err(),
        Some(other("Unsupported Data type"))
    );
}

#[test]
fn arrays_are_converted_element_by_element() {
    let arr = HostValue::Array(vec![HostValue::Boolean(true), HostValue::Boolean(false)]);
    assert_eq!(vec_from_host(&arr, to_bool), Ok(vec![true, false]));
    assert_eq!(
        vec_from_host(&HostValue::Array(vec![]), to_bool),
        Ok(vec![])
    );
    let mixed = HostValue::Array(vec![HostValue::Boolean(true), HostValue::Null]);
    assert_eq!(vec_from_host(&mixed, to_bool), Err(other("not a boolean")));
    assert_eq!(array_items(&arr).map(|items| items.len()), Ok(2));
}

#[test]
fn values_that_are_no_arrays_are_rejected() {
    assert_eq!(
        vec_from_host(&HostValue::Number(0), to_bool),
        Err(other("Invalid cast, unable to cast Number to array"))
    );
    assert_eq!(
        vec_from_host(&string("[]"), to_bool),
        Err(other("Invalid cast, unable to cast String to array"))
    );
    assert_eq!(
        vec_from_host(&HostValue::Object(vec![]), to_bool),
        Err(other("Invalid cast, unable to cast Object to array"))
    );
    assert_eq!(
        vec_from_host(&HostValue::BigInt(1), to_bool),
        Err(other("Invalid cast, unable to cast BigInt to array"))
    );
    assert_eq!(
        vec_from_host(&HostValue::Undefined, to_bool),
        Err(other("Invalid cast, unable to cast Undefined to array"))
    );
}

#[test]
fn failed_conversion_of_optional_value_is_absent() {
    assert_eq!(option_from_host(to_bool(&HostValue::Boolean(true))), Some(true));
    assert_eq!(option_from_host(to_bool(&HostValue::Null)), None);
}

#[test]
fn value_types_of_host_values() {
    assert_eq!(HostValue::Date(0).get_type(), ValueType::Object);
    assert_eq!(HostValue::Array(vec![]).get_type(), ValueType::Object);
    assert_eq!(HostValue::Symbol.get_type(), ValueType::Symbol);
    assert_eq!(ValueType::BigInt.name(), "BigInt");
    assert_eq!(ValueType::Function.name(), "Function");
}

#[test]
fn integers_come_from_numbers_and_big_integers() {
    assert_eq!(integer_source(ValueType::BigInt), Ok(IntegerSource::BigInt));
    assert_eq!(integer_source(ValueType::Number), Ok(IntegerSource::Number));
    assert_eq!(
        integer_source(ValueType::String),
        Err(other("cannot cast String to u64"))
    );
    assert_eq!(
        integer_source(ValueType::Null),
        Err(other("cannot cast Null to u64"))
    );
}

#[test]
fn string_columns_take_nulls_for_other_values() {
    let arr = HostValue::Array(vec![string("a"), HostValue::Number(0), string("")]);
    let ca = utf8_chunked_from_host(&arr).unwrap();
    assert_eq!(ca.name(), "");
    assert_eq!(ca.len(), 3);
    assert_eq!(ca.null_count(), 1);
    assert_eq!(ca.chunks().len(), 1);
    assert!(matches!(ca.get_any_value(0), AnyValue::Utf8("a")));
    assert!(matches!(ca.get_any_value(1), AnyValue::Null));
    assert!(matches!(ca.get_any_value(2), AnyValue::Utf8("")));
    assert_eq!(
        utf8_chunked_from_host(&string("a")).err(),
        Some(other("incorrect value type"))
    );
    assert_eq!(
        utf8_chunked_from_host(&HostValue::Object(vec![])).err(),
        Some(other("incorrect value type"))
    );
}

#[test]
fn null_values_by_shape_of_the_host_value() {
    assert_eq!(
        null_values_from_host(&string("NA")),
        Ok(NullValues::AllColumns("NA".to_string()))
    );
    assert_eq!(
        null_values_from_host(&HostValue::Array(vec![string("NA"), string("-")])),
        Ok(NullValues::Columns(vec!["NA".to_string(), "-".to_string()]))
    );
    assert_eq!(
        null_values_from_host(&HostValue::Object(vec![
            ("a".to_string(), string("NA")),
            ("b".to_string(), string("-")),
        ])),
        Ok(NullValues::Named(vec![
            ("a".to_string(), "NA".to_string()),
            ("b".to_string(), "-".to_string()),
        ]))
    );
    assert_eq!(
        null_values_from_host(&HostValue::Date(3)),
        Ok(NullValues::Named(vec![]))
    );
    for v in [HostValue::Number(0), HostValue::Null, HostValue::Boolean(true)] {
        assert_eq!(
            null_values_from_host(&v),
            Err(other("could not extract value from null_values argument"))
        );
    }
}

#[test]
fn names_of_options() {
    assert_eq!(CsvEncoding::parse("utf8"), Ok(CsvEncoding::Utf8));
    assert_eq!(CsvEncoding::parse("utf8-lossy"), Ok(CsvEncoding::LossyUtf8));
    assert_eq!(
        CsvEncoding::parse("latin1"),
        Err(other("encoding not latin1 not implemented."))
    );
    assert_eq!(JoinType::parse("left"), Some(JoinType::Left));
    assert_eq!(JoinType::parse("inner"), Some(JoinType::Inner));
    assert_eq!(JoinType::parse("outer"), Some(JoinType::Outer));
    assert_eq!(JoinType::parse("asof"), Some(JoinType::AsOf));
    assert_eq!(JoinType::parse("cross"), Some(JoinType::Cross));
    assert_eq!(JoinType::parse("Left"), None);
    assert_eq!(
        DistinctKeepStrategy::parse("first"),
        Some(DistinctKeepStrategy::First)
    );
    assert_eq!(
        DistinctKeepStrategy::parse("last"),
        Some(DistinctKeepStrategy::Last)
    );
    assert_eq!(DistinctKeepStrategy::parse("any"), None);
    let q = QuantileInterpolOptions::parse;
    assert_eq!(q("nearest"), Some(QuantileInterpolOptions::Nearest));
    assert_eq!(q("lower"), Some(QuantileInterpolOptions::Lower));
    assert_eq!(q("higher"), Some(QuantileInterpolOptions::Higher));
    assert_eq!(q("midpoint"), Some(QuantileInterpolOptions::Midpoint));
    assert_eq!(q("linear"), Some(QuantileInterpolOptions::Linear));
    assert_eq!(q("midpoinp"), None);
    assert_eq!(q(""), None);
    let js = QuantileInterpolOptions::parse_js;
    assert_eq!(js("midpoinp"), Some(QuantileInterpolOptions::Midpoint));
    assert_eq!(js("midpoint"), None);
    assert_eq!(js("linear"), Some(QuantileInterpolOptions::Linear));
}
