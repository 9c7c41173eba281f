use polars_core::datatypes::{
    AnyValue, DataType, HashInput, PolarsObjectSafe, RevMapping, TimeUnit,
};
use polars_core::error::PolarsError;
use polars_core::series::Series;
use std::cmp::Ordering;

struct Thing;

impl PolarsObjectSafe for Thing {
    fn object_name(&self) -> &'static str {
        "thing"
    }
}

fn f64v(x: f64) -> AnyValue<'static> {
    AnyValue::Float64(x.to_bits())
}

fn f32v(x: f32) -> AnyValue<'static> {
    AnyValue::Float32(x.to_bits())
}

#[test]
fn add_of_null_is_null() {
    assert!(matches!(
        AnyValue::Null.add(&AnyValue::Int32(5)),
        AnyValue::Null
    ));
    assert!(matches!(
        AnyValue::Int32(5).add(&AnyValue::Null),
        AnyValue::Null
    ));
    assert!(matches!(
        AnyValue::Utf8("x").add(&AnyValue::Null),
        AnyValue::Null
    ));
}

#[test]
fn add_of_integers() {
    assert!(matches!(
        AnyValue::Int32(3).add(&AnyValue::Int32(4)),
        AnyValue::Int32(7)
    ));
    assert!(matches!(
        AnyValue::Int64(-3).add(&AnyValue::Int64(4)),
        AnyValue::Int64(1)
    ));
    assert!(matches!(
        AnyValue::UInt32(3).add(&AnyValue::UInt32(4)),
        AnyValue::UInt32(7)
    ));
    assert!(matches!(
        AnyValue::UInt64(u64::MAX - 1).add(&AnyValue::UInt64(1)),
        AnyValue::UInt64(u64::MAX)
    ));
}

#[test]
fn can_add_tells_when_add_is_defined() {
    assert!(AnyValue::Int32(3).can_add(&AnyValue::Int32(4)));
    assert!(AnyValue::Null.can_add(&AnyValue::Utf8("x")));
    assert!(!AnyValue::Int32(i32::MAX).can_add(&AnyValue::Int32(1)));
    assert!(!AnyValue::Int32(i32::MIN).can_add(&AnyValue::Int32(-1)));
    assert!(!AnyValue::UInt64(u64::MAX).can_add(&AnyValue::UInt64(1)));
    assert!(!AnyValue::Int32(3).can_add(&AnyValue::Int64(4)));
    assert!(!AnyValue::Int8(3).can_add(&AnyValue::Int8(4)));
    assert!(!f64v(1.0).can_add(&f64v(2.0)));
}

#[test]
fn equality_of_values() {
    assert_eq!(AnyValue::Utf8("x").eq(&AnyValue::Utf8("x")), Ok(true));
    assert_eq!(AnyValue::Utf8("x").eq(&AnyValue::Utf8("y")), Ok(false));
    assert_eq!(AnyValue::Null.eq(&AnyValue::Null), Ok(true));
    assert_eq!(AnyValue::Int32(1).eq(&AnyValue::Int32(1)), Ok(true));
    assert_eq!(AnyValue::Int32(1).eq(&AnyValue::Int64(1)), Ok(false));
    assert_eq!(AnyValue::Null.eq(&AnyValue::Int64(1)), Ok(false));
    assert_eq!(AnyValue::Boolean(true).eq(&AnyValue::Boolean(false)), Ok(false));
    assert_eq!(AnyValue::Date(3).eq(&AnyValue::Date(3)), Ok(true));
    assert_eq!(AnyValue::Time(3).eq(&AnyValue::Time(4)), Ok(false));
    assert_eq!(
        AnyValue::Duration(3, TimeUnit::Milliseconds)
            .eq(&AnyValue::Duration(3, TimeUnit::Nanoseconds)),
        Ok(false)
    );
    let utc = Some("UTC".to_string());
    let utc2 = Some("UTC".to_string());
    let none = None;
    assert_eq!(
        AnyValue::Datetime(3, TimeUnit::Milliseconds, &utc)
            .eq(&AnyValue::Datetime(3, TimeUnit::Milliseconds, &utc2)),
        Ok(true)
    );
    assert_eq!(
        AnyValue::Datetime(3, TimeUnit::Milliseconds, &utc)
            .eq(&AnyValue::Datetime(3, TimeUnit::Milliseconds, &none)),
        Ok(false)
    );
}

#[test]
fn equality_of_lists_and_objects_is_an_error() {
    let a = AnyValue::List(Series::new("a", &[1, 2]));
    let b = AnyValue::List(Series::new("a", &[1, 2]));
    assert_eq!(
        a.eq(&b),
        Err(PolarsError::ComputeError(
            "eq between list series not supported".to_string()
        ))
    );
    let thing = Thing;
    assert_eq!(
        AnyValue::Object(&thing).eq(&AnyValue::Object(&thing)),
        Err(PolarsError::ComputeError(
            "eq between object not supported".to_string()
        ))
    );
    assert_eq!(a.eq(&AnyValue::Null), Ok(false));
    assert_eq!(AnyValue::Object(&thing).eq(&a), Ok(false));
}

#[test]
fn equality_of_categoricals() {
    let global_1 = RevMapping::Global(1, vec!["a".to_string()]);
    let global_1b = RevMapping::Global(1, vec!["a".to_string(), "b".to_string()]);
    let global_2 = RevMapping::Global(2, vec!["a".to_string()]);
    let local = RevMapping::Local(vec!["a".to_string()]);
    let local_copy = RevMapping::Local(vec!["a".to_string()]);
    let cat = |i, m| AnyValue::Categorical(i, m);
    assert_eq!(cat(0, &global_1).eq(&cat(0, &global_1b)), Ok(true));
    assert_eq!(cat(0, &global_1).eq(&cat(1, &global_1b)), Ok(false));
    assert_eq!(cat(0, &global_1).eq(&cat(0, &global_2)), Ok(false));
    assert_eq!(cat(0, &global_1).eq(&cat(0, &local)), Ok(false));
    // local mappings are the same only if they are one array
    assert_eq!(cat(0, &local).eq(&cat(0, &local)), Ok(true));
    assert_eq!(cat(0, &local).eq(&cat(1, &local)), Ok(false));
    assert_eq!(cat(0, &local).eq(&cat(0, &local_copy)), Ok(false));
    assert_eq!(cat(0, &local).eq_given(&cat(0, &local_copy), true), Ok(true));
    assert_eq!(cat(0, &local).eq_given(&cat(1, &local_copy), true), Ok(false));
}

#[test]
fn floats_compare_as_numbers() {
    let xs = [
        0.0f64,
        -0.0,
        1.0,
        -1.0,
        2.5,
        f64::MIN_POSITIVE,
        -f64::MIN_POSITIVE,
        f64::MAX,
        f64::MIN,
        f64::INFINITY,
        f64::NEG_INFINITY,
        f64::NAN,
        -f64::NAN,
        5e-324,
    ];
    for x in xs {
        for y in xs {
            assert_eq!(f64v(x).eq(&f64v(y)), Ok(x == y), "{} == {}", x, y);
            assert_eq!(
                f64v(x).partial_cmp(&f64v(y)),
                x.partial_cmp(&y),
                "{} <=> {}",
                x,
                y
            );
        }
    }
    let ys = [
        0.0f32,
        -0.0,
        1.5,
        -1.5,
        f32::MAX,
        f32::MIN,
        f32::INFINITY,
        f32::NEG_INFINITY,
        f32::NAN,
        1e-45,
    ];
    for x in ys {
        for y in ys {
            assert_eq!(f32v(x).eq(&f32v(y)), Ok(x == y), "{} == {}", x, y);
            assert_eq!(
                f32v(x).partial_cmp(&f32v(y)),
                x.partial_cmp(&y),
                "{} <=> {}",
                x,
                y
            );
        }
    }
}

#[test]
fn order_is_defined_within_one_numeric_variant() {
    assert_eq!(
        AnyValue::Int32(1).partial_cmp(&AnyValue::Int32(2)),
        Some(Ordering::Less)
    );
    assert_eq!(
        AnyValue::UInt8(2).partial_cmp(&AnyValue::UInt8(2)),
        Some(Ordering::Equal)
    );
    assert_eq!(
        AnyValue::Int64(3).partial_cmp(&AnyValue::Int64(-2)),
        Some(Ordering::Greater)
    );
    assert_eq!(AnyValue::Int32(1).partial_cmp(&AnyValue::Int64(2)), None);
    assert_eq!(AnyValue::Null.partial_cmp(&AnyValue::Null), None);
    assert_eq!(AnyValue::Utf8("a").partial_cmp(&AnyValue::Utf8("b")), None);
    assert_eq!(AnyValue::Date(1).partial_cmp(&AnyValue::Date(2)), None);
}

#[test]
fn to_static_of_owned_values() {
    let v = f64v(2.5);
    let s = v.to_static().unwrap();
    drop(v);
    assert!(matches!(s, AnyValue::Float64(bits) if f64::from_bits(bits) == 2.5));
    assert!(matches!(
        AnyValue::Int8(-3).to_static(),
        Ok(AnyValue::Int8(-3))
    ));
    assert!(matches!(AnyValue::Null.to_static(), Ok(AnyValue::Null)));
    assert!(matches!(
        AnyValue::Date(11).to_static(),
        Ok(AnyValue::Date(11))
    ));
    assert!(matches!(
        AnyValue::Time(12).to_static(),
        Ok(AnyValue::Time(12))
    ));
    assert!(matches!(
        AnyValue::Duration(1, TimeUnit::Milliseconds).to_static(),
        Ok(AnyValue::Duration(1, TimeUnit::Milliseconds))
    ));
    match AnyValue::List(Series::new("a", &[1, 2])).to_static() {
        Ok(AnyValue::List(s)) => {
            assert_eq!(s.name(), "a");
            assert_eq!(s.i32().unwrap().to_vec(), vec![Some(1), Some(2)]);
        }
        _ => panic!("expected a list"),
    }
}

#[test]
fn to_static_of_borrowed_values_fails() {
    let text = String::from("x");
    match AnyValue::Utf8(&text).to_static() {
        Err(PolarsError::ComputeError(msg)) => {
            assert_eq!(msg, "cannot get static AnyValue from str")
        }
        _ => panic!("expected an error"),
    }
    let tz = None;
    assert!(matches!(
        AnyValue::Datetime(1, TimeUnit::Milliseconds, &tz).to_static(),
        Err(PolarsError::ComputeError(m)) if m == "cannot get static AnyValue from datetime"
    ));
    let local = RevMapping::Local(vec![]);
    assert!(matches!(
        AnyValue::Categorical(0, &local).to_static(),
        Err(PolarsError::ComputeError(m)) if m == "cannot get static AnyValue from cat"
    ));
    let thing = Thing;
    assert!(matches!(
        AnyValue::Object(&thing).to_static(),
        Err(PolarsError::ComputeError(m)) if m == "cannot get static AnyValue from object"
    ));
}

#[test]
fn reinterpretation_of_physical_values() {
    assert!(matches!(AnyValue::Int32(5).into_date(), AnyValue::Date(5)));
    assert!(matches!(AnyValue::Null.into_date(), AnyValue::Null));
    let tz = Some("UTC".to_string());
    assert!(matches!(
        AnyValue::Int64(5).into_datetime(TimeUnit::Nanoseconds, &tz),
        AnyValue::Datetime(5, TimeUnit::Nanoseconds, Some(_))
    ));
    assert!(matches!(
        AnyValue::Int64(5).into_duration(TimeUnit::Milliseconds),
        AnyValue::Duration(5, TimeUnit::Milliseconds)
    ));
    assert!(matches!(AnyValue::Int64(5).into_time(), AnyValue::Time(5)));
    assert!(matches!(AnyValue::Null.into_time(), AnyValue::Null));
}

#[test]
fn conversions_from_and_to_integers() {
    assert!(matches!(AnyValue::from(3u8), AnyValue::UInt8(3)));
    assert!(matches!(AnyValue::from(3u16), AnyValue::UInt16(3)));
    assert!(matches!(AnyValue::from(3u32), AnyValue::UInt32(3)));
    assert!(matches!(AnyValue::from(3u64), AnyValue::UInt64(3)));
    assert!(matches!(AnyValue::from(-3i8), AnyValue::Int8(-3)));
    assert!(matches!(AnyValue::from(-3i16), AnyValue::Int16(-3)));
    assert!(matches!(AnyValue::from(-3i32), AnyValue::Int32(-3)));
    assert!(matches!(AnyValue::from(-3i64), AnyValue::Int64(-3)));
    assert_eq!(AnyValue::Null.extract_i64(), None);
    assert_eq!(AnyValue::Int32(-7).extract_i64(), Some(-7));
    assert_eq!(AnyValue::Int64(i64::MIN).extract_i64(), Some(i64::MIN));
    assert_eq!(
        AnyValue::UInt32(u32::MAX).extract_i64(),
        Some(4294967295)
    );
}

#[test]
fn stored_values_as_logical_values() {
    let date = DataType::Date;
    assert!(matches!(
        AnyValue::Int32(3).into_logical(&date, None),
        Ok(AnyValue::Date(3))
    ));
    assert!(matches!(
        AnyValue::Null.into_logical(&date, None),
        Ok(AnyValue::Null)
    ));
    let mismatch =
        || PolarsError::ComputeError("cannot create a value of the data type from the stored value".to_string());
    assert_eq!(
        AnyValue::Int64(3).into_logical(&date, None).err(),
        Some(mismatch())
    );
    let datetime = DataType::Datetime(TimeUnit::Nanoseconds, Some("UTC".to_string()));
    assert!(matches!(
        AnyValue::Int64(3).into_logical(&datetime, None),
        Ok(AnyValue::Datetime(3, TimeUnit::Nanoseconds, Some(tz))) if tz == "UTC"
    ));
    let duration = DataType::Duration(TimeUnit::Milliseconds);
    assert!(matches!(
        AnyValue::Int64(3).into_logical(&duration, None),
        Ok(AnyValue::Duration(3, TimeUnit::Milliseconds))
    ));
    assert!(matches!(
        AnyValue::Int64(3).into_logical(&DataType::Time, None),
        Ok(AnyValue::Time(3))
    ));
    assert!(AnyValue::Int32(3).into_logical(&DataType::Time, None).is_err());
    let rev = RevMapping::Local(vec!["a".to_string()]);
    assert!(matches!(
        AnyValue::UInt32(0).into_logical(&DataType::Categorical, Some(&rev)),
        Ok(AnyValue::Categorical(0, RevMapping::Local(_)))
    ));
    assert!(AnyValue::UInt32(0)
        .into_logical(&DataType::Categorical, None)
        .is_err());
    assert!(matches!(
        AnyValue::UInt32(7).into_logical(&DataType::UInt32, None),
        Ok(AnyValue::UInt32(7))
    ));
    assert!(matches!(
        AnyValue::Utf8("x").into_logical(&DataType::Utf8, None),
        Ok(AnyValue::Utf8("x"))
    ));
    assert!(AnyValue::Utf8("x").into_logical(&DataType::Unknown, None).is_err());
    assert!(AnyValue::Int8(1).into_logical(&DataType::Int16, None).is_err());
    assert!(matches!(
        AnyValue::Null.into_logical(&DataType::Unknown, None),
        Ok(AnyValue::Null)
    ));
}

#[test]
fn values_feed_hashers() {
    assert!(matches!(
        AnyValue::Null.hash_input(),
        HashInput::U64(9223372036854910930)
    ));
    assert_eq!(u64::MAX / 2 + 135123, 9223372036854910930);
    assert!(matches!(AnyValue::Int8(-1).hash_input(), HashInput::I8(-1)));
    assert!(matches!(AnyValue::Int16(-1).hash_input(), HashInput::I16(-1)));
    assert!(matches!(AnyValue::Int32(-1).hash_input(), HashInput::I32(-1)));
    assert!(matches!(AnyValue::Int64(-1).hash_input(), HashInput::I64(-1)));
    assert!(matches!(AnyValue::UInt8(1).hash_input(), HashInput::U8(1)));
    assert!(matches!(AnyValue::UInt16(1).hash_input(), HashInput::U16(1)));
    assert!(matches!(AnyValue::UInt32(1).hash_input(), HashInput::U32(1)));
    assert!(matches!(AnyValue::UInt64(1).hash_input(), HashInput::U64(1)));
    assert!(matches!(AnyValue::Utf8("ab").hash_input(), HashInput::Text("ab")));
    assert!(matches!(AnyValue::Boolean(true).hash_input(), HashInput::U8(1)));
    assert!(matches!(AnyValue::Boolean(false).hash_input(), HashInput::U8(0)));
}
