//! Marker types that select, at compile time, the data type of a chunked
//! array.

use crate::datatypes::dtype::{DataType, DataTypeView};
use vstd::prelude::*;

verus! {

/// A marker for one data type.
pub trait PolarsDataType: Send + Sync {
    /// The data type that the marker stands for.
    spec fn dtype() -> DataTypeView;

    /// Returns the data type that the marker stands for.
    fn get_dtype() -> (r: DataType) where Self: Sized
        ensures
            r@ == Self::dtype(),
    ;
}

#[derive(Debug)]
pub struct UInt8Type {}

#[derive(Debug)]
pub struct UInt16Type {}

#[derive(Debug)]
pub struct UInt32Type {}

#[derive(Debug)]
pub struct UInt64Type {}

#[derive(Debug)]
pub struct Int8Type {}

#[derive(Debug)]
pub struct Int16Type {}

#[derive(Debug)]
pub struct Int32Type {}

#[derive(Debug)]
pub struct Int64Type {}

#[derive(Debug)]
pub struct Float32Type {}

#[derive(Debug)]
pub struct Float64Type {}

#[derive(Debug)]
pub struct DateType {}

#[derive(Debug)]
pub struct DatetimeType {}

#[derive(Debug)]
pub struct DurationType {}

#[derive(Debug)]
pub struct TimeType {}

#[derive(Debug)]
pub struct Utf8Type {}

#[derive(Debug)]
pub struct BooleanType {}

#[derive(Debug)]
pub struct ListType {}

#[derive(Debug)]
pub struct CategoricalType {}

/// Marker for columns of opaque values of type `T`.
#[derive(Debug)]
pub struct ObjectType<T>(pub T);

/// A type whose values can be stored as objects.
pub trait PolarsObject: Send + Sync {
    /// The name that tells this kind of object from the others.
    spec fn spec_object_name() -> Seq<char>;

    /// Returns the name that tells this kind of object from the others.
    fn object_name() -> (r: &'static str)
        ensures
            r@ == Self::spec_object_name(),
    ;
}

impl PolarsDataType for UInt8Type {
    open spec fn dtype() -> DataTypeView {
        DataTypeView::UInt8
    }

    fn get_dtype() -> DataType {
        DataType::UInt8
    }
}

impl PolarsDataType for UInt16Type {
    open spec fn dtype() -> DataTypeView {
        DataTypeView::UInt16
    }

    fn get_dtype() -> DataType {
        DataType::UInt16
    }
}

impl PolarsDataType for UInt32Type {
    open spec fn dtype() -> DataTypeView {
        DataTypeView::UInt32
    }

    fn get_dtype() -> DataType {
        DataType::UInt32
    }
}

impl PolarsDataType for UInt64Type {
    open spec fn dtype() -> DataTypeView {
        DataTypeView::UInt64
    }

    fn get_dtype() -> DataType {
        DataType::UInt64
    }
}

impl PolarsDataType for Int8Type {
    open spec fn dtype() -> DataTypeView {
        DataTypeView::Int8
    }

    fn get_dtype() -> DataType {
        DataType::Int8
    }
}

impl PolarsDataType for Int16Type {
    open spec fn dtype() -> DataTypeView {
        DataTypeView::Int16
    }

    fn get_dtype() -> DataType {
        DataType::Int16
    }
}

impl PolarsDataType for Int32Type {
    open spec fn dtype() -> DataTypeView {
        DataTypeView::Int32
    }

    fn get_dtype() -> DataType {
        DataType::Int32
    }
}

impl PolarsDataType for Int64Type {
    open spec fn dtype() -> DataTypeView {
        DataTypeView::Int64
    }

    fn get_dtype() -> DataType {
        DataType::Int64
    }
}

impl PolarsDataType for Float32Type {
    open spec fn dtype() -> DataTypeView {
        DataTypeView::Float32
    }

    fn get_dtype() -> DataType {
        DataType::Float32
    }
}

impl PolarsDataType for Float64Type {
    open spec fn dtype() -> DataTypeView {
        DataTypeView::Float64
    }

    fn get_dtype() -> DataType {
        DataType::Float64
    }
}

impl PolarsDataType for DateType {
    open spec fn dtype() -> DataTypeView {
        DataTypeView::Date
    }

    fn get_dtype() -> DataType {
        DataType::Date
    }
}

/// The unit and the time zone are not known statically.
impl PolarsDataType for DatetimeType {
    open spec fn dtype() -> DataTypeView {
        DataTypeView::Unknown
    }

    fn get_dtype() -> DataType {
        DataType::Unknown
    }
}

/// The unit is not known statically.
impl PolarsDataType for DurationType {
    open spec fn dtype() -> DataTypeView {
        DataTypeView::Unknown
    }

    fn get_dtype() -> DataType {
        DataType::Unknown
    }
}

impl PolarsDataType for TimeType {
    open spec fn dtype() -> DataTypeView {
        DataTypeView::Time
    }

    fn get_dtype() -> DataType {
        DataType::Time
    }
}

impl PolarsDataType for Utf8Type {
    open spec fn dtype() -> DataTypeView {
        DataTypeView::Utf8
    }

    fn get_dtype() -> DataType {
        DataType::Utf8
    }
}

impl PolarsDataType for BooleanType {
    open spec fn dtype() -> DataTypeView {
        DataTypeView::Boolean
    }

    fn get_dtype() -> DataType {
        DataType::Boolean
    }
}

/// The item type is not known without a value: it is given as `Null`.
impl PolarsDataType for ListType {
    open spec fn dtype() -> DataTypeView {
        DataTypeView::List(Box::new(DataTypeView::Null))
    }

    fn get_dtype() -> DataType {
        let inner = DataType::Null;
        assert(inner@ == DataTypeView::Null);
        DataType::List(Box::new(inner))
    }
}

impl PolarsDataType for CategoricalType {
    open spec fn dtype() -> DataTypeView {
        DataTypeView::Categorical
    }

    fn get_dtype() -> DataType {
        DataType::Categorical
    }
}

impl<T: PolarsObject> PolarsDataType for ObjectType<T> {
    open spec fn dtype() -> DataTypeView {
        DataTypeView::Object(T::spec_object_name())
    }

    fn get_dtype() -> DataType {
        DataType::Object(T::object_name())
    }
}

/// Any type that is not nested.
pub trait PolarsSingleType: PolarsDataType {

}

impl PolarsSingleType for UInt8Type {

}

impl PolarsSingleType for UInt16Type {

}

impl PolarsSingleType for UInt32Type {

}

impl PolarsSingleType for UInt64Type {

}

impl PolarsSingleType for Int8Type {

}

impl PolarsSingleType for Int16Type {

}

impl PolarsSingleType for Int32Type {

}

impl PolarsSingleType for Int64Type {

}

impl PolarsSingleType for Float32Type {

}

impl PolarsSingleType for Float64Type {

}

impl PolarsSingleType for Utf8Type {

}

/// A native value of a numeric column, as it is stored. Floating-point
/// columns store the IEEE 754 bit pattern of each value in an unsigned
/// integer of the same width.
pub trait NumericNative: Copy + Send + Sync {

}

impl NumericNative for i8 {

}

impl NumericNative for i16 {

}

impl NumericNative for i32 {

}

impl NumericNative for i64 {

}

impl NumericNative for u8 {

}

impl NumericNative for u16 {

}

impl NumericNative for u32 {

}

impl NumericNative for u64 {

}

/// A marker for a numeric data type.
pub trait PolarsNumericType: Send + Sync + PolarsDataType + 'static {
    /// The type of the stored values.
    type Native: NumericNative;
}

impl PolarsNumericType for UInt8Type {
    type Native = u8;
}

impl PolarsNumericType for UInt16Type {
    type Native = u16;
}

impl PolarsNumericType for UInt32Type {
    type Native = u32;
}

impl PolarsNumericType for UInt64Type {
    type Native = u64;
}

impl PolarsNumericType for Int8Type {
    type Native = i8;
}

impl PolarsNumericType for Int16Type {
    type Native = i16;
}

impl PolarsNumericType for Int32Type {
    type Native = i32;
}

impl PolarsNumericType for Int64Type {
    type Native = i64;
}

impl PolarsNumericType for Float32Type {
    type Native = u32;
}

impl PolarsNumericType for Float64Type {
    type Native = u64;
}

/// A marker for an integer data type.
pub trait PolarsIntegerType: PolarsNumericType {

}

impl PolarsIntegerType for UInt8Type {

}

impl PolarsIntegerType for UInt16Type {

}

impl PolarsIntegerType for UInt32Type {

}

impl PolarsIntegerType for UInt64Type {

}

impl PolarsIntegerType for Int8Type {

}

impl PolarsIntegerType for Int16Type {

}

impl PolarsIntegerType for Int32Type {

}

impl PolarsIntegerType for Int64Type {

}

/// A marker for a floating-point data type.
pub trait PolarsFloatType: PolarsNumericType {

}

impl PolarsFloatType for Float32Type {

}

impl PolarsFloatType for Float64Type {

}

} // verus!
