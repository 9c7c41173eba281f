//! Data types, fields and schemas of columnar frames.

pub mod any_value;
pub mod arrow;
pub mod dtype;
pub mod field;
pub mod float_bits;
pub mod markers;
pub mod schema;

pub use dtype::{DataType, DataTypeView, Layout, TimeUnit, TimeZone};
pub use field::{Field, FieldView};
pub use schema::Schema;
pub use markers::{
    BooleanType, CategoricalType, DateType, DatetimeType, DurationType, Float32Type, Float64Type,
    Int16Type, Int32Type, Int64Type, Int8Type, ListType, NumericNative, ObjectType, PolarsDataType,
    PolarsFloatType, PolarsIntegerType, PolarsNumericType, PolarsObject, PolarsSingleType, TimeType,
    UInt16Type, UInt32Type, UInt64Type, UInt8Type, Utf8Type,
};
pub use any_value::{AnyValue, HashInput, PolarsObjectSafe, RevMapping};
pub use arrow::{
    ArrowDataType, ArrowError, ArrowField, ArrowSchema, ArrowTimeUnit, IndexOfSchema, IntegerType,
};
