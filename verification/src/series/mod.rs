//! Columns whose data type is known at run time.

pub mod iterator;

use crate::chunked_array::date::DateChunked;
use crate::chunked_array::logical::LogicalType;
use crate::chunked_array::{
    any_value_of, BooleanChunked, Float32Chunked, Float64Chunked, Int16Chunked, Int32Chunked,
    Int64Chunked, Int8Chunked, Scalar, UInt16Chunked, UInt32Chunked, UInt64Chunked, UInt8Chunked,
    Utf8Chunked,
};
use crate::datatypes::any_value::AnyValue;
use crate::datatypes::dtype::{DataType, DataTypeView};
use crate::datatypes::field::{Field, FieldView};
use crate::error::{PolarsError, Result};
use vstd::prelude::*;

verus! {

/// A named column of any supported data type.
#[derive(Debug)]
pub enum Series {
    Boolean(BooleanChunked),
    UInt8(UInt8Chunked),
    UInt16(UInt16Chunked),
    UInt32(UInt32Chunked),
    UInt64(UInt64Chunked),
    Int8(Int8Chunked),
    Int16(Int16Chunked),
    Int32(Int32Chunked),
    Int64(Int64Chunked),
    Float32(Float32Chunked),
    Float64(Float64Chunked),
    Utf8(Utf8Chunked),
    Date(DateChunked),
}

impl Series {
    /// The stored elements of the column, in order.
    pub open spec fn values(self) -> Seq<Option<Scalar>> {
        match self {
            Series::Boolean(ca) => ca@,
            Series::UInt8(ca) => ca@,
            Series::UInt16(ca) => ca@,
            Series::UInt32(ca) => ca@,
            Series::UInt64(ca) => ca@,
            Series::Int8(ca) => ca@,
            Series::Int16(ca) => ca@,
            Series::Int32(ca) => ca@,
            Series::Int64(ca) => ca@,
            Series::Float32(ca) => ca@,
            Series::Float64(ca) => ca@,
            Series::Utf8(ca) => ca@,
            Series::Date(ca) => ca.0@,
        }
    }

    /// The elements of each chunk of the column, in order.
    pub open spec fn spec_chunks(self) -> Seq<Seq<Option<Scalar>>> {
        match self {
            Series::Boolean(ca) => ca.spec_chunks(),
            Series::UInt8(ca) => ca.spec_chunks(),
            Series::UInt16(ca) => ca.spec_chunks(),
            Series::UInt32(ca) => ca.spec_chunks(),
            Series::UInt64(ca) => ca.spec_chunks(),
            Series::Int8(ca) => ca.spec_chunks(),
            Series::Int16(ca) => ca.spec_chunks(),
            Series::Int32(ca) => ca.spec_chunks(),
            Series::Int64(ca) => ca.spec_chunks(),
            Series::Float32(ca) => ca.spec_chunks(),
            Series::Float64(ca) => ca.spec_chunks(),
            Series::Utf8(ca) => ca.spec_chunks(),
            Series::Date(ca) => ca.0.spec_chunks(),
        }
    }

    /// The name of the column.
    pub open spec fn spec_name(self) -> Seq<char> {
        match self {
            Series::Boolean(ca) => ca.spec_field().name,
            Series::UInt8(ca) => ca.spec_field().name,
            Series::UInt16(ca) => ca.spec_field().name,
            Series::UInt32(ca) => ca.spec_field().name,
            Series::UInt64(ca) => ca.spec_field().name,
            Series::Int8(ca) => ca.spec_field().name,
            Series::Int16(ca) => ca.spec_field().name,
            Series::Int32(ca) => ca.spec_field().name,
            Series::Int64(ca) => ca.spec_field().name,
            Series::Float32(ca) => ca.spec_field().name,
            Series::Float64(ca) => ca.spec_field().name,
            Series::Utf8(ca) => ca.spec_field().name,
            Series::Date(ca) => ca.0.spec_field().name,
        }
    }

    /// The logical data type of the column.
    pub open spec fn spec_dtype(self) -> DataTypeView {
        match self {
            Series::Boolean(_) => DataTypeView::Boolean,
            Series::UInt8(_) => DataTypeView::UInt8,
            Series::UInt16(_) => DataTypeView::UInt16,
            Series::UInt32(_) => DataTypeView::UInt32,
            Series::UInt64(_) => DataTypeView::UInt64,
            Series::Int8(_) => DataTypeView::Int8,
            Series::Int16(_) => DataTypeView::Int16,
            Series::Int32(_) => DataTypeView::Int32,
            Series::Int64(_) => DataTypeView::Int64,
            Series::Float32(_) => DataTypeView::Float32,
            Series::Float64(_) => DataTypeView::Float64,
            Series::Utf8(_) => DataTypeView::Utf8,
            Series::Date(_) => DataTypeView::Date,
        }
    }

    /// The field of the column.
    pub open spec fn spec_field(self) -> FieldView {
        FieldView { name: self.spec_name(), data_type: self.spec_dtype() }
    }

    /// Whether `v` is the element at index `i` as a value of the column's
    /// logical type.
    pub open spec fn is_value_at(self, i: int, v: AnyValue) -> bool {
        match self {
            Series::Date(ca) => ca.is_logical_value(i, v),
            _ => any_value_of(self.values()[i], v),
        }
    }

    /// Creates a column of 32-bit integers without nulls, in one chunk.
    pub fn new(name: &str, values: &[i32]) -> (r: Series)
        ensures
            r is Int32,
            r.spec_name() == name@,
            r.values() == Seq::new(values@.len(), |i: int| Some(Scalar::Int32(values@[i]))),
            r.spec_chunks() == seq![r.values()],
    {
        Series::Int32(Int32Chunked::new_from_slice(name, values))
    }

    /// Name of the column.
    pub fn name(&self) -> (r: &String)
        ensures
            r@ == self.spec_name(),
    {
        match self {
            Series::Boolean(ca) => ca.name(),
            Series::UInt8(ca) => ca.name(),
            Series::UInt16(ca) => ca.name(),
            Series::UInt32(ca) => ca.name(),
            Series::UInt64(ca) => ca.name(),
            Series::Int8(ca) => ca.name(),
            Series::Int16(ca) => ca.name(),
            Series::Int32(ca) => ca.name(),
            Series::Int64(ca) => ca.name(),
            Series::Float32(ca) => ca.name(),
            Series::Float64(ca) => ca.name(),
            Series::Utf8(ca) => ca.name(),
            Series::Date(ca) => ca.0.name(),
        }
    }

    /// The logical data type of the column.
    pub fn dtype(&self) -> (r: DataType)
        ensures
            r@ == self.spec_dtype(),
    {
        match self {
            Series::Boolean(_) => DataType::Boolean,
            Series::UInt8(_) => DataType::UInt8,
            Series::UInt16(_) => DataType::UInt16,
            Series::UInt32(_) => DataType::UInt32,
            Series::UInt64(_) => DataType::UInt64,
            Series::Int8(_) => DataType::Int8,
            Series::Int16(_) => DataType::Int16,
            Series::Int32(_) => DataType::Int32,
            Series::Int64(_) => DataType::Int64,
            Series::Float32(_) => DataType::Float32,
            Series::Float64(_) => DataType::Float64,
            Series::Utf8(_) => DataType::Utf8,
            Series::Date(_) => DataType::Date,
        }
    }

    /// The field of the column: its name and logical data type.
    pub fn field(&self) -> (r: Field)
        ensures
            r@ == self.spec_field(),
    {
        Field::new(self.name().as_str(), self.dtype())
    }

    /// The number of elements.
    pub fn len(&self) -> (r: usize)
        ensures
            r == self.values().len(),
    {
        match self {
            Series::Boolean(ca) => ca.len(),
            Series::UInt8(ca) => ca.len(),
            Series::UInt16(ca) => ca.len(),
            Series::UInt32(ca) => ca.len(),
            Series::UInt64(ca) => ca.len(),
            Series::Int8(ca) => ca.len(),
            Series::Int16(ca) => ca.len(),
            Series::Int32(ca) => ca.len(),
            Series::Int64(ca) => ca.len(),
            Series::Float32(ca) => ca.len(),
            Series::Float64(ca) => ca.len(),
            Series::Utf8(ca) => ca.len(),
            Series::Date(ca) => ca.0.len(),
        }
    }

    /// The number of chunks.
    pub fn n_chunks(&self) -> (r: usize)
        ensures
            r == self.spec_chunks().len(),
    {
        match self {
            Series::Boolean(ca) => ca.chunks().len(),
            Series::UInt8(ca) => ca.chunks().len(),
            Series::UInt16(ca) => ca.chunks().len(),
            Series::UInt32(ca) => ca.chunks().len(),
            Series::UInt64(ca) => ca.chunks().len(),
            Series::Int8(ca) => ca.chunks().len(),
            Series::Int16(ca) => ca.chunks().len(),
            Series::Int32(ca) => ca.chunks().len(),
            Series::Int64(ca) => ca.chunks().len(),
            Series::Float32(ca) => ca.chunks().len(),
            Series::Float64(ca) => ca.chunks().len(),
            Series::Utf8(ca) => ca.chunks().len(),
            Series::Date(ca) => ca.0.chunks().len(),
        }
    }

    /// The element at index `i` as a value of the column's logical type.
    pub fn get(&self, i: usize) -> (r: AnyValue<'_>)
        requires
            i < self.values().len(),
        ensures
            self.is_value_at(i as int, r),
    {
        match self {
            Series::Boolean(ca) => ca.get_any_value(i),
            Series::UInt8(ca) => ca.get_any_value(i),
            Series::UInt16(ca) => ca.get_any_value(i),
            Series::UInt32(ca) => ca.get_any_value(i),
            Series::UInt64(ca) => ca.get_any_value(i),
            Series::Int8(ca) => ca.get_any_value(i),
            Series::Int16(ca) => ca.get_any_value(i),
            Series::Int32(ca) => ca.get_any_value(i),
            Series::Int64(ca) => ca.get_any_value(i),
            Series::Float32(ca) => ca.get_any_value(i),
            Series::Float64(ca) => ca.get_any_value(i),
            Series::Utf8(ca) => ca.get_any_value(i),
            Series::Date(ca) => LogicalType::get_any_value(ca, i),
        }
    }

    /// The element at index `i` as a value of the column's logical type, or
    /// nothing where the column has no such element.
    pub fn get_checked(&self, i: usize) -> (r: Option<AnyValue<'_>>)
        ensures
            match r {
                Some(v) => i < self.values().len() && self.is_value_at(i as int, v),
                None => i >= self.values().len(),
            },
    {
        if i < self.len() {
            Some(self.get(i))
        } else {
            None
        }
    }

    /// The column as a chunked array of 32-bit integers, if that is its
    /// type.
    pub fn i32(&self) -> (r: Result<&Int32Chunked>)
        ensures
            match r {
                Ok(ca) => *self == Series::Int32(*ca),
                Err(e) => {
                    &&& !(self is Int32)
                    &&& e matches PolarsError::SchemaMisMatch(m)
                    &&& m@ == "Series dtype is not i32"@
                },
            },
    {
        match self {
            Series::Int32(ca) => Ok(ca),
            _ => Err(PolarsError::SchemaMisMatch(String::from_str("Series dtype is not i32"))),
        }
    }
}

impl Clone for Series {
    fn clone(&self) -> (r: Self)
        ensures
            r.values() == self.values(),
            r.spec_chunks() == self.spec_chunks(),
            r.spec_field() == self.spec_field(),
    {
        match self {
            Series::Boolean(ca) => Series::Boolean(ca.clone()),
            Series::UInt8(ca) => Series::UInt8(ca.clone()),
            Series::UInt16(ca) => Series::UInt16(ca.clone()),
            Series::UInt32(ca) => Series::UInt32(ca.clone()),
            Series::UInt64(ca) => Series::UInt64(ca.clone()),
            Series::Int8(ca) => Series::Int8(ca.clone()),
            Series::Int16(ca) => Series::Int16(ca.clone()),
            Series::Int32(ca) => Series::Int32(ca.clone()),
            Series::Int64(ca) => Series::Int64(ca.clone()),
            Series::Float32(ca) => Series::Float32(ca.clone()),
            Series::Float64(ca) => Series::Float64(ca.clone()),
            Series::Utf8(ca) => Series::Utf8(ca.clone()),
            Series::Date(ca) => Series::Date(ca.clone()),
        }
    }
}

} // verus!
