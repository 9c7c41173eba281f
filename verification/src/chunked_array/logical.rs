//! Logical types layered over the chunked array of their physical type.

use crate::chunked_array::ChunkedArray;
use crate::datatypes::any_value::AnyValue;
use crate::datatypes::dtype::{DataType, DataTypeView};
use crate::datatypes::field::{Field, FieldView};
use crate::datatypes::markers::PolarsDataType;
use std::marker::PhantomData;
use std::ops::Deref;
use vstd::prelude::*;

verus! {

/// Maps a logical type `K` to the chunked array of its physical type `T`. The
/// stored values are those of the physical array; only their interpretation
/// differs. The third field may carry a data type that is not known
/// statically.
#[derive(Debug)]
pub struct Logical<K: PolarsDataType, T: PolarsDataType>(
    pub ChunkedArray<T>,
    pub PhantomData<K>,
    pub Option<DataType>,
);

/// Copies an optional data type.
fn clone_opt_dtype(dt: &Option<DataType>) -> (r: Option<DataType>)
    ensures
        r == *dt,
{
    match dt {
        Some(d) => Some(d.clone()),
        None => None,
    }
}

impl<K: PolarsDataType, T: PolarsDataType> Clone for Logical<K, T> {
    fn clone(&self) -> (r: Self)
        ensures
            r.0@ == self.0@,
            r.0.spec_chunks() == self.0.spec_chunks(),
            r.0.spec_field() == self.0.spec_field(),
            r.2 == self.2,
    {
        let mut new = Logical::<K, T>::new_logical::<K>(self.0.clone());
        new.2 = clone_opt_dtype(&self.2);
        new
    }
}

impl<K: PolarsDataType, T: PolarsDataType> Deref for Logical<K, T> {
    type Target = ChunkedArray<T>;

    fn deref(&self) -> (r: &Self::Target)
        ensures
            *r == self.0,
    {
        &self.0
    }
}

impl<K: PolarsDataType, T: PolarsDataType> Logical<K, T> {
    /// The logical column over the physical array `ca`, with no data type
    /// beyond that of the marker.
    pub open spec fn wrapping(ca: ChunkedArray<T>) -> Self {
        Logical(ca, PhantomData, None)
    }

    /// Wraps a physical array as the logical type `J`, without touching its
    /// values.
    pub fn new_logical<J: PolarsDataType>(ca: ChunkedArray<T>) -> (r: Logical<J, T>)
        ensures
            r == Logical::<J, T>::wrapping(ca),
            r.0 == ca,
            r.2 is None,
    {
        Logical(ca, PhantomData, None)
    }
}

/// What a logical column knows beyond its physical array.
pub trait LogicalType {
    /// Whether the column carries what its logical type needs to know: for
    /// a type that is not known statically, the data type itself.
    spec fn is_valid(&self) -> bool;

    /// The logical data type.
    spec fn spec_dtype(&self) -> DataTypeView;

    /// The number of elements.
    spec fn spec_len(&self) -> nat;

    /// Whether `v` is the element at index `i` as a value of the logical
    /// type.
    spec fn is_logical_value(&self, i: int, v: AnyValue) -> bool;

    /// Get data type of ChunkedArray.
    fn dtype(&self) -> (r: &DataType)
        requires
            self.is_valid(),
        ensures
            r@ == self.spec_dtype(),
    ;

    /// The element at index `i` as a value of the logical type; null
    /// elements stay null.
    fn get_any_value(&self, i: usize) -> (r: AnyValue<'_>)
        requires
            self.is_valid(),
            i < self.spec_len(),
        ensures
            self.is_logical_value(i as int, r),
    ;
}

impl<K: PolarsDataType, T: PolarsDataType> Logical<K, T> where Self: LogicalType {
    /// The field of the column: the name of the physical array with the
    /// logical data type.
    pub fn field(&self) -> (r: Field)
        requires
            self.is_valid(),
        ensures
            r@ == (FieldView { name: self.0.spec_field().name, data_type: self.spec_dtype() }),
    {
        let name = self.0.ref_field().name();
        Field::new(name.as_str(), LogicalType::dtype(self).clone())
    }
}

} // verus!
