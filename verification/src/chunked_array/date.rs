//! Dates: days since the UNIX epoch over 32-bit integers.

use crate::chunked_array::logical::{Logical, LogicalType};
use crate::chunked_array::{any_value_of, Int32Chunked};
use crate::datatypes::any_value::AnyValue;
use crate::datatypes::dtype::{DataType, DataTypeView};
use crate::datatypes::markers::{DateType, Int32Type};
use vstd::prelude::*;

verus! {

pub type DateChunked = Logical<DateType, Int32Type>;

impl From<Int32Chunked> for DateChunked {
    fn from(ca: Int32Chunked) -> (r: Self) {
        DateChunked::new_logical(ca)
    }
}

impl vstd::std_specs::convert::FromSpecImpl<Int32Chunked> for DateChunked {
    open spec fn obeys_from_spec() -> bool {
        true
    }

    open spec fn from_spec(ca: Int32Chunked) -> Self {
        Logical::wrapping(ca)
    }
}

impl Int32Chunked {
    /// Reinterprets the integers as days since the UNIX epoch.
    pub fn into_date(self) -> (r: DateChunked)
        ensures
            r == DateChunked::wrapping(self),
            r.0 == self,
            r.2 is None,
    {
        DateChunked::new_logical(self)
    }
}

impl LogicalType for DateChunked {
    open spec fn is_valid(&self) -> bool {
        true
    }

    open spec fn spec_dtype(&self) -> DataTypeView {
        DataTypeView::Date
    }

    open spec fn spec_len(&self) -> nat {
        self.0@.len()
    }

    open spec fn is_logical_value(&self, i: int, v: AnyValue) -> bool {
        exists|p: AnyValue| #[trigger] any_value_of(self.0@[i], p) && v == p.spec_into_date()
    }

    fn dtype(&self) -> &DataType {
        &DataType::Date
    }

    fn get_any_value(&self, i: usize) -> (r: AnyValue<'_>) {
        let physical = self.0.get_any_value(i);
        physical.into_date()
    }
}

} // verus!
