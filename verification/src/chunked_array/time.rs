//! Times of day: nanoseconds since midnight over 64-bit integers.

use crate::chunked_array::logical::{Logical, LogicalType};
use crate::chunked_array::{any_value_of, Int64Chunked};
use crate::datatypes::any_value::AnyValue;
use crate::datatypes::dtype::{DataType, DataTypeView};
use crate::datatypes::markers::{Int64Type, TimeType};
use vstd::prelude::*;

verus! {

pub type TimeChunked = Logical<TimeType, Int64Type>;

impl From<Int64Chunked> for TimeChunked {
    fn from(ca: Int64Chunked) -> (r: Self) {
        TimeChunked::new_logical(ca)
    }
}

impl vstd::std_specs::convert::FromSpecImpl<Int64Chunked> for TimeChunked {
    open spec fn obeys_from_spec() -> bool {
        true
    }

    open spec fn from_spec(ca: Int64Chunked) -> Self {
        Logical::wrapping(ca)
    }
}

impl Int64Chunked {
    /// Reinterprets the integers as nanoseconds since midnight.
    pub fn into_time(self) -> (r: TimeChunked)
        ensures
            r == TimeChunked::wrapping(self),
            r.0 == self,
            r.2 is None,
    {
        TimeChunked::new_logical(self)
    }
}

impl LogicalType for TimeChunked {
    open spec fn is_valid(&self) -> bool {
        true
    }

    open spec fn spec_dtype(&self) -> DataTypeView {
        DataTypeView::Time
    }

    open spec fn spec_len(&self) -> nat {
        self.0@.len()
    }

    open spec fn is_logical_value(&self, i: int, v: AnyValue) -> bool {
        exists|p: AnyValue| #[trigger] any_value_of(self.0@[i], p) && v == p.spec_into_time()
    }

    fn dtype(&self) -> &DataType {
        &DataType::Time
    }

    fn get_any_value(&self, i: usize) -> (r: AnyValue<'_>) {
        let physical = self.0.get_any_value(i);
        physical.into_time()
    }
}

} // verus!
