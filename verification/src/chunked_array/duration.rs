//! Differences between points in time over 64-bit integers. The unit is
//! carried by the column.

use crate::chunked_array::logical::{Logical, LogicalType};
use crate::chunked_array::{any_value_of, Int64Chunked};
use crate::datatypes::any_value::AnyValue;
use crate::datatypes::dtype::{DataType, DataTypeView, TimeUnit};
use crate::datatypes::markers::{DurationType, Int64Type};
use vstd::prelude::*;

verus! {

pub type DurationChunked = Logical<DurationType, Int64Type>;

impl Int64Chunked {
    /// Reinterprets the integers as time differences in the given unit.
    pub fn into_duration(self, timeunit: TimeUnit) -> (r: DurationChunked)
        ensures
            r.0 == self,
            r.2 == Some(DataType::Duration(timeunit)),
            r.is_valid(),
    {
        let mut dt = DurationChunked::new_logical(self);
        dt.2 = Some(DataType::Duration(timeunit));
        dt
    }
}

impl DurationChunked {
    /// The unit of the values.
    pub fn time_unit(&self) -> (r: TimeUnit)
        requires
            self.is_valid(),
        ensures
            self.2 matches Some(DataType::Duration(tu)) && r == tu,
    {
        match &self.2 {
            Some(DataType::Duration(tu)) => *tu,
            _ => TimeUnit::Nanoseconds,
        }
    }
}

impl LogicalType for DurationChunked {
    open spec fn is_valid(&self) -> bool {
        self.2 matches Some(DataType::Duration(_))
    }

    open spec fn spec_dtype(&self) -> DataTypeView {
        self.2->0@
    }

    open spec fn spec_len(&self) -> nat {
        self.0@.len()
    }

    open spec fn is_logical_value(&self, i: int, v: AnyValue) -> bool {
        self.2 matches Some(DataType::Duration(tu)) && exists|p: AnyValue| #[trigger]
            any_value_of(self.0@[i], p) && v == p.spec_into_duration(tu)
    }

    fn dtype(&self) -> &DataType {
        match &self.2 {
            Some(dt) => dt,
            None => &DataType::Unknown,
        }
    }

    fn get_any_value(&self, i: usize) -> (r: AnyValue<'_>) {
        let physical = self.0.get_any_value(i);
        physical.into_duration(self.time_unit())
    }
}

} // verus!
