//! Points in time: time since the UNIX epoch over 64-bit integers. The unit
//! and the time zone are carried by the column.

use crate::chunked_array::logical::{Logical, LogicalType};
use crate::chunked_array::{any_value_of, Int64Chunked};
use crate::datatypes::any_value::AnyValue;
use crate::datatypes::dtype::{DataType, DataTypeView, TimeUnit, TimeZone};
use crate::datatypes::markers::{DatetimeType, Int64Type};
use vstd::prelude::*;

verus! {

pub type DatetimeChunked = Logical<DatetimeType, Int64Type>;

impl Int64Chunked {
    /// Reinterprets the integers as time since the UNIX epoch in the given
    /// unit and time zone.
    pub fn into_datetime(self, timeunit: TimeUnit, tz: Option<TimeZone>) -> (r: DatetimeChunked)
        ensures
            r.0 == self,
            r.2 == Some(DataType::Datetime(timeunit, tz)),
            r.is_valid(),
    {
        let mut dt = DatetimeChunked::new_logical(self);
        dt.2 = Some(DataType::Datetime(timeunit, tz));
        dt
    }
}

impl DatetimeChunked {
    /// The unit of the values.
    pub fn time_unit(&self) -> (r: TimeUnit)
        requires
            self.is_valid(),
        ensures
            self.2 matches Some(DataType::Datetime(tu, _)) && r == tu,
    {
        match &self.2 {
            Some(DataType::Datetime(tu, _)) => *tu,
            _ => TimeUnit::Nanoseconds,
        }
    }

    /// The time zone of the values, if they have one.
    pub fn time_zone(&self) -> (r: &Option<TimeZone>)
        requires
            self.is_valid(),
        ensures
            self.2 matches Some(DataType::Datetime(_, tz)) && *r == tz,
    {
        match &self.2 {
            Some(DataType::Datetime(_, tz)) => tz,
            _ => &None,
        }
    }
}

impl LogicalType for DatetimeChunked {
    open spec fn is_valid(&self) -> bool {
        self.2 matches Some(DataType::Datetime(_, _))
    }

    open spec fn spec_dtype(&self) -> DataTypeView {
        self.2->0@
    }

    open spec fn spec_len(&self) -> nat {
        self.0@.len()
    }

    open spec fn is_logical_value(&self, i: int, v: AnyValue) -> bool {
        self.2 matches Some(DataType::Datetime(tu, tz)) && exists|p: AnyValue| #[trigger]
            any_value_of(self.0@[i], p) && v == p.spec_into_datetime(tu, &tz)
    }

    fn dtype(&self) -> &DataType {
        match &self.2 {
            Some(dt) => dt,
            None => &DataType::Unknown,
        }
    }

    fn get_any_value(&self, i: usize) -> (r: AnyValue<'_>) {
        let physical = self.0.get_any_value(i);
        physical.into_datetime(self.time_unit(), self.time_zone())
    }
}

} // verus!
