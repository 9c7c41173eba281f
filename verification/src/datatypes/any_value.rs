//! A single value of any supported data type.

use crate::datatypes::dtype::{time_zone_view, DataType, TimeUnit, TimeZone};
use crate::datatypes::float_bits::{
    float32_bits_eq, float32_bits_order, float32_equal, float32_order, float64_bits_eq,
    float64_bits_order, float64_equal, float64_order, make_order, order_of,
};
use crate::error::{PolarsError, Result};
use crate::series::Series;
use std::cmp::Ordering;
use vstd::prelude::*;

verus! {

/// The strings that the indices of a categorical column stand for.
#[derive(Debug)]
pub enum RevMapping {
    /// A mapping of the global string cache: the identity of the cache, and
    /// the strings by index.
    Global(u128, Vec<String>),
    /// A mapping that belongs to one array alone.
    Local(Vec<String>),
}

/// An opaque value; only the name of its type is known.
pub trait PolarsObjectSafe: Send + Sync {
    /// The name of the value's type.
    fn object_name(&self) -> &'static str;
}

/// A value of any data type. Strings, time zones, categorical mappings and
/// objects are borrowed from the array that the value was read from.
/// Floating-point values are held as their IEEE 754 bit patterns.
pub enum AnyValue<'a> {
    Null,
    /// A binary true or false.
    Boolean(bool),
    /// A UTF8 encoded string type.
    Utf8(&'a str),
    /// An unsigned 8-bit integer number.
    UInt8(u8),
    /// An unsigned 16-bit integer number.
    UInt16(u16),
    /// An unsigned 32-bit integer number.
    UInt32(u32),
    /// An unsigned 64-bit integer number.
    UInt64(u64),
    /// An 8-bit integer number.
    Int8(i8),
    /// A 16-bit integer number.
    Int16(i16),
    /// A 32-bit integer number.
    Int32(i32),
    /// A 64-bit integer number.
    Int64(i64),
    /// A 32-bit floating point number, as its bit pattern.
    Float32(u32),
    /// A 64-bit floating point number, as its bit pattern.
    Float64(u64),
    /// Days since the UNIX epoch.
    Date(i32),
    /// Time since the UNIX epoch, in the given unit and time zone.
    Datetime(i64, TimeUnit, &'a Option<TimeZone>),
    /// Difference between two points in time, in the given unit.
    Duration(i64, TimeUnit),
    /// Nanoseconds since midnight.
    Time(i64),
    /// An index into the strings of a categorical column.
    Categorical(u32, &'a RevMapping),
    /// Nested type: a column of values.
    List(Series),
    /// A value that only its owner can interpret.
    Object(&'a dyn PolarsObjectSafe),
}

impl<'a> From<u8> for AnyValue<'a> {
    fn from(a: u8) -> (r: Self) {
        AnyValue::UInt8(a)
    }
}

impl<'a> vstd::std_specs::convert::FromSpecImpl<u8> for AnyValue<'a> {
    open spec fn obeys_from_spec() -> bool {
        true
    }

    open spec fn from_spec(a: u8) -> Self {
        AnyValue::UInt8(a)
    }
}

impl<'a> From<u16> for AnyValue<'a> {
    fn from(a: u16) -> (r: Self) {
        AnyValue::UInt16(a)
    }
}

impl<'a> vstd::std_specs::convert::FromSpecImpl<u16> for AnyValue<'a> {
    open spec fn obeys_from_spec() -> bool {
        true
    }

    open spec fn from_spec(a: u16) -> Self {
        AnyValue::UInt16(a)
    }
}

impl<'a> From<u32> for AnyValue<'a> {
    fn from(a: u32) -> (r: Self) {
        AnyValue::UInt32(a)
    }
}

impl<'a> vstd::std_specs::convert::FromSpecImpl<u32> for AnyValue<'a> {
    open spec fn obeys_from_spec() -> bool {
        true
    }

    open spec fn from_spec(a: u32) -> Self {
        AnyValue::UInt32(a)
    }
}

impl<'a> From<u64> for AnyValue<'a> {
    fn from(a: u64) -> (r: Self) {
        AnyValue::UInt64(a)
    }
}

impl<'a> vstd::std_specs::convert::FromSpecImpl<u64> for AnyValue<'a> {
    open spec fn obeys_from_spec() -> bool {
        true
    }

    open spec fn from_spec(a: u64) -> Self {
        AnyValue::UInt64(a)
    }
}

impl<'a> From<i8> for AnyValue<'a> {
    fn from(a: i8) -> (r: Self) {
        AnyValue::Int8(a)
    }
}

impl<'a> vstd::std_specs::convert::FromSpecImpl<i8> for AnyValue<'a> {
    open spec fn obeys_from_spec() -> bool {
        true
    }

    open spec fn from_spec(a: i8) -> Self {
        AnyValue::Int8(a)
    }
}

impl<'a> From<i16> for AnyValue<'a> {
    fn from(a: i16) -> (r: Self) {
        AnyValue::Int16(a)
    }
}

impl<'a> vstd::std_specs::convert::FromSpecImpl<i16> for AnyValue<'a> {
    open spec fn obeys_from_spec() -> bool {
        true
    }

    open spec fn from_spec(a: i16) -> Self {
        AnyValue::Int16(a)
    }
}

impl<'a> From<i32> for AnyValue<'a> {
    fn from(a: i32) -> (r: Self) {
        AnyValue::Int32(a)
    }
}

impl<'a> vstd::std_specs::convert::FromSpecImpl<i32> for AnyValue<'a> {
    open spec fn obeys_from_spec() -> bool {
        true
    }

    open spec fn from_spec(a: i32) -> Self {
        AnyValue::Int32(a)
    }
}

impl<'a> From<i64> for AnyValue<'a> {
    fn from(a: i64) -> (r: Self) {
        AnyValue::Int64(a)
    }
}

impl<'a> vstd::std_specs::convert::FromSpecImpl<i64> for AnyValue<'a> {
    open spec fn obeys_from_spec() -> bool {
        true
    }

    open spec fn from_spec(a: i64) -> Self {
        AnyValue::Int64(a)
    }
}

/// What a value feeds into a hasher.
pub enum HashInput<'a> {
    U64(u64),
    I8(i8),
    I16(i16),
    I32(i32),
    I64(i64),
    U8(u8),
    U16(u16),
    U32(u32),
    /// The bytes of a string.
    Text(&'a str),
}

/// Two values are ordered only if they are numbers of the same variant, and
/// they are ordered as equal exactly if they are equal.
pub proof fn lemma_order_agrees_with_equality(a: AnyValue, b: AnyValue, same_local: bool)
    ensures
        a.partial_order(b) is Some ==> a.is_number() && b.is_number() && a.same_variant(b),
        a.partial_order(b) == Some(Ordering::Equal) <==> (a.is_number() && a.equals(
            b,
            same_local,
        )),
        a.partial_order(b) == Some(Ordering::Less) <==> b.partial_order(a) == Some(
            Ordering::Greater,
        ),
{
}

/// Adding is symmetric: where one sum is defined, so is the other, and both
/// are the same value.
pub proof fn lemma_add_is_symmetric(a: AnyValue, b: AnyValue)
    ensures
        a.add_defined(b) == b.add_defined(a),
        a.add_defined(b) ==> a.sum(b) == b.sum(a),
{
}

/// Whether two references point at one and the same list of strings.
///
/// Trusted: calls `std::ptr::eq` of the standard library, which compares the
/// addresses. Two references with one address refer to one value; of two
/// different addresses nothing is claimed.
#[verifier::external_body]
fn same_array(a: &Vec<String>, b: &Vec<String>) -> (r: bool)
    ensures
        r ==> *a == *b,
{
    std::ptr::eq(a, b)
}

/// Compares two optional time zones by their text.
fn time_zone_eq(a: &Option<TimeZone>, b: &Option<TimeZone>) -> (r: bool)
    ensures
        r == (time_zone_view(*a) == time_zone_view(*b)),
{
    match (a, b) {
        (Some(x), Some(y)) => *x == *y,
        (None, None) => true,
        _ => false,
    }
}

impl<'a> AnyValue<'a> {
    /// Whether the value is a number: an integer or a floating-point number.
    pub open spec fn is_number(self) -> bool {
        self is UInt8 || self is UInt16 || self is UInt32 || self is UInt64 || self is Int8
            || self is Int16 || self is Int32 || self is Int64 || self is Float32
            || self is Float64
    }

    /// Whether the two numbers are values of one variant.
    pub open spec fn same_variant(self, other: AnyValue) -> bool {
        match (self, other) {
            (AnyValue::UInt8(_), AnyValue::UInt8(_)) => true,
            (AnyValue::UInt16(_), AnyValue::UInt16(_)) => true,
            (AnyValue::UInt32(_), AnyValue::UInt32(_)) => true,
            (AnyValue::UInt64(_), AnyValue::UInt64(_)) => true,
            (AnyValue::Int8(_), AnyValue::Int8(_)) => true,
            (AnyValue::Int16(_), AnyValue::Int16(_)) => true,
            (AnyValue::Int32(_), AnyValue::Int32(_)) => true,
            (AnyValue::Int64(_), AnyValue::Int64(_)) => true,
            (AnyValue::Float32(_), AnyValue::Float32(_)) => true,
            (AnyValue::Float64(_), AnyValue::Float64(_)) => true,
            _ => false,
        }
    }

    /// Whether the sum of the two values is defined: one of them is null, or
    /// both are integers of the same one of the types `Int32`, `Int64`,
    /// `UInt32` and `UInt64` and their sum is a value of that type.
    pub open spec fn add_defined(self, rhs: AnyValue) -> bool {
        match (self, rhs) {
            (AnyValue::Null, _) => true,
            (_, AnyValue::Null) => true,
            (AnyValue::Int32(l), AnyValue::Int32(r)) => i32::MIN <= l + r <= i32::MAX,
            (AnyValue::Int64(l), AnyValue::Int64(r)) => i64::MIN <= l + r <= i64::MAX,
            (AnyValue::UInt32(l), AnyValue::UInt32(r)) => l + r <= u32::MAX,
            (AnyValue::UInt64(l), AnyValue::UInt64(r)) => l + r <= u64::MAX,
            _ => false,
        }
    }

    /// The sum of the two values: null if one of them is null, and else the
    /// sum of the two integers, in their type.
    pub open spec fn sum(self, rhs: AnyValue) -> AnyValue<'a> {
        match (self, rhs) {
            (AnyValue::Null, _) => AnyValue::Null,
            (_, AnyValue::Null) => AnyValue::Null,
            (AnyValue::Int32(l), AnyValue::Int32(r)) => AnyValue::Int32((l + r) as i32),
            (AnyValue::Int64(l), AnyValue::Int64(r)) => AnyValue::Int64((l + r) as i64),
            (AnyValue::UInt32(l), AnyValue::UInt32(r)) => AnyValue::UInt32((l + r) as u32),
            (AnyValue::UInt64(l), AnyValue::UInt64(r)) => AnyValue::UInt64((l + r) as u64),
            _ => AnyValue::Null,
        }
    }

    /// Whether the value borrows nothing, so that it can outlive the array
    /// that it was read from.
    pub open spec fn is_owned(self) -> bool {
        !(self is Utf8 || self is Datetime || self is Categorical || self is Object)
    }

    /// The text that names the kind of a borrowed value in diagnostics.
    pub open spec fn kind_text(self) -> Seq<char> {
        match self {
            AnyValue::Utf8(_) => "str"@,
            AnyValue::Datetime(_, _, _) => "datetime"@,
            AnyValue::Categorical(_, _) => "cat"@,
            AnyValue::Object(_) => "object"@,
            _ => Seq::empty(),
        }
    }

    /// Whether `copy` holds the same value as `self`. A column is the same
    /// if it has the same name, data type, chunks and elements.
    pub open spec fn same_value(self, copy: AnyValue) -> bool {
        match (self, copy) {
            (AnyValue::List(a), AnyValue::List(b)) => a.values() == b.values() && a.spec_chunks()
                == b.spec_chunks() && a.spec_field() == b.spec_field(),
            _ => self == copy,
        }
    }

    /// Whether the two values can be tested for equality: not two columns
    /// and not two objects.
    pub open spec fn comparable(self, other: AnyValue) -> bool {
        !(self is List && other is List) && !(self is Object && other is Object)
    }

    /// Whether the two values are categorical values whose strings belong to
    /// one array each: their equality depends on whether that is one and the
    /// same array.
    pub open spec fn compares_local_mappings(self, other: AnyValue) -> bool {
        &&& self matches AnyValue::Categorical(_, rl)
        &&& other matches AnyValue::Categorical(_, rr)
        &&& *rl is Local
        &&& *rr is Local
    }

    /// Whether two comparable values are equal. `same_local` says, for two
    /// categorical values with local mappings, whether the mappings are one
    /// and the same array. Values of different variants are never equal;
    /// floating-point numbers are equal as numbers.
    pub open spec fn equals(self, other: AnyValue, same_local: bool) -> bool {
        match (self, other) {
            (AnyValue::Utf8(l), AnyValue::Utf8(r)) => l@ == r@,
            (AnyValue::UInt8(l), AnyValue::UInt8(r)) => l == r,
            (AnyValue::UInt16(l), AnyValue::UInt16(r)) => l == r,
            (AnyValue::UInt32(l), AnyValue::UInt32(r)) => l == r,
            (AnyValue::UInt64(l), AnyValue::UInt64(r)) => l == r,
            (AnyValue::Int8(l), AnyValue::Int8(r)) => l == r,
            (AnyValue::Int16(l), AnyValue::Int16(r)) => l == r,
            (AnyValue::Int32(l), AnyValue::Int32(r)) => l == r,
            (AnyValue::Int64(l), AnyValue::Int64(r)) => l == r,
            (AnyValue::Float32(l), AnyValue::Float32(r)) => float32_equal(l, r),
            (AnyValue::Float64(l), AnyValue::Float64(r)) => float64_equal(l, r),
            (AnyValue::Time(l), AnyValue::Time(r)) => l == r,
            (AnyValue::Date(l), AnyValue::Date(r)) => l == r,
            (AnyValue::Datetime(l, tul, tzl), AnyValue::Datetime(r, tur, tzr)) => l == r && tul
                == tur && time_zone_view(*tzl) == time_zone_view(*tzr),
            (AnyValue::Boolean(l), AnyValue::Boolean(r)) => l == r,
            (AnyValue::Null, AnyValue::Null) => true,
            (AnyValue::Categorical(il, rl), AnyValue::Categorical(ir, rr)) => match (*rl, *rr) {
                (RevMapping::Global(idl, _), RevMapping::Global(idr, _)) => idl == idr && il == ir,
                (RevMapping::Local(_), RevMapping::Local(_)) => same_local && il == ir,
                _ => false,
            },
            (AnyValue::Duration(l, tul), AnyValue::Duration(r, tur)) => l == r && tul == tur,
            _ => false,
        }
    }

    /// The order of two values: defined between two numbers of the same
    /// physical type, and not if one of them is a floating-point
    /// not-a-number.
    pub open spec fn partial_order(self, other: AnyValue) -> Option<Ordering> {
        match (self, other) {
            (AnyValue::UInt8(l), AnyValue::UInt8(r)) => Some(order_of(l < r, l == r)),
            (AnyValue::UInt16(l), AnyValue::UInt16(r)) => Some(order_of(l < r, l == r)),
            (AnyValue::UInt32(l), AnyValue::UInt32(r)) => Some(order_of(l < r, l == r)),
            (AnyValue::UInt64(l), AnyValue::UInt64(r)) => Some(order_of(l < r, l == r)),
            (AnyValue::Int8(l), AnyValue::Int8(r)) => Some(order_of(l < r, l == r)),
            (AnyValue::Int16(l), AnyValue::Int16(r)) => Some(order_of(l < r, l == r)),
            (AnyValue::Int32(l), AnyValue::Int32(r)) => Some(order_of(l < r, l == r)),
            (AnyValue::Int64(l), AnyValue::Int64(r)) => Some(order_of(l < r, l == r)),
            (AnyValue::Float32(l), AnyValue::Float32(r)) => float32_order(l, r),
            (AnyValue::Float64(l), AnyValue::Float64(r)) => float64_order(l, r),
            _ => None,
        }
    }

    /// Whether the value can be hashed: it is null, an integer, a string or
    /// a boolean.
    pub open spec fn is_hashable(self) -> bool {
        self is Null || self is Int8 || self is Int16 || self is Int32 || self is Int64
            || self is UInt8 || self is UInt16 || self is UInt32 || self is UInt64 || self is Utf8
            || self is Boolean
    }

    /// What the value feeds into a hasher: an integer itself, in its width;
    /// a string its bytes; a boolean 1 or 0 as a byte; and null a constant.
    pub fn hash_input(&self) -> (r: HashInput<'a>)
        requires
            self.is_hashable(),
        ensures
            match *self {
                AnyValue::Null => r == HashInput::<'a>::U64(9223372036854910930),
                AnyValue::Int8(v) => r == HashInput::<'a>::I8(v),
                AnyValue::Int16(v) => r == HashInput::<'a>::I16(v),
                AnyValue::Int32(v) => r == HashInput::<'a>::I32(v),
                AnyValue::Int64(v) => r == HashInput::<'a>::I64(v),
                AnyValue::UInt8(v) => r == HashInput::<'a>::U8(v),
                AnyValue::UInt16(v) => r == HashInput::<'a>::U16(v),
                AnyValue::UInt32(v) => r == HashInput::<'a>::U32(v),
                AnyValue::UInt64(v) => r == HashInput::<'a>::U64(v),
                AnyValue::Utf8(s) => r == HashInput::Text(s),
                AnyValue::Boolean(v) => r == HashInput::<'a>::U8(
                    if v {
                        1u8
                    } else {
                        0u8
                    },
                ),
                _ => true,
            },
    {
        match self {
            AnyValue::Int8(v) => HashInput::I8(*v),
            AnyValue::Int16(v) => HashInput::I16(*v),
            AnyValue::Int32(v) => HashInput::I32(*v),
            AnyValue::Int64(v) => HashInput::I64(*v),
            AnyValue::UInt8(v) => HashInput::U8(*v),
            AnyValue::UInt16(v) => HashInput::U16(*v),
            AnyValue::UInt32(v) => HashInput::U32(*v),
            AnyValue::UInt64(v) => HashInput::U64(*v),
            AnyValue::Utf8(s) => HashInput::Text(s),
            AnyValue::Boolean(v) => HashInput::U8(
                if *v {
                    1
                } else {
                    0
                },
            ),
            _ => HashInput::U64(u64::MAX / 2 + 135123),
        }
    }

    /// The stored value `self` as a value of a column of the type `dtype`,
    /// if the pairing has a meaning; `rev_map` holds the strings of a
    /// categorical column.
    ///
    /// Null is null in a column of any type. A 32-bit integer is a date in a
    /// date column. A 64-bit integer is a datetime, a duration or a time in
    /// a column of such a type. An unsigned 32-bit integer is a categorical
    /// value in a categorical column for which the strings are given. In a
    /// column that stores what it means, a value of the column's type stands
    /// for itself. No other pairing has a meaning.
    pub open spec fn logical(
        self,
        dtype: &'a DataType,
        rev_map: Option<&'a RevMapping>,
    ) -> Option<AnyValue<'a>> {
        match (self, *dtype) {
            (AnyValue::Null, _) => Some(AnyValue::Null),
            (AnyValue::Int32(v), DataType::Date) => Some(AnyValue::Date(v)),
            (AnyValue::Int64(v), DataType::Datetime(tu, _)) => Some(
                AnyValue::Datetime(v, tu, &dtype->Datetime_1),
            ),
            (AnyValue::Int64(v), DataType::Duration(tu)) => Some(AnyValue::Duration(v, tu)),
            (AnyValue::Int64(v), DataType::Time) => Some(AnyValue::Time(v)),
            (AnyValue::UInt32(v), DataType::Categorical) => match rev_map {
                Some(rev) => Some(AnyValue::Categorical(v, rev)),
                None => None,
            },
            (AnyValue::Boolean(_), DataType::Boolean) => Some(self),
            (AnyValue::Utf8(_), DataType::Utf8) => Some(self),
            (AnyValue::UInt8(_), DataType::UInt8) => Some(self),
            (AnyValue::UInt16(_), DataType::UInt16) => Some(self),
            (AnyValue::UInt32(_), DataType::UInt32) => Some(self),
            (AnyValue::UInt64(_), DataType::UInt64) => Some(self),
            (AnyValue::Int8(_), DataType::Int8) => Some(self),
            (AnyValue::Int16(_), DataType::Int16) => Some(self),
            (AnyValue::Int32(_), DataType::Int32) => Some(self),
            (AnyValue::Int64(_), DataType::Int64) => Some(self),
            (AnyValue::Float32(_), DataType::Float32) => Some(self),
            (AnyValue::Float64(_), DataType::Float64) => Some(self),
            (AnyValue::List(_), DataType::List(_)) => Some(self),
            (AnyValue::Object(_), DataType::Object(_)) => Some(self),
            _ => None,
        }
    }

    /// Interprets a stored value as a value of a column of the type
    /// `dtype`. A pairing without meaning is an error.
    pub fn into_logical(self, dtype: &'a DataType, rev_map: Option<&'a RevMapping>) -> (r: Result<
        AnyValue<'a>,
    >)
        ensures
            match r {
                Ok(v) => self.logical(dtype, rev_map) == Some(v),
                Err(e) => {
                    &&& self.logical(dtype, rev_map) is None
                    &&& e matches PolarsError::ComputeError(m)
                    &&& m@ == "cannot create a value of the data type from the stored value"@
                },
            },
    {
        let same = match (&self, dtype) {
            (AnyValue::Null, _) => true,
            (AnyValue::Int32(v), DataType::Date) => {
                return Ok(AnyValue::Date(*v));
            },
            (AnyValue::Int64(v), DataType::Datetime(tu, tz)) => {
                return Ok(AnyValue::Datetime(*v, *tu, tz));
            },
            (AnyValue::Int64(v), DataType::Duration(tu)) => {
                return Ok(AnyValue::Duration(*v, *tu));
            },
            (AnyValue::Int64(v), DataType::Time) => {
                return Ok(AnyValue::Time(*v));
            },
            (AnyValue::UInt32(v), DataType::Categorical) => match rev_map {
                Some(rev) => {
                    return Ok(AnyValue::Categorical(*v, rev));
                },
                None => false,
            },
            (AnyValue::Boolean(_), DataType::Boolean) => true,
            (AnyValue::Utf8(_), DataType::Utf8) => true,
            (AnyValue::UInt8(_), DataType::UInt8) => true,
            (AnyValue::UInt16(_), DataType::UInt16) => true,
            (AnyValue::UInt32(_), DataType::UInt32) => true,
            (AnyValue::UInt64(_), DataType::UInt64) => true,
            (AnyValue::Int8(_), DataType::Int8) => true,
            (AnyValue::Int16(_), DataType::Int16) => true,
            (AnyValue::Int32(_), DataType::Int32) => true,
            (AnyValue::Int64(_), DataType::Int64) => true,
            (AnyValue::Float32(_), DataType::Float32) => true,
            (AnyValue::Float64(_), DataType::Float64) => true,
            (AnyValue::List(_), DataType::List(_)) => true,
            (AnyValue::Object(_), DataType::Object(_)) => true,
            _ => false,
        };
        if same {
            Ok(self)
        } else {
            Err(
                PolarsError::ComputeError(
                    String::from_str(
                        "cannot create a value of the data type from the stored value",
                    ),
                ),
            )
        }
    }

    /// Whether [`AnyValue::add`] accepts the two values.
    pub fn can_add(&self, rhs: &AnyValue) -> (r: bool)
        ensures
            r == self.add_defined(*rhs),
    {
        match (self, rhs) {
            (AnyValue::Null, _) => true,
            (_, AnyValue::Null) => true,
            (AnyValue::Int32(l), AnyValue::Int32(r)) => l.checked_add(*r).is_some(),
            (AnyValue::Int64(l), AnyValue::Int64(r)) => l.checked_add(*r).is_some(),
            (AnyValue::UInt32(l), AnyValue::UInt32(r)) => l.checked_add(*r).is_some(),
            (AnyValue::UInt64(l), AnyValue::UInt64(r)) => l.checked_add(*r).is_some(),
            _ => false,
        }
    }

    /// Adds two values. The sum with null is null. Else both values are
    /// integers of the same one of the types `Int32`, `Int64`, `UInt32` and
    /// `UInt64`, and the sum is a value of that type.
    #[must_use]
    pub fn add<'b>(&self, rhs: &AnyValue<'b>) -> (r: AnyValue<'a>)
        requires
            self.add_defined(*rhs),
        ensures
            r == self.sum(*rhs),
    {
        match (self, rhs) {
            (AnyValue::Null, _) => AnyValue::Null,
            (_, AnyValue::Null) => AnyValue::Null,
            (AnyValue::Int32(l), AnyValue::Int32(r)) => AnyValue::Int32(*l + *r),
            (AnyValue::Int64(l), AnyValue::Int64(r)) => AnyValue::Int64(*l + *r),
            (AnyValue::UInt32(l), AnyValue::UInt32(r)) => AnyValue::UInt32(*l + *r),
            (AnyValue::UInt64(l), AnyValue::UInt64(r)) => AnyValue::UInt64(*l + *r),
            _ => AnyValue::Null,
        }
    }

    /// Try to coerce to an AnyValue with static lifetime.
    /// This can be done if it does not borrow any values.
    pub fn to_static(&self) -> (r: Result<AnyValue<'static>>)
        ensures
            match r {
                Ok(v) => self.is_owned() && self.same_value(v),
                Err(e) => {
                    &&& !self.is_owned()
                    &&& e matches PolarsError::ComputeError(m)
                    &&& m@ == "cannot get static AnyValue from "@ + self.kind_text()
                },
            },
    {
        let kind = match self {
            AnyValue::Null => return Ok(AnyValue::Null),
            AnyValue::Int8(v) => return Ok(AnyValue::Int8(*v)),
            AnyValue::Int16(v) => return Ok(AnyValue::Int16(*v)),
            AnyValue::Int32(v) => return Ok(AnyValue::Int32(*v)),
            AnyValue::Int64(v) => return Ok(AnyValue::Int64(*v)),
            AnyValue::UInt8(v) => return Ok(AnyValue::UInt8(*v)),
            AnyValue::UInt16(v) => return Ok(AnyValue::UInt16(*v)),
            AnyValue::UInt32(v) => return Ok(AnyValue::UInt32(*v)),
            AnyValue::UInt64(v) => return Ok(AnyValue::UInt64(*v)),
            AnyValue::Boolean(v) => return Ok(AnyValue::Boolean(*v)),
            AnyValue::Float32(v) => return Ok(AnyValue::Float32(*v)),
            AnyValue::Float64(v) => return Ok(AnyValue::Float64(*v)),
            AnyValue::Date(v) => return Ok(AnyValue::Date(*v)),
            AnyValue::Time(v) => return Ok(AnyValue::Time(*v)),
            AnyValue::Duration(v, tu) => return Ok(AnyValue::Duration(*v, *tu)),
            AnyValue::List(v) => return Ok(AnyValue::List(v.clone())),
            AnyValue::Utf8(_) => "str",
            AnyValue::Datetime(_, _, _) => "datetime",
            AnyValue::Categorical(_, _) => "cat",
            AnyValue::Object(_) => "object",
        };
        let mut msg = String::from_str("cannot get static AnyValue from ");
        msg.append(kind);
        Err(PolarsError::ComputeError(msg))
    }

    /// The value as an optional 64-bit integer: none for null, and the number
    /// itself for a value of the types `Int32`, `Int64` and `UInt32`.
    pub fn extract_i64(self) -> (r: Option<i64>)
        requires
            self is Null || self is Int32 || self is Int64 || self is UInt32,
        ensures
            r == match self {
                AnyValue::Int32(v) => Some(v as i64),
                AnyValue::Int64(v) => Some(v),
                AnyValue::UInt32(v) => Some(v as i64),
                _ => None::<i64>,
            },
    {
        match self {
            AnyValue::Int32(v) => Some(v as i64),
            AnyValue::Int64(v) => Some(v),
            AnyValue::UInt32(v) => Some(v as i64),
            _ => None,
        }
    }

    /// Tests two values for equality, given whether the local mappings of
    /// two categorical values are one and the same array. Two columns and
    /// two objects cannot be compared: that is an error.
    pub fn eq_given(&self, other: &AnyValue, same_local: bool) -> (r: Result<bool>)
        ensures
            match r {
                Ok(b) => self.comparable(*other) && b == self.equals(*other, same_local),
                Err(e) => {
                    &&& !self.comparable(*other)
                    &&& e matches PolarsError::ComputeError(m)
                    &&& m@ == if *self is List {
                        "eq between list series not supported"@
                    } else {
                        "eq between object not supported"@
                    }
                },
            },
    {
        match (self, other) {
            (AnyValue::Utf8(l), AnyValue::Utf8(r)) => Ok(crate::text::str_eq(l, r)),
            (AnyValue::UInt8(l), AnyValue::UInt8(r)) => Ok(*l == *r),
            (AnyValue::UInt16(l), AnyValue::UInt16(r)) => Ok(*l == *r),
            (AnyValue::UInt32(l), AnyValue::UInt32(r)) => Ok(*l == *r),
            (AnyValue::UInt64(l), AnyValue::UInt64(r)) => Ok(*l == *r),
            (AnyValue::Int8(l), AnyValue::Int8(r)) => Ok(*l == *r),
            (AnyValue::Int16(l), AnyValue::Int16(r)) => Ok(*l == *r),
            (AnyValue::Int32(l), AnyValue::Int32(r)) => Ok(*l == *r),
            (AnyValue::Int64(l), AnyValue::Int64(r)) => Ok(*l == *r),
            (AnyValue::Float32(l), AnyValue::Float32(r)) => Ok(float32_bits_eq(*l, *r)),
            (AnyValue::Float64(l), AnyValue::Float64(r)) => Ok(float64_bits_eq(*l, *r)),
            (AnyValue::Time(l), AnyValue::Time(r)) => Ok(*l == *r),
            (AnyValue::Date(l), AnyValue::Date(r)) => Ok(*l == *r),
            (AnyValue::Datetime(l, tul, tzl), AnyValue::Datetime(r, tur, tzr)) => Ok(
                *l == *r && *tul == *tur && time_zone_eq(tzl, tzr),
            ),
            (AnyValue::Boolean(l), AnyValue::Boolean(r)) => Ok(*l == *r),
            (AnyValue::List(_), AnyValue::List(_)) => Err(
                PolarsError::ComputeError(String::from_str("eq between list series not supported")),
            ),
            (AnyValue::Object(_), AnyValue::Object(_)) => Err(
                PolarsError::ComputeError(String::from_str("eq between object not supported")),
            ),
            (AnyValue::Null, AnyValue::Null) => Ok(true),
            (AnyValue::Categorical(idx_l, rev_l), AnyValue::Categorical(idx_r, rev_r)) => match (
                rev_l,
                rev_r,
            ) {
                (RevMapping::Global(id_l, _), RevMapping::Global(id_r, _)) => Ok(
                    *id_l == *id_r && *idx_l == *idx_r,
                ),
                (RevMapping::Local(_), RevMapping::Local(_)) => Ok(same_local && *idx_l == *idx_r),
                _ => Ok(false),
            },
            (AnyValue::Duration(l, tu_l), AnyValue::Duration(r, tu_r)) => Ok(
                *l == *r && *tu_l == *tu_r,
            ),
            _ => Ok(false),
        }
    }

    /// Tests two values for equality. Two columns and two objects cannot be
    /// compared: that is an error. Two categorical values with local
    /// mappings are equal only if they have the same index into one and the
    /// same array of strings.
    pub fn eq(&self, other: &AnyValue) -> (r: Result<bool>)
        ensures
            match r {
                Ok(b) => {
                    &&& self.comparable(*other)
                    &&& !self.compares_local_mappings(*other) ==> b == self.equals(*other, false)
                    &&& self.compares_local_mappings(*other) ==> (b ==> self.equals(*other, true)
                        && self->Categorical_1 == other->Categorical_1)
                },
                Err(e) => {
                    &&& !self.comparable(*other)
                    &&& e matches PolarsError::ComputeError(m)
                    &&& m@ == if *self is List {
                        "eq between list series not supported"@
                    } else {
                        "eq between object not supported"@
                    }
                },
            },
    {
        let same_local = match (self, other) {
            (
                AnyValue::Categorical(_, RevMapping::Local(arr_l)),
                AnyValue::Categorical(_, RevMapping::Local(arr_r)),
            ) => same_array(arr_l, arr_r),
            _ => false,
        };
        self.eq_given(other, same_local)
    }

    /// The order of two values. Only two numbers of the same physical type
    /// are ordered; there is no order between values of different variants,
    /// nor with a floating-point not-a-number.
    pub fn partial_cmp(&self, other: &AnyValue) -> (r: Option<Ordering>)
        ensures
            r == self.partial_order(*other),
    {
        match (self, other) {
            (AnyValue::UInt8(l), AnyValue::UInt8(r)) => Some(make_order(*l < *r, *l == *r)),
            (AnyValue::UInt16(l), AnyValue::UInt16(r)) => Some(make_order(*l < *r, *l == *r)),
            (AnyValue::UInt32(l), AnyValue::UInt32(r)) => Some(make_order(*l < *r, *l == *r)),
            (AnyValue::UInt64(l), AnyValue::UInt64(r)) => Some(make_order(*l < *r, *l == *r)),
            (AnyValue::Int8(l), AnyValue::Int8(r)) => Some(make_order(*l < *r, *l == *r)),
            (AnyValue::Int16(l), AnyValue::Int16(r)) => Some(make_order(*l < *r, *l == *r)),
            (AnyValue::Int32(l), AnyValue::Int32(r)) => Some(make_order(*l < *r, *l == *r)),
            (AnyValue::Int64(l), AnyValue::Int64(r)) => Some(make_order(*l < *r, *l == *r)),
            (AnyValue::Float32(l), AnyValue::Float32(r)) => float32_bits_order(*l, *r),
            (AnyValue::Float64(l), AnyValue::Float64(r)) => float64_bits_order(*l, *r),
            _ => None,
        }
    }

    /// The value as a date: a 32-bit integer becomes the date of that many
    /// days since the UNIX epoch, and null stays null.
    pub open spec fn spec_into_date(self) -> AnyValue<'a> {
        match self {
            AnyValue::Int32(v) => AnyValue::Date(v),
            _ => AnyValue::Null,
        }
    }

    /// The value as a point in time in the given unit and time zone.
    pub open spec fn spec_into_datetime(self, tu: TimeUnit, tz: &'a Option<TimeZone>) -> AnyValue<
        'a,
    > {
        match self {
            AnyValue::Int64(v) => AnyValue::Datetime(v, tu, tz),
            _ => AnyValue::Null,
        }
    }

    /// The value as a time difference in the given unit.
    pub open spec fn spec_into_duration(self, tu: TimeUnit) -> AnyValue<'a> {
        match self {
            AnyValue::Int64(v) => AnyValue::Duration(v, tu),
            _ => AnyValue::Null,
        }
    }

    /// The value as a time of day.
    pub open spec fn spec_into_time(self) -> AnyValue<'a> {
        match self {
            AnyValue::Int64(v) => AnyValue::Time(v),
            _ => AnyValue::Null,
        }
    }

    /// Reinterprets a 32-bit integer as a date. Null stays null.
    pub fn into_date(self) -> (r: Self)
        requires
            self is Int32 || self is Null,
        ensures
            r == self.spec_into_date(),
    {
        match self {
            AnyValue::Int32(v) => AnyValue::Date(v),
            _ => AnyValue::Null,
        }
    }

    /// Reinterprets a 64-bit integer as a point in time. Null stays null.
    pub fn into_datetime(self, tu: TimeUnit, tz: &'a Option<TimeZone>) -> (r: Self)
        requires
            self is Int64 || self is Null,
        ensures
            r == self.spec_into_datetime(tu, tz),
    {
        match self {
            AnyValue::Int64(v) => AnyValue::Datetime(v, tu, tz),
            _ => AnyValue::Null,
        }
    }

    /// Reinterprets a 64-bit integer as a time difference. Null stays null.
    pub fn into_duration(self, tu: TimeUnit) -> (r: Self)
        requires
            self is Int64 || self is Null,
        ensures
            r == self.spec_into_duration(tu),
    {
        match self {
            AnyValue::Int64(v) => AnyValue::Duration(v, tu),
            _ => AnyValue::Null,
        }
    }

    /// Reinterprets a 64-bit integer as a time of day. Null stays null.
    pub fn into_time(self) -> (r: Self)
        requires
            self is Int64 || self is Null,
        ensures
            r == self.spec_into_time(),
    {
        match self {
            AnyValue::Int64(v) => AnyValue::Time(v),
            _ => AnyValue::Null,
        }
    }
}

} // verus!
