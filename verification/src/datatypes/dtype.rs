//! Logical and physical column data types.

use crate::text::str_eq;
use vstd::prelude::*;

verus! {

/// Resolution of a timestamp or of a time difference.
#[derive(Copy, Clone, Debug, PartialEq, Eq, Hash, Structural)]
pub enum TimeUnit {
    Nanoseconds,
    Milliseconds,
}

impl TimeUnit {
    /// The abbreviation of the unit.
    pub open spec fn text(self) -> Seq<char> {
        match self {
            TimeUnit::Nanoseconds => "ns"@,
            TimeUnit::Milliseconds => "ms"@,
        }
    }

    /// The abbreviation of the unit: `ns` or `ms`.
    pub fn to_string(&self) -> (r: String)
        ensures
            r@ == self.text(),
    {
        match self {
            TimeUnit::Nanoseconds => String::from_str("ns"),
            TimeUnit::Milliseconds => String::from_str("ms"),
        }
    }
}

/// Name of a time zone.
pub type TimeZone = String;

/// How the values of a stored type lie in memory.
#[derive(Copy, Clone, Debug, PartialEq, Eq, Hash, Structural)]
pub enum Layout {
    /// Every value takes the same number of bits.
    FixedWidth(u8),
    /// The values have different lengths.
    VariableWidth,
    /// The values are arrays themselves.
    Recursive,
    /// Only the owner of the values knows how they lie.
    Opaque,
}

/// The type of the values of one column.
#[derive(Debug, Eq, Hash)]
pub enum DataType {
    Boolean,
    UInt8,
    UInt16,
    UInt32,
    UInt64,
    Int8,
    Int16,
    Int32,
    Int64,
    Float32,
    Float64,
    /// String data.
    Utf8,
    /// Days since the UNIX epoch, stored in 32 bits.
    Date,
    /// Time since the UNIX epoch in the given unit, stored in 64 bits.
    Datetime(TimeUnit, Option<TimeZone>),
    /// Difference between two points in time, stored in 64 bits.
    Duration(TimeUnit),
    /// Nanoseconds since midnight, stored in 64 bits.
    Time,
    /// Nested lists whose items have the inner type.
    List(Box<DataType>),
    /// Opaque values, told apart by the name of their type.
    Object(&'static str),
    Null,
    Categorical,
    /// A logical type that is not known statically.
    Unknown,
}

/// Mathematical model of a [`DataType`]: the same shape, with text as
/// sequences of characters.
pub enum DataTypeView {
    Boolean,
    UInt8,
    UInt16,
    UInt32,
    UInt64,
    Int8,
    Int16,
    Int32,
    Int64,
    Float32,
    Float64,
    Utf8,
    Date,
    Datetime(TimeUnit, Option<Seq<char>>),
    Duration(TimeUnit),
    Time,
    List(Box<DataTypeView>),
    Object(Seq<char>),
    Null,
    Categorical,
    Unknown,
}

impl DataTypeView {
    /// The type that stores the values of this type.
    pub open spec fn to_physical(self) -> DataTypeView {
        match self {
            DataTypeView::Date => DataTypeView::Int32,
            DataTypeView::Datetime(_, _) => DataTypeView::Int64,
            DataTypeView::Duration(_) => DataTypeView::Int64,
            DataTypeView::Time => DataTypeView::Int64,
            DataTypeView::Categorical => DataTypeView::UInt32,
            other => other,
        }
    }

    /// Whether this type is an interpretation layered over another storage
    /// type.
    pub open spec fn is_logical(self) -> bool {
        self is Date || self is Datetime || self is Duration || self is Time
            || self is Categorical
    }

    /// How the values of the type lie in memory: as the values of its
    /// storage type do. The statically unknown type has no layout.
    pub open spec fn layout(self) -> Option<Layout> {
        match self.to_physical() {
            DataTypeView::Null => Some(Layout::FixedWidth(0)),
            DataTypeView::Boolean => Some(Layout::FixedWidth(1)),
            DataTypeView::UInt8 => Some(Layout::FixedWidth(8)),
            DataTypeView::UInt16 => Some(Layout::FixedWidth(16)),
            DataTypeView::UInt32 => Some(Layout::FixedWidth(32)),
            DataTypeView::UInt64 => Some(Layout::FixedWidth(64)),
            DataTypeView::Int8 => Some(Layout::FixedWidth(8)),
            DataTypeView::Int16 => Some(Layout::FixedWidth(16)),
            DataTypeView::Int32 => Some(Layout::FixedWidth(32)),
            DataTypeView::Int64 => Some(Layout::FixedWidth(64)),
            DataTypeView::Float32 => Some(Layout::FixedWidth(32)),
            DataTypeView::Float64 => Some(Layout::FixedWidth(64)),
            DataTypeView::Utf8 => Some(Layout::VariableWidth),
            DataTypeView::List(_) => Some(Layout::Recursive),
            DataTypeView::Object(_) => Some(Layout::Opaque),
            _ => None,
        }
    }

    /// Whether the type is, or is a list of, the statically unknown type.
    pub open spec fn contains_unknown(self) -> bool
        decreases self,
    {
        match self {
            DataTypeView::Unknown => true,
            DataTypeView::List(inner) => inner.contains_unknown(),
            _ => false,
        }
    }

    /// The short name under which the type is shown.
    pub open spec fn text(self) -> Seq<char>
        decreases self,
    {
        match self {
            DataTypeView::Null => "null"@,
            DataTypeView::Boolean => "bool"@,
            DataTypeView::UInt8 => "u8"@,
            DataTypeView::UInt16 => "u16"@,
            DataTypeView::UInt32 => "u32"@,
            DataTypeView::UInt64 => "u64"@,
            DataTypeView::Int8 => "i8"@,
            DataTypeView::Int16 => "i16"@,
            DataTypeView::Int32 => "i32"@,
            DataTypeView::Int64 => "i64"@,
            DataTypeView::Float32 => "f32"@,
            DataTypeView::Float64 => "f64"@,
            DataTypeView::Utf8 => "str"@,
            DataTypeView::Date => "date"@,
            DataTypeView::Datetime(tu, tz) => match tz {
                None => "datetime["@ + tu.text() + "]"@,
                Some(tz) => "datetime["@ + tu.text() + ", "@ + tz + "]"@,
            },
            DataTypeView::Duration(tu) => "duration["@ + tu.text() + "]"@,
            DataTypeView::Time => "time"@,
            DataTypeView::List(inner) => "list ["@ + inner.text() + "]"@,
            DataTypeView::Object(name) => name,
            DataTypeView::Categorical => "cat"@,
            DataTypeView::Unknown => Seq::empty(),
        }
    }

    /// The item type of a list type.
    pub open spec fn inner_dtype(self) -> Option<DataTypeView> {
        match self {
            DataTypeView::List(inner) => Some(*inner),
            _ => None,
        }
    }
}

/// The model of an optional time zone.
pub open spec fn time_zone_view(tz: Option<TimeZone>) -> Option<Seq<char>> {
    match tz {
        Some(s) => Some(s@),
        None => None,
    }
}

impl DataType {
    /// The mathematical model of this type.
    pub open spec fn model(self) -> DataTypeView
        decreases self,
    {
        match self {
            DataType::Boolean => DataTypeView::Boolean,
            DataType::UInt8 => DataTypeView::UInt8,
            DataType::UInt16 => DataTypeView::UInt16,
            DataType::UInt32 => DataTypeView::UInt32,
            DataType::UInt64 => DataTypeView::UInt64,
            DataType::Int8 => DataTypeView::Int8,
            DataType::Int16 => DataTypeView::Int16,
            DataType::Int32 => DataTypeView::Int32,
            DataType::Int64 => DataTypeView::Int64,
            DataType::Float32 => DataTypeView::Float32,
            DataType::Float64 => DataTypeView::Float64,
            DataType::Utf8 => DataTypeView::Utf8,
            DataType::Date => DataTypeView::Date,
            DataType::Datetime(tu, tz) => DataTypeView::Datetime(tu, time_zone_view(tz)),
            DataType::Duration(tu) => DataTypeView::Duration(tu),
            DataType::Time => DataTypeView::Time,
            DataType::List(inner) => DataTypeView::List(Box::new((*inner).model())),
            DataType::Object(name) => DataTypeView::Object(name@),
            DataType::Null => DataTypeView::Null,
            DataType::Categorical => DataTypeView::Categorical,
            DataType::Unknown => DataTypeView::Unknown,
        }
    }
}

impl View for DataType {
    type V = DataTypeView;

    open spec fn view(&self) -> DataTypeView {
        self.model()
    }
}

/// Compares two optional time zones by their text.
fn time_zone_eq(a: &Option<TimeZone>, b: &Option<TimeZone>) -> (r: bool)
    ensures
        r == (time_zone_view(*a) == time_zone_view(*b)),
{
    match (a, b) {
        (Some(x), Some(y)) => *x == *y,
        (None, None) => true,
        _ => false,
    }
}

fn time_zone_clone(a: &Option<TimeZone>) -> (r: Option<TimeZone>)
    ensures
        r == *a,
{
    match a {
        Some(x) => Some(x.clone()),
        None => None,
    }
}

impl Clone for DataType {
    fn clone(&self) -> (r: Self)
        ensures
            r == *self,
        decreases self,
    {
        match self {
            DataType::Boolean => DataType::Boolean,
            DataType::UInt8 => DataType::UInt8,
            DataType::UInt16 => DataType::UInt16,
            DataType::UInt32 => DataType::UInt32,
            DataType::UInt64 => DataType::UInt64,
            DataType::Int8 => DataType::Int8,
            DataType::Int16 => DataType::Int16,
            DataType::Int32 => DataType::Int32,
            DataType::Int64 => DataType::Int64,
            DataType::Float32 => DataType::Float32,
            DataType::Float64 => DataType::Float64,
            DataType::Utf8 => DataType::Utf8,
            DataType::Date => DataType::Date,
            DataType::Datetime(tu, tz) => DataType::Datetime(*tu, time_zone_clone(tz)),
            DataType::Duration(tu) => DataType::Duration(*tu),
            DataType::Time => DataType::Time,
            DataType::List(inner) => DataType::List(Box::new((&**inner).clone())),
            DataType::Object(name) => DataType::Object(*name),
            DataType::Null => DataType::Null,
            DataType::Categorical => DataType::Categorical,
            DataType::Unknown => DataType::Unknown,
        }
    }
}

impl DataType {
    /// Structural comparison; text is compared by content.
    pub fn same_as(&self, other: &DataType) -> (r: bool)
        ensures
            r == (self@ == other@),
        decreases self,
    {
        match (self, other) {
            (DataType::Boolean, DataType::Boolean) => true,
            (DataType::UInt8, DataType::UInt8) => true,
            (DataType::UInt16, DataType::UInt16) => true,
            (DataType::UInt32, DataType::UInt32) => true,
            (DataType::UInt64, DataType::UInt64) => true,
            (DataType::Int8, DataType::Int8) => true,
            (DataType::Int16, DataType::Int16) => true,
            (DataType::Int32, DataType::Int32) => true,
            (DataType::Int64, DataType::Int64) => true,
            (DataType::Float32, DataType::Float32) => true,
            (DataType::Float64, DataType::Float64) => true,
            (DataType::Utf8, DataType::Utf8) => true,
            (DataType::Date, DataType::Date) => true,
            (DataType::Datetime(tu, tz), DataType::Datetime(tu2, tz2)) => {
                *tu == *tu2 && time_zone_eq(tz, tz2)
            },
            (DataType::Duration(tu), DataType::Duration(tu2)) => *tu == *tu2,
            (DataType::Time, DataType::Time) => true,
            (DataType::List(a), DataType::List(b)) => (&**a).same_as(&**b),
            (DataType::Object(a), DataType::Object(b)) => str_eq(a, b),
            (DataType::Null, DataType::Null) => true,
            (DataType::Categorical, DataType::Categorical) => true,
            (DataType::Unknown, DataType::Unknown) => true,
            _ => false,
        }
    }

    /// The short name under which the type is shown, such as `i32`,
    /// `datetime[ms, UTC]` or `list [str]`. The statically unknown type has
    /// no name to show.
    pub fn to_string(&self) -> (r: String)
        requires
            !self@.contains_unknown(),
        ensures
            r@ == self@.text(),
        decreases self,
    {
        match self {
            DataType::Null => String::from_str("null"),
            DataType::Boolean => String::from_str("bool"),
            DataType::UInt8 => String::from_str("u8"),
            DataType::UInt16 => String::from_str("u16"),
            DataType::UInt32 => String::from_str("u32"),
            DataType::UInt64 => String::from_str("u64"),
            DataType::Int8 => String::from_str("i8"),
            DataType::Int16 => String::from_str("i16"),
            DataType::Int32 => String::from_str("i32"),
            DataType::Int64 => String::from_str("i64"),
            DataType::Float32 => String::from_str("f32"),
            DataType::Float64 => String::from_str("f64"),
            DataType::Utf8 => String::from_str("str"),
            DataType::Date => String::from_str("date"),
            DataType::Datetime(tu, tz) => {
                let mut s = String::from_str("datetime[");
                s.append(tu.to_string().as_str());
                match tz {
                    None => {},
                    Some(tz) => {
                        s.append(", ");
                        s.append(tz.as_str());
                    },
                }
                s.append("]");
                s
            },
            DataType::Duration(tu) => {
                let mut s = String::from_str("duration[");
                s.append(tu.to_string().as_str());
                s.append("]");
                s
            },
            DataType::Time => String::from_str("time"),
            DataType::List(tp) => {
                let mut s = String::from_str("list [");
                s.append((&**tp).to_string().as_str());
                s.append("]");
                s
            },
            DataType::Object(name) => String::from_str(name),
            DataType::Categorical => String::from_str("cat"),
            DataType::Unknown => String::new(),
        }
    }

    /// How the values of the type lie in memory, which is how the values of
    /// its storage type lie. The statically unknown type has no layout.
    pub fn layout(&self) -> (r: Option<Layout>)
        ensures
            r == self@.layout(),
    {
        match self {
            DataType::Null => Some(Layout::FixedWidth(0)),
            DataType::Boolean => Some(Layout::FixedWidth(1)),
            DataType::UInt8 => Some(Layout::FixedWidth(8)),
            DataType::UInt16 => Some(Layout::FixedWidth(16)),
            DataType::UInt32 => Some(Layout::FixedWidth(32)),
            DataType::UInt64 => Some(Layout::FixedWidth(64)),
            DataType::Int8 => Some(Layout::FixedWidth(8)),
            DataType::Int16 => Some(Layout::FixedWidth(16)),
            DataType::Int32 => Some(Layout::FixedWidth(32)),
            DataType::Int64 => Some(Layout::FixedWidth(64)),
            DataType::Float32 => Some(Layout::FixedWidth(32)),
            DataType::Float64 => Some(Layout::FixedWidth(64)),
            DataType::Utf8 => Some(Layout::VariableWidth),
            DataType::Date => Some(Layout::FixedWidth(32)),
            DataType::Datetime(_, _) => Some(Layout::FixedWidth(64)),
            DataType::Duration(_) => Some(Layout::FixedWidth(64)),
            DataType::Time => Some(Layout::FixedWidth(64)),
            DataType::List(_) => Some(Layout::Recursive),
            DataType::Object(_) => Some(Layout::Opaque),
            DataType::Categorical => Some(Layout::FixedWidth(32)),
            DataType::Unknown => None,
        }
    }

    /// The item type, if this is a list type.
    pub fn inner_dtype(&self) -> (r: Option<&DataType>)
        ensures
            r is Some <==> *self is List,
            r matches Some(inner) ==> *self == DataType::List(Box::new(*inner)),
            r matches Some(inner) ==> self@.inner_dtype() == Some(inner@),
            r is None ==> self@.inner_dtype() is None,
    {
        if let DataType::List(inner) = self {
            Some(&**inner)
        } else {
            None
        }
    }

    /// Converts to the type that stores the values.
    #[must_use]
    pub fn to_physical(&self) -> (r: DataType)
        ensures
            r@ == self@.to_physical(),
    {
        match self {
            DataType::Date => DataType::Int32,
            DataType::Datetime(_, _) => DataType::Int64,
            DataType::Duration(_) => DataType::Int64,
            DataType::Time => DataType::Int64,
            DataType::Categorical => DataType::UInt32,
            _ => self.clone(),
        }
    }

    /// Whether this is a logical type: one that differs from its storage type.
    pub fn is_logical(&self) -> (r: bool)
        ensures
            r == self@.is_logical(),
            r == (self@ != self@.to_physical()),
    {
        !self.same_as(&self.to_physical())
    }
}

impl PartialEq for DataType {
    fn eq(&self, other: &Self) -> (r: bool) {
        self.same_as(other)
    }
}

impl vstd::std_specs::cmp::PartialEqSpecImpl for DataType {
    open spec fn obeys_eq_spec() -> bool {
        true
    }

    open spec fn eq_spec(&self, other: &Self) -> bool {
        self@ == other@
    }
}

/// Projecting to the storage type twice is the same as projecting once, and
/// the logical types are exactly those that differ from their storage type.
pub proof fn lemma_to_physical_idempotent(t: DataTypeView)
    ensures
        t.to_physical().to_physical() == t.to_physical(),
        t.is_logical() == (t != t.to_physical()),
        !t.to_physical().is_logical(),
{
}

/// A logical type lies in memory as its storage type does: a date in 32
/// bits, a datetime, a duration and a time in 64 bits, and a categorical
/// value in 32 bits. Every type but the statically unknown one has a layout.
pub proof fn lemma_layout_of_logical_types(t: DataTypeView)
    ensures
        t.layout() == t.to_physical().layout(),
        t is Date || t is Categorical ==> t.layout() == Some(Layout::FixedWidth(32)),
        t is Datetime || t is Duration || t is Time ==> t.layout() == Some(Layout::FixedWidth(64)),
        t.layout() is None <==> t is Unknown,
{
}

} // verus!
