//! Interchange with the Arrow type system.
//!
//! The types of this module describe Arrow data types, fields and schemas
//! as plain values. They hold what the conversions to and from this
//! library's types read.

use crate::datatypes::dtype::{DataType, DataTypeView, TimeUnit};
use crate::datatypes::field::{fields_view, Field, FieldView};
use crate::datatypes::schema::{is_first_position, lemma_position, position, Schema};
use crate::text::{debug_list, debug_list_text, str_eq};
use vstd::prelude::*;

verus! {

/// The resolution of an Arrow time type.
#[derive(Copy, Clone, Debug, PartialEq, Eq, Hash, Structural)]
pub enum ArrowTimeUnit {
    Second,
    Millisecond,
    Microsecond,
    Nanosecond,
}

/// The integer type of the keys of an Arrow dictionary.
#[derive(Copy, Clone, Debug, PartialEq, Eq, Hash, Structural)]
pub enum IntegerType {
    Int8,
    Int16,
    Int32,
    Int64,
    UInt8,
    UInt16,
    UInt32,
    UInt64,
}

/// An Arrow data type.
#[derive(Debug, PartialEq)]
pub enum ArrowDataType {
    Null,
    Boolean,
    Int8,
    Int16,
    Int32,
    Int64,
    UInt8,
    UInt16,
    UInt32,
    UInt64,
    Float32,
    Float64,
    /// A point in time, with an optional time zone.
    Timestamp(ArrowTimeUnit, Option<String>),
    /// Days since the UNIX epoch in 32 bits.
    Date32,
    /// Milliseconds since the UNIX epoch in 64 bits.
    Date64,
    Time32(ArrowTimeUnit),
    Time64(ArrowTimeUnit),
    Duration(ArrowTimeUnit),
    Utf8,
    LargeUtf8,
    /// A list with 32-bit offsets; the field describes the items.
    List(Box<ArrowField>),
    /// A list with 64-bit offsets; the field describes the items.
    LargeList(Box<ArrowField>),
    /// Values of the boxed type, encoded by integer keys; the flag says
    /// whether the values are sorted.
    Dictionary(IntegerType, Box<ArrowDataType>, bool),
    /// A named extension of the boxed type, with optional metadata.
    Extension(String, Box<ArrowDataType>, Option<String>),
    /// Any other Arrow type, by its description.
    Other(String),
}

/// An Arrow field: a name, a data type and whether values may be null.
#[derive(Debug, PartialEq)]
pub struct ArrowField {
    pub name: String,
    pub data_type: ArrowDataType,
    pub is_nullable: bool,
}

/// An Arrow schema: a list of fields.
#[derive(Debug, PartialEq)]
pub struct ArrowSchema {
    pub fields: Vec<ArrowField>,
}

/// A failure reported in Arrow's terms.
#[derive(Debug, PartialEq)]
pub enum ArrowError {
    InvalidArgumentError(String),
}

/// Mathematical model of an [`ArrowDataType`].
pub enum ArrowDataTypeView {
    Null,
    Boolean,
    Int8,
    Int16,
    Int32,
    Int64,
    UInt8,
    UInt16,
    UInt32,
    UInt64,
    Float32,
    Float64,
    Timestamp(ArrowTimeUnit, Option<Seq<char>>),
    Date32,
    Date64,
    Time32(ArrowTimeUnit),
    Time64(ArrowTimeUnit),
    Duration(ArrowTimeUnit),
    Utf8,
    LargeUtf8,
    List(Box<ArrowFieldView>),
    LargeList(Box<ArrowFieldView>),
    Dictionary(IntegerType, Box<ArrowDataTypeView>, bool),
    Extension(Seq<char>, Box<ArrowDataTypeView>, Option<Seq<char>>),
    Other(Seq<char>),
}

/// Mathematical model of an [`ArrowField`].
pub struct ArrowFieldView {
    pub name: Seq<char>,
    pub data_type: ArrowDataTypeView,
    pub is_nullable: bool,
}

/// The name of the extension type that stands for columns of opaque values.
pub open spec fn extension_name() -> Seq<char> {
    "POLARS_EXTENSION_TYPE"@
}

impl TimeUnit {
    /// The Arrow unit of the same resolution.
    pub open spec fn arrow(self) -> ArrowTimeUnit {
        match self {
            TimeUnit::Nanoseconds => ArrowTimeUnit::Nanosecond,
            TimeUnit::Milliseconds => ArrowTimeUnit::Millisecond,
        }
    }

    /// Converts to the Arrow unit of the same resolution.
    pub fn to_arrow(self) -> (r: ArrowTimeUnit)
        ensures
            r == self.arrow(),
    {
        match self {
            TimeUnit::Nanoseconds => ArrowTimeUnit::Nanosecond,
            TimeUnit::Milliseconds => ArrowTimeUnit::Millisecond,
        }
    }
}

impl ArrowTimeUnit {
    /// The unit in which values of this resolution are held: microseconds
    /// are held as nanoseconds and seconds as milliseconds.
    pub open spec fn polars(self) -> TimeUnit {
        match self {
            ArrowTimeUnit::Millisecond => TimeUnit::Milliseconds,
            ArrowTimeUnit::Nanosecond => TimeUnit::Nanoseconds,
            ArrowTimeUnit::Microsecond => TimeUnit::Nanoseconds,
            ArrowTimeUnit::Second => TimeUnit::Milliseconds,
        }
    }
}

impl<'a> From<&'a ArrowTimeUnit> for TimeUnit {
    fn from(tu: &'a ArrowTimeUnit) -> (r: Self) {
        match tu {
            ArrowTimeUnit::Millisecond => TimeUnit::Milliseconds,
            ArrowTimeUnit::Nanosecond => TimeUnit::Nanoseconds,
            // will be cast
            ArrowTimeUnit::Microsecond => TimeUnit::Nanoseconds,
            // will be cast
            ArrowTimeUnit::Second => TimeUnit::Milliseconds,
        }
    }
}

impl<'a> vstd::std_specs::convert::FromSpecImpl<&'a ArrowTimeUnit> for TimeUnit {
    open spec fn obeys_from_spec() -> bool {
        true
    }

    open spec fn from_spec(tu: &'a ArrowTimeUnit) -> Self {
        tu.polars()
    }
}

/// The model of an optional string.
pub open spec fn opt_text(s: Option<String>) -> Option<Seq<char>> {
    match s {
        Some(s) => Some(s@),
        None => None,
    }
}

impl ArrowDataType {
    /// The mathematical model of this type.
    pub open spec fn model(self) -> ArrowDataTypeView
        decreases self,
    {
        match self {
            ArrowDataType::Null => ArrowDataTypeView::Null,
            ArrowDataType::Boolean => ArrowDataTypeView::Boolean,
            ArrowDataType::Int8 => ArrowDataTypeView::Int8,
            ArrowDataType::Int16 => ArrowDataTypeView::Int16,
            ArrowDataType::Int32 => ArrowDataTypeView::Int32,
            ArrowDataType::Int64 => ArrowDataTypeView::Int64,
            ArrowDataType::UInt8 => ArrowDataTypeView::UInt8,
            ArrowDataType::UInt16 => ArrowDataTypeView::UInt16,
            ArrowDataType::UInt32 => ArrowDataTypeView::UInt32,
            ArrowDataType::UInt64 => ArrowDataTypeView::UInt64,
            ArrowDataType::Float32 => ArrowDataTypeView::Float32,
            ArrowDataType::Float64 => ArrowDataTypeView::Float64,
            ArrowDataType::Timestamp(tu, tz) => ArrowDataTypeView::Timestamp(tu, opt_text(tz)),
            ArrowDataType::Date32 => ArrowDataTypeView::Date32,
            ArrowDataType::Date64 => ArrowDataTypeView::Date64,
            ArrowDataType::Time32(tu) => ArrowDataTypeView::Time32(tu),
            ArrowDataType::Time64(tu) => ArrowDataTypeView::Time64(tu),
            ArrowDataType::Duration(tu) => ArrowDataTypeView::Duration(tu),
            ArrowDataType::Utf8 => ArrowDataTypeView::Utf8,
            ArrowDataType::LargeUtf8 => ArrowDataTypeView::LargeUtf8,
            ArrowDataType::List(f) => ArrowDataTypeView::List(Box::new((*f).model())),
            ArrowDataType::LargeList(f) => ArrowDataTypeView::LargeList(Box::new((*f).model())),
            ArrowDataType::Dictionary(k, v, sorted) => ArrowDataTypeView::Dictionary(
                k,
                Box::new((*v).model()),
                sorted,
            ),
            ArrowDataType::Extension(name, inner, meta) => ArrowDataTypeView::Extension(
                name@,
                Box::new((*inner).model()),
                opt_text(meta),
            ),
            ArrowDataType::Other(what) => ArrowDataTypeView::Other(what@),
        }
    }
}

impl ArrowField {
    /// The mathematical model of this field.
    pub open spec fn model(self) -> ArrowFieldView
        decreases self,
    {
        ArrowFieldView {
            name: self.name@,
            data_type: self.data_type.model(),
            is_nullable: self.is_nullable,
        }
    }

    /// Creates a field.
    pub fn new(name: &str, data_type: ArrowDataType, is_nullable: bool) -> (r: Self)
        ensures
            r@ == (ArrowFieldView { name: name@, data_type: data_type@, is_nullable }),
            r.data_type == data_type,
    {
        ArrowField { name: String::from_str(name), data_type, is_nullable }
    }

    /// The data type of the field.
    pub fn data_type(&self) -> (r: &ArrowDataType)
        ensures
            *r == self.data_type,
    {
        &self.data_type
    }
}

impl View for ArrowDataType {
    type V = ArrowDataTypeView;

    open spec fn view(&self) -> ArrowDataTypeView {
        self.model()
    }
}

impl View for ArrowField {
    type V = ArrowFieldView;

    open spec fn view(&self) -> ArrowFieldView {
        self.model()
    }
}

/// The models of a sequence of Arrow fields, in order.
pub open spec fn arrow_fields_view(fields: Seq<ArrowField>) -> Seq<ArrowFieldView> {
    Seq::new(fields.len(), |i: int| fields[i]@)
}

impl View for ArrowSchema {
    type V = Seq<ArrowFieldView>;

    open spec fn view(&self) -> Seq<ArrowFieldView> {
        arrow_fields_view(self.fields@)
    }
}

impl From<Vec<ArrowField>> for ArrowSchema {
    fn from(fields: Vec<ArrowField>) -> (r: Self) {
        ArrowSchema { fields }
    }
}

impl vstd::std_specs::convert::FromSpecImpl<Vec<ArrowField>> for ArrowSchema {
    open spec fn obeys_from_spec() -> bool {
        true
    }

    open spec fn from_spec(fields: Vec<ArrowField>) -> Self {
        ArrowSchema { fields }
    }
}

impl ArrowDataTypeView {
    /// Whether the type has a counterpart among this library's types.
    pub open spec fn supported(self) -> bool
        decreases self,
    {
        match self {
            ArrowDataTypeView::List(f) => f.data_type.supported(),
            ArrowDataTypeView::LargeList(f) => f.data_type.supported(),
            ArrowDataTypeView::Extension(name, _, _) => name == extension_name(),
            ArrowDataTypeView::Other(_) => false,
            _ => true,
        }
    }

    /// The counterpart of a supported Arrow type.
    ///
    /// Lists of either offset width become lists; strings of either offset
    /// width become strings; `Date64` becomes a datetime in milliseconds;
    /// times of either width and of any unit become `Time`; every dictionary
    /// becomes `Categorical`.
    pub open spec fn polars(self) -> DataTypeView
        decreases self,
    {
        match self {
            ArrowDataTypeView::Null => DataTypeView::Null,
            ArrowDataTypeView::UInt8 => DataTypeView::UInt8,
            ArrowDataTypeView::UInt16 => DataTypeView::UInt16,
            ArrowDataTypeView::UInt32 => DataTypeView::UInt32,
            ArrowDataTypeView::UInt64 => DataTypeView::UInt64,
            ArrowDataTypeView::Int8 => DataTypeView::Int8,
            ArrowDataTypeView::Int16 => DataTypeView::Int16,
            ArrowDataTypeView::Int32 => DataTypeView::Int32,
            ArrowDataTypeView::Int64 => DataTypeView::Int64,
            ArrowDataTypeView::Boolean => DataTypeView::Boolean,
            ArrowDataTypeView::Float32 => DataTypeView::Float32,
            ArrowDataTypeView::Float64 => DataTypeView::Float64,
            ArrowDataTypeView::LargeList(f) => DataTypeView::List(
                Box::new(f.data_type.polars()),
            ),
            ArrowDataTypeView::List(f) => DataTypeView::List(Box::new(f.data_type.polars())),
            ArrowDataTypeView::Date32 => DataTypeView::Date,
            ArrowDataTypeView::Timestamp(tu, tz) => DataTypeView::Datetime(tu.polars(), tz),
            ArrowDataTypeView::Duration(tu) => DataTypeView::Duration(tu.polars()),
            ArrowDataTypeView::Date64 => DataTypeView::Datetime(TimeUnit::Milliseconds, None),
            ArrowDataTypeView::LargeUtf8 => DataTypeView::Utf8,
            ArrowDataTypeView::Utf8 => DataTypeView::Utf8,
            ArrowDataTypeView::Time64(_) => DataTypeView::Time,
            ArrowDataTypeView::Time32(_) => DataTypeView::Time,
            ArrowDataTypeView::Dictionary(_, _, _) => DataTypeView::Categorical,
            ArrowDataTypeView::Extension(_, _, _) => DataTypeView::Object("extension"@),
            ArrowDataTypeView::Other(_) => DataTypeView::Unknown,
        }
    }
}

impl ArrowFieldView {
    /// The counterpart of an Arrow field: the same name with the counterpart
    /// of its data type.
    pub open spec fn polars(self) -> FieldView {
        FieldView { name: self.name, data_type: self.data_type.polars() }
    }
}

impl DataTypeView {
    /// Whether the type can be handed to Arrow: it is not, and is not a list
    /// of, an object type or the statically unknown type.
    pub open spec fn has_arrow(self) -> bool
        decreases self,
    {
        match self {
            DataTypeView::Object(_) => false,
            DataTypeView::Unknown => false,
            DataTypeView::List(inner) => inner.has_arrow(),
            _ => true,
        }
    }

    /// The Arrow type with the given name for the item field of lists.
    pub open spec fn arrow_with_item_name(self, item: Seq<char>) -> ArrowDataTypeView {
        match self {
            DataTypeView::List(inner) => ArrowDataTypeView::LargeList(
                Box::new(
                    ArrowFieldView { name: item, data_type: inner.to_arrow(), is_nullable: true },
                ),
            ),
            _ => self.to_arrow(),
        }
    }

    /// The Arrow type of a column of this type: strings and lists with
    /// 64-bit offsets, times in nanoseconds, categoricals by their physical
    /// type. The item field of a list has the empty name and is nullable.
    pub open spec fn to_arrow(self) -> ArrowDataTypeView
        decreases self,
    {
        match self {
            DataTypeView::Boolean => ArrowDataTypeView::Boolean,
            DataTypeView::UInt8 => ArrowDataTypeView::UInt8,
            DataTypeView::UInt16 => ArrowDataTypeView::UInt16,
            DataTypeView::UInt32 => ArrowDataTypeView::UInt32,
            DataTypeView::UInt64 => ArrowDataTypeView::UInt64,
            DataTypeView::Int8 => ArrowDataTypeView::Int8,
            DataTypeView::Int16 => ArrowDataTypeView::Int16,
            DataTypeView::Int32 => ArrowDataTypeView::Int32,
            DataTypeView::Int64 => ArrowDataTypeView::Int64,
            DataTypeView::Float32 => ArrowDataTypeView::Float32,
            DataTypeView::Float64 => ArrowDataTypeView::Float64,
            DataTypeView::Utf8 => ArrowDataTypeView::LargeUtf8,
            DataTypeView::Date => ArrowDataTypeView::Date32,
            DataTypeView::Datetime(unit, tz) => ArrowDataTypeView::Timestamp(unit.arrow(), tz),
            DataTypeView::Duration(unit) => ArrowDataTypeView::Duration(unit.arrow()),
            DataTypeView::Time => ArrowDataTypeView::Time64(ArrowTimeUnit::Nanosecond),
            DataTypeView::List(inner) => ArrowDataTypeView::LargeList(
                Box::new(
                    ArrowFieldView {
                        name: Seq::empty(),
                        data_type: inner.to_arrow(),
                        is_nullable: true,
                    },
                ),
            ),
            DataTypeView::Null => ArrowDataTypeView::Null,
            DataTypeView::Object(_) => ArrowDataTypeView::Other(Seq::empty()),
            DataTypeView::Categorical => ArrowDataTypeView::UInt32,
            DataTypeView::Unknown => ArrowDataTypeView::Other(Seq::empty()),
        }
    }
}

impl FieldView {
    /// The Arrow field of a column: nullable, with the Arrow type of the
    /// column's data type.
    pub open spec fn to_arrow(self) -> ArrowFieldView {
        ArrowFieldView { name: self.name, data_type: self.data_type.to_arrow(), is_nullable: true }
    }

    /// The Arrow field of a column as part of a schema: item fields of lists
    /// are named `item`, and a categorical column is a dictionary of strings
    /// with unsigned 32-bit keys.
    pub open spec fn to_arrow_in_schema(self) -> ArrowFieldView {
        match self.data_type {
            DataTypeView::List(_) => ArrowFieldView {
                name: self.name,
                data_type: self.data_type.arrow_with_item_name("item"@),
                is_nullable: true,
            },
            DataTypeView::Categorical => ArrowFieldView {
                name: self.name,
                data_type: ArrowDataTypeView::Dictionary(
                    IntegerType::UInt32,
                    Box::new(ArrowDataTypeView::LargeUtf8),
                    false,
                ),
                is_nullable: true,
            },
            _ => self.to_arrow(),
        }
    }
}

/// The Arrow schema of a list of columns.
pub open spec fn schema_to_arrow(fields: Seq<FieldView>) -> Seq<ArrowFieldView> {
    Seq::new(fields.len(), |i: int| fields[i].to_arrow_in_schema())
}

/// The columns that an Arrow schema describes.
pub open spec fn schema_from_arrow(fields: Seq<ArrowFieldView>) -> Seq<FieldView> {
    Seq::new(fields.len(), |i: int| fields[i].polars())
}

impl DataTypeView {
    /// Whether the type, as the item type of a list, comes back unchanged
    /// from Arrow: it holds no categorical, object or statically unknown
    /// type at any depth.
    pub open spec fn survives_nested(self) -> bool
        decreases self,
    {
        match self {
            DataTypeView::Categorical => false,
            DataTypeView::Object(_) => false,
            DataTypeView::Unknown => false,
            DataTypeView::List(inner) => inner.survives_nested(),
            _ => true,
        }
    }

    /// Whether a column of this type in a schema comes back unchanged from
    /// Arrow.
    pub open spec fn survives_arrow(self) -> bool {
        match self {
            DataTypeView::Categorical => true,
            _ => self.survives_nested(),
        }
    }
}

/// A type without categorical, object or unknown parts comes back unchanged
/// from its Arrow type.
pub proof fn lemma_dtype_round_trip(t: DataTypeView)
    requires
        t.survives_nested(),
    ensures
        t.has_arrow(),
        t.to_arrow().supported(),
        t.to_arrow().polars() == t,
    decreases t,
{
    match t {
        DataTypeView::List(inner) => {
            lemma_dtype_round_trip(*inner);
        },
        _ => {},
    }
}

/// Converting the columns of a schema to Arrow and back gives the same
/// columns: as many, with the same names and data types.
pub proof fn lemma_schema_round_trip(fields: Seq<FieldView>)
    requires
        forall|i: int| 0 <= i < fields.len() ==> (#[trigger] fields[i]).data_type.survives_arrow(),
    ensures
        forall|i: int| 0 <= i < fields.len() ==> (#[trigger] fields[i]).data_type.has_arrow(),
        forall|i: int|
            0 <= i < fields.len() ==> (#[trigger] schema_to_arrow(fields)[i]).data_type.supported(),
        schema_from_arrow(schema_to_arrow(fields)) == fields,
{
    assert forall|i: int| 0 <= i < fields.len() implies (#[trigger] fields[i]).data_type.has_arrow()
        && schema_to_arrow(fields)[i].data_type.supported() && schema_to_arrow(
        fields,
    )[i].polars() == fields[i] by {
        let f = fields[i];
        match f.data_type {
            DataTypeView::List(inner) => {
                lemma_dtype_round_trip(*inner);
            },
            DataTypeView::Categorical => {},
            _ => {
                lemma_dtype_round_trip(f.data_type);
            },
        }
    }
    assert(schema_from_arrow(schema_to_arrow(fields)) =~= fields);
}

/// Reading an Arrow schema and handing the columns back to Arrow keeps the
/// number of fields and their names, and gives each field a type that
/// stands for the same column type.
pub proof fn lemma_arrow_round_trip(fields: Seq<ArrowFieldView>)
    requires
        forall|i: int|
            0 <= i < fields.len() ==> (#[trigger] fields[i]).data_type.supported()
                && fields[i].data_type.polars().survives_arrow(),
    ensures
        schema_to_arrow(schema_from_arrow(fields)).len() == fields.len(),
        forall|i: int|
            0 <= i < fields.len() ==> {
                let back = #[trigger] schema_to_arrow(schema_from_arrow(fields))[i];
                &&& back.name == fields[i].name
                &&& back.data_type.supported()
                &&& back.data_type.polars() == fields[i].data_type.polars()
            },
{
    let columns = schema_from_arrow(fields);
    assert forall|i: int| 0 <= i < columns.len() implies (
    #[trigger] columns[i]).data_type.survives_arrow() by {
        assert(columns[i] == fields[i].polars());
    }
    lemma_schema_round_trip(columns);
    assert forall|i: int| 0 <= i < fields.len() implies {
        let back = #[trigger] schema_to_arrow(schema_from_arrow(fields))[i];
        &&& back.name == fields[i].name
        &&& back.data_type.supported()
        &&& back.data_type.polars() == fields[i].data_type.polars()
    } by {
        let back = schema_to_arrow(columns)[i];
        assert(schema_from_arrow(schema_to_arrow(columns))[i] == columns[i]);
        assert(back.polars() == columns[i]);
        assert(columns[i] == fields[i].polars());
    }
}

/// Copies an optional string.
fn clone_opt_string(s: &Option<String>) -> (r: Option<String>)
    ensures
        r == *s,
{
    match s {
        Some(x) => Some(x.clone()),
        None => None,
    }
}

impl ArrowDataType {
    /// Whether the type has a counterpart among this library's types.
    pub fn is_supported(&self) -> (r: bool)
        ensures
            r == self@.supported(),
        decreases self,
    {
        match self {
            ArrowDataType::List(f) => {
                assert(f@.data_type == f.data_type@);
                f.data_type.is_supported()
            },
            ArrowDataType::LargeList(f) => {
                assert(f@.data_type == f.data_type@);
                f.data_type.is_supported()
            },
            ArrowDataType::Extension(name, _, _) => str_eq(name.as_str(), "POLARS_EXTENSION_TYPE"),
            ArrowDataType::Other(_) => false,
            _ => true,
        }
    }
}

impl DataType {
    /// Whether the type can be handed to Arrow.
    pub fn has_arrow(&self) -> (r: bool)
        ensures
            r == self@.has_arrow(),
        decreases self,
    {
        match self {
            DataType::Object(_) => false,
            DataType::Unknown => false,
            DataType::List(inner) => (&**inner).has_arrow(),
            _ => true,
        }
    }

    /// Convert to an Arrow data type.
    pub fn to_arrow(&self) -> (r: ArrowDataType)
        requires
            self@.has_arrow(),
        ensures
            r@ == self@.to_arrow(),
        decreases self,
    {
        match self {
            DataType::Boolean => ArrowDataType::Boolean,
            DataType::UInt8 => ArrowDataType::UInt8,
            DataType::UInt16 => ArrowDataType::UInt16,
            DataType::UInt32 => ArrowDataType::UInt32,
            DataType::UInt64 => ArrowDataType::UInt64,
            DataType::Int8 => ArrowDataType::Int8,
            DataType::Int16 => ArrowDataType::Int16,
            DataType::Int32 => ArrowDataType::Int32,
            DataType::Int64 => ArrowDataType::Int64,
            DataType::Float32 => ArrowDataType::Float32,
            DataType::Float64 => ArrowDataType::Float64,
            DataType::Utf8 => ArrowDataType::LargeUtf8,
            DataType::Date => ArrowDataType::Date32,
            DataType::Datetime(unit, tz) => ArrowDataType::Timestamp(
                unit.to_arrow(),
                clone_opt_string(tz),
            ),
            DataType::Duration(unit) => ArrowDataType::Duration(unit.to_arrow()),
            DataType::Time => ArrowDataType::Time64(ArrowTimeUnit::Nanosecond),
            DataType::List(dt) => {
                let inner = (&**dt).to_arrow();
                let field = ArrowField::new("", inner, true);
                proof {
                    reveal_strlit("");
                    assert(""@ =~= Seq::<char>::empty());
                }
                ArrowDataType::LargeList(Box::new(field))
            },
            DataType::Null => ArrowDataType::Null,
            DataType::Categorical => ArrowDataType::UInt32,
            _ => ArrowDataType::Other(String::new()),
        }
    }

    /// The counterpart of a supported Arrow type.
    pub fn from_arrow(dt: &ArrowDataType) -> (r: DataType)
        requires
            dt@.supported(),
        ensures
            r@ == dt@.polars(),
        decreases dt,
    {
        match dt {
            ArrowDataType::Null => DataType::Null,
            ArrowDataType::UInt8 => DataType::UInt8,
            ArrowDataType::UInt16 => DataType::UInt16,
            ArrowDataType::UInt32 => DataType::UInt32,
            ArrowDataType::UInt64 => DataType::UInt64,
            ArrowDataType::Int8 => DataType::Int8,
            ArrowDataType::Int16 => DataType::Int16,
            ArrowDataType::Int32 => DataType::Int32,
            ArrowDataType::Int64 => DataType::Int64,
            ArrowDataType::Boolean => DataType::Boolean,
            ArrowDataType::Float32 => DataType::Float32,
            ArrowDataType::Float64 => DataType::Float64,
            ArrowDataType::LargeList(f) => {
                assert(f@.data_type == f.data_type@);
                DataType::List(Box::new(DataType::from_arrow(f.data_type())))
            },
            ArrowDataType::List(f) => {
                assert(f@.data_type == f.data_type@);
                DataType::List(Box::new(DataType::from_arrow(f.data_type())))
            },
            ArrowDataType::Date32 => DataType::Date,
            ArrowDataType::Timestamp(tu, tz) => DataType::Datetime(
                TimeUnit::from(tu),
                clone_opt_string(tz),
            ),
            ArrowDataType::Duration(tu) => DataType::Duration(TimeUnit::from(tu)),
            ArrowDataType::Date64 => DataType::Datetime(TimeUnit::Milliseconds, None),
            ArrowDataType::LargeUtf8 => DataType::Utf8,
            ArrowDataType::Utf8 => DataType::Utf8,
            ArrowDataType::Time64(_) => DataType::Time,
            ArrowDataType::Time32(_) => DataType::Time,
            ArrowDataType::Dictionary(_, _, _) => DataType::Categorical,
            ArrowDataType::Extension(_, _, _) => DataType::Object("extension"),
            ArrowDataType::Other(_) => DataType::Unknown,
        }
    }

    /// Whether this type is the counterpart of the supported Arrow type.
    pub fn eq_arrow(&self, other: &ArrowDataType) -> (r: bool)
        requires
            other@.supported(),
        ensures
            r == (self@ == other@.polars()),
    {
        let dt = DataType::from_arrow(other);
        self.same_as(&dt)
    }
}

impl Field {
    /// Converts the `Field` to an Arrow field, which is nullable.
    pub fn to_arrow(&self) -> (r: ArrowField)
        requires
            self@.data_type.has_arrow(),
        ensures
            r@ == self@.to_arrow(),
    {
        ArrowField::new(self.name().as_str(), self.data_type().to_arrow(), true)
    }

    /// The column that a supported Arrow field describes.
    pub fn from_arrow(f: &ArrowField) -> (r: Field)
        requires
            f@.data_type.supported(),
        ensures
            r@ == f@.polars(),
    {
        Field::new(f.name.as_str(), DataType::from_arrow(f.data_type()))
    }
}

impl Schema {
    /// The Arrow schema of the columns. The item field of a list column is
    /// named `item`; a categorical column becomes a dictionary of strings.
    pub fn to_arrow(&self) -> (r: ArrowSchema)
        requires
            forall|i: int| 0 <= i < self@.len() ==> (#[trigger] self@[i]).data_type.has_arrow(),
        ensures
            r@ == schema_to_arrow(self@),
    {
        let fields_in = self.fields();
        let n = fields_in.len();
        let mut fields: Vec<ArrowField> = Vec::new();
        let mut i: usize = 0;
        while i < n
            invariant
                i <= n,
                n == fields_in@.len(),
                fields_view(fields_in@) == self@,
                forall|j: int| 0 <= j < self@.len() ==> (#[trigger] self@[j]).data_type.has_arrow(),
                fields@.len() == i,
                forall|j: int| 0 <= j < i ==> (#[trigger] fields@[j])@ == self@[j].to_arrow_in_schema(),
            decreases n - i,
        {
            let f = &fields_in[i];
            assert(f@ == self@[i as int]);
            let converted = match f.data_type() {
                DataType::List(dt) => {
                    let inner = (&**dt).to_arrow();
                    let item = ArrowField::new("item", inner, true);
                    let list = ArrowDataType::LargeList(Box::new(item));
                    assert(list@ == ArrowDataTypeView::LargeList(Box::new(item@)));
                    ArrowField::new(f.name().as_str(), list, true)
                },
                DataType::Categorical => {
                    let values = ArrowDataType::LargeUtf8;
                    assert(values@ == ArrowDataTypeView::LargeUtf8);
                    let dictionary = ArrowDataType::Dictionary(
                        IntegerType::UInt32,
                        Box::new(values),
                        false,
                    );
                    ArrowField::new(f.name().as_str(), dictionary, true)
                },
                _ => f.to_arrow(),
            };
            assert(converted@ == f@.to_arrow_in_schema());
            fields.push(converted);
            i += 1;
        }
        let r = ArrowSchema::from(fields);
        assert(r@ =~= schema_to_arrow(self@));
        r
    }

    /// The columns that an Arrow schema of supported types describes.
    pub fn from_arrow(a_schema: &ArrowSchema) -> (r: Schema)
        requires
            forall|i: int|
                0 <= i < a_schema@.len() ==> (#[trigger] a_schema@[i]).data_type.supported(),
        ensures
            r@ == schema_from_arrow(a_schema@),
    {
        let n = a_schema.fields.len();
        let mut fields: Vec<Field> = Vec::new();
        let mut i: usize = 0;
        while i < n
            invariant
                i <= n,
                n == a_schema.fields@.len(),
                forall|j: int|
                    0 <= j < a_schema@.len() ==> (#[trigger] a_schema@[j]).data_type.supported(),
                fields@.len() == i,
                forall|j: int| 0 <= j < i ==> (#[trigger] fields@[j])@ == a_schema@[j].polars(),
            decreases n - i,
        {
            assert(a_schema.fields@[i as int]@ == a_schema@[i as int]);
            fields.push(Field::from_arrow(&a_schema.fields[i]));
            i += 1;
        }
        assert(fields_view(fields@) =~= schema_from_arrow(a_schema@));
        Schema::new(fields)
    }
}

/// Lookup of a field by name.
pub trait IndexOfSchema {
    /// The names of the fields, in order.
    spec fn names(&self) -> Seq<Seq<char>>;

    /// The index of the first field with the given name. The error for a
    /// name that no field has lists the names of all fields.
    fn index_of(&self, name: &str) -> (r: Result<usize, ArrowError>)
        ensures
            match r {
                Ok(i) => position(self.names(), name@) == Some(i as int),
                Err(e) => {
                    &&& position(self.names(), name@) is None
                    &&& e matches ArrowError::InvalidArgumentError(m)
                    &&& m@ == "Unable to get field named \""@ + name@ + "\". Valid fields: "@
                        + debug_list_text(self.names())
                },
            },
    ;
}

impl IndexOfSchema for ArrowSchema {
    open spec fn names(&self) -> Seq<Seq<char>> {
        Seq::new(self@.len(), |i: int| self@[i].name)
    }

    fn index_of(&self, name: &str) -> (r: Result<usize, ArrowError>) {
        let n = self.fields.len();
        let mut i: usize = 0;
        while i < n
            invariant
                i <= n,
                n == self.fields@.len(),
                forall|j: int| 0 <= j < i ==> self.names()[j] != name@,
            decreases n - i,
        {
            if str_eq(self.fields[i].name.as_str(), name) {
                proof {
                    lemma_position(self.names(), name@);
                }
                assert(is_first_position(self.names(), name@, i as int));
                return Ok(i);
            }
            i += 1;
        }
        proof {
            lemma_position(self.names(), name@);
        }
        let mut valid_fields: Vec<String> = Vec::new();
        let mut k: usize = 0;
        while k < n
            invariant
                k <= n,
                n == self.fields@.len(),
                valid_fields@.len() == k,
                forall|j: int| 0 <= j < k ==> valid_fields@[j]@ == self.names()[j],
            decreases n - k,
        {
            valid_fields.push(self.fields[k].name.clone());
            k += 1;
        }
        assert(valid_fields.deep_view() =~= self.names());
        let listed = debug_list(&valid_fields);
        let mut msg = String::from_str("Unable to get field named \"");
        msg.append(name);
        msg.append("\". Valid fields: ");
        msg.append(listed.as_str());
        Err(ArrowError::InvalidArgumentError(msg))
    }
}

} // verus!
