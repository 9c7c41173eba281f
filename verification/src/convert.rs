//! Conversion of values of a host language into values of this library.
//!
//! A binding reads the host's values into [`HostValue`]s; what they mean to
//! the library is decided here.

use crate::chunked_array::{Chunk, Scalar, Utf8Chunked};
use crate::datatypes::any_value::AnyValue;
use crate::datatypes::dtype::{DataTypeView, TimeUnit};
use crate::datatypes::field::FieldView;
use crate::error::HostError;
use crate::lazy::options::NullValues;
use vstd::prelude::*;

verus! {

/// The kind of a value of the host language.
#[derive(Copy, Clone, Debug, PartialEq, Eq, Structural)]
pub enum ValueType {
    Undefined,
    Null,
    Boolean,
    Number,
    String,
    Symbol,
    Object,
    Function,
    External,
    BigInt,
    Unknown,
}

impl ValueType {
    /// The name of the kind.
    pub open spec fn text(self) -> Seq<char> {
        match self {
            ValueType::Undefined => "Undefined"@,
            ValueType::Null => "Null"@,
            ValueType::Boolean => "Boolean"@,
            ValueType::Number => "Number"@,
            ValueType::String => "String"@,
            ValueType::Symbol => "Symbol"@,
            ValueType::Object => "Object"@,
            ValueType::Function => "Function"@,
            ValueType::External => "External"@,
            ValueType::BigInt => "BigInt"@,
            ValueType::Unknown => "Unknown"@,
        }
    }

    /// The name of the kind.
    pub fn name(self) -> (r: &'static str)
        ensures
            r@ == self.text(),
    {
        match self {
            ValueType::Undefined => "Undefined",
            ValueType::Null => "Null",
            ValueType::Boolean => "Boolean",
            ValueType::Number => "Number",
            ValueType::String => "String",
            ValueType::Symbol => "Symbol",
            ValueType::Object => "Object",
            ValueType::Function => "Function",
            ValueType::External => "External",
            ValueType::BigInt => "BigInt",
            ValueType::Unknown => "Unknown",
        }
    }
}

/// A value of the host language, as far as the library reads it.
#[derive(Debug, PartialEq)]
pub enum HostValue {
    Undefined,
    Null,
    Boolean(bool),
    /// A number, as the IEEE 754 bit pattern of the double.
    Number(u64),
    String(String),
    /// A big integer, as an unsigned 64-bit integer.
    BigInt(u64),
    /// A date object: milliseconds since the UNIX epoch.
    Date(i64),
    /// An array object and its elements.
    Array(Vec<HostValue>),
    /// Any other object: its own properties, by name.
    Object(Vec<(String, HostValue)>),
    Symbol,
    Function,
    External,
    Unknown,
}

impl HostValue {
    /// The kind of the value.
    pub open spec fn value_type(self) -> ValueType {
        match self {
            HostValue::Undefined => ValueType::Undefined,
            HostValue::Null => ValueType::Null,
            HostValue::Boolean(_) => ValueType::Boolean,
            HostValue::Number(_) => ValueType::Number,
            HostValue::String(_) => ValueType::String,
            HostValue::BigInt(_) => ValueType::BigInt,
            HostValue::Date(_) => ValueType::Object,
            HostValue::Array(_) => ValueType::Object,
            HostValue::Object(_) => ValueType::Object,
            HostValue::Symbol => ValueType::Symbol,
            HostValue::Function => ValueType::Function,
            HostValue::External => ValueType::External,
            HostValue::Unknown => ValueType::Unknown,
        }
    }

    /// The kind of the value.
    pub fn get_type(&self) -> (r: ValueType)
        ensures
            r == self.value_type(),
    {
        match self {
            HostValue::Undefined => ValueType::Undefined,
            HostValue::Null => ValueType::Null,
            HostValue::Boolean(_) => ValueType::Boolean,
            HostValue::Number(_) => ValueType::Number,
            HostValue::String(_) => ValueType::String,
            HostValue::BigInt(_) => ValueType::BigInt,
            HostValue::Date(_) => ValueType::Object,
            HostValue::Array(_) => ValueType::Object,
            HostValue::Object(_) => ValueType::Object,
            HostValue::Symbol => ValueType::Symbol,
            HostValue::Function => ValueType::Function,
            HostValue::External => ValueType::External,
            HostValue::Unknown => ValueType::Unknown,
        }
    }

    /// Whether the value is one that can be read as a dynamically typed
    /// value or is an object: not a symbol, a function, an external value or
    /// a value of unknown kind.
    pub open spec fn is_data(self) -> bool {
        !(self is Symbol || self is Function || self is External || self is Unknown)
    }
}

/// The message for a value that is no array.
pub open spec fn not_an_array_message(vt: ValueType) -> Seq<char> {
    "Invalid cast, unable to cast "@ + vt.text() + " to array"@
}

/// The elements of an array. Any other value is rejected with a message that
/// names its kind.
pub fn array_items(val: &HostValue) -> (r: Result<&Vec<HostValue>, HostError>)
    ensures
        match r {
            Ok(items) => *val == HostValue::Array(*items),
            Err(e) => {
                &&& !(val is Array)
                &&& e matches HostError::Other(m)
                &&& m@ == not_an_array_message(val.value_type())
            },
        },
{
    match val {
        HostValue::Array(items) => Ok(items),
        _ => {
            let mut msg = String::from_str("Invalid cast, unable to cast ");
            msg.append(val.get_type().name());
            msg.append(" to array");
            Err(HostError::Other(msg))
        },
    }
}

/// Converts the elements of an array with `convert`, in order. A value that
/// is no array is rejected; the first element that cannot be converted
/// fails the whole conversion with its error.
pub fn vec_from_host<T, F: Fn(&HostValue) -> Result<T, HostError>>(val: &HostValue, convert: F) -> (r:
    Result<Vec<T>, HostError>)
    requires
        forall|x: &HostValue| convert.requires((x,)),
    ensures
        match *val {
            HostValue::Array(items) => match r {
                Ok(v) => v@.len() == items@.len() && forall|i: int|
                    0 <= i < v@.len() ==> convert.ensures((&#[trigger] items@[i],), Ok(v@[i])),
                Err(e) => exists|k: int|
                    0 <= k < items@.len() && convert.ensures(
                        (&#[trigger] items@[k],),
                        Err::<T, HostError>(e),
                    ),
            },
            _ => r matches Err(HostError::Other(m)) && m@ == not_an_array_message(
                val.value_type(),
            ),
        },
{
    let items = match array_items(val) {
        Ok(items) => items,
        Err(e) => {
            return Err(e);
        },
    };
    let mut arr: Vec<T> = Vec::with_capacity(items.len());
    let mut i: usize = 0;
    while i < items.len()
        invariant
            i <= items@.len(),
            *val == HostValue::Array(*items),
            forall|x: &HostValue| convert.requires((x,)),
            arr@.len() == i,
            forall|j: int| 0 <= j < i ==> convert.ensures((&#[trigger] items@[j],), Ok(arr@[j])),
        decreases items@.len() - i,
    {
        let converted = convert(&items[i]);
        match converted {
            Ok(item) => {
                arr.push(item);
            },
            Err(e) => {
                assert(match *val {
                    HostValue::Array(its) => convert.ensures(
                        (&its@[i as int],),
                        Err::<T, HostError>(e),
                    ),
                    _ => false,
                });
                assert(match *val {
                    HostValue::Array(its) => exists|k: int|
                        0 <= k < its@.len() && convert.ensures(
                            (&#[trigger] its@[k],),
                            Err::<T, HostError>(e),
                        ),
                    _ => false,
                });
                return Err(e);
            },
        }
        i += 1;
    }
    Ok(arr)
}

/// The value, or nothing where the conversion failed: the failure is not
/// handed on.
pub fn option_from_host<T>(converted: Result<T, HostError>) -> (r: Option<T>)
    ensures
        r == match converted {
            Ok(v) => Some(v),
            Err(_) => None::<T>,
        },
{
    match converted {
        Ok(v) => Some(v),
        Err(_) => None,
    }
}

/// Which of the host's numeric kinds an integer is read from.
#[derive(Copy, Clone, Debug, PartialEq, Eq, Structural)]
pub enum IntegerSource {
    BigInt,
    Number,
}

/// Decides how a 64-bit integer is read from a value of the given kind: from
/// a big integer or from a number. Any other kind is rejected.
pub fn integer_source(vt: ValueType) -> (r: Result<IntegerSource, HostError>)
    ensures
        match r {
            Ok(s) => if vt is BigInt {
                s is BigInt
            } else {
                vt is Number && s is Number
            },
            Err(e) => {
                &&& !(vt is BigInt)
                &&& !(vt is Number)
                &&& e matches HostError::Other(m)
                &&& m@ == "cannot cast "@ + vt.text() + " to u64"@
            },
        },
{
    match vt {
        ValueType::BigInt => Ok(IntegerSource::BigInt),
        ValueType::Number => Ok(IntegerSource::Number),
        dt => {
            let mut msg = String::from_str("cannot cast ");
            msg.append(dt.name());
            msg.append(" to u64");
            Err(HostError::Other(msg))
        },
    }
}

/// Whether `r` is what the host value means as a dynamically typed value.
///
/// Undefined and null are null; a boolean, a number and a big integer carry
/// over as `Boolean`, `Float64` and `UInt64`; a string is borrowed; a date is
/// a datetime in milliseconds without time zone. Any other object has no
/// meaning.
pub open spec fn is_any_value_of(val: HostValue, r: Result<AnyValue, HostError>) -> bool {
    match val {
        HostValue::Undefined => r matches Ok(AnyValue::Null),
        HostValue::Null => r matches Ok(AnyValue::Null),
        HostValue::Boolean(b) => r matches Ok(AnyValue::Boolean(x)) && x == b,
        HostValue::Number(bits) => r matches Ok(AnyValue::Float64(x)) && x == bits,
        HostValue::String(s) => r matches Ok(AnyValue::Utf8(t)) && t@ == s@,
        HostValue::BigInt(v) => r matches Ok(AnyValue::UInt64(x)) && x == v,
        HostValue::Date(d) => r matches Ok(AnyValue::Datetime(x, tu, tz)) && x == d
            && tu is Milliseconds && *tz is None,
        _ => r matches Err(HostError::Other(m)) && m@ == "Unsupported Data type"@,
    }
}

/// Reads a host value as a dynamically typed value.
pub fn any_value_from_host<'a>(val: &'a HostValue) -> (r: Result<AnyValue<'a>, HostError>)
    requires
        val.is_data(),
    ensures
        is_any_value_of(*val, r),
{
    match val {
        HostValue::Undefined => Ok(AnyValue::Null),
        HostValue::Null => Ok(AnyValue::Null),
        HostValue::Boolean(b) => Ok(AnyValue::Boolean(*b)),
        HostValue::Number(bits) => Ok(AnyValue::Float64(*bits)),
        HostValue::String(s) => Ok(AnyValue::Utf8(s.as_str())),
        HostValue::BigInt(v) => Ok(AnyValue::UInt64(*v)),
        HostValue::Date(d) => Ok(AnyValue::Datetime(*d, TimeUnit::Milliseconds, &None)),
        _ => Err(HostError::Other(String::from_str("Unsupported Data type"))),
    }
}

/// The elements of a column of strings read from the elements of an array:
/// a string carries over, anything else is null.
pub open spec fn utf8_elements(items: Seq<HostValue>) -> Seq<Option<Seq<char>>> {
    Seq::new(
        items.len(),
        |i: int|
            match items[i] {
                HostValue::String(s) => Some(s@),
                _ => None,
            },
    )
}

/// The strings of the elements of a column of strings.
pub open spec fn utf8_view(values: Seq<Option<Scalar>>) -> Seq<Option<Seq<char>>> {
    Seq::new(
        values.len(),
        |i: int|
            match values[i] {
                Some(Scalar::Utf8(s)) => Some(s@),
                _ => None,
            },
    )
}

/// Reads an array as a column of strings without a name, in one chunk. An
/// element that is no string becomes null. A value that is no array is
/// rejected.
pub fn utf8_chunked_from_host(val: &HostValue) -> (r: Result<Utf8Chunked, HostError>)
    ensures
        match (*val, r) {
            (HostValue::Array(items), Ok(ca)) => utf8_view(ca@) == utf8_elements(items@)
                && ca.spec_chunks().len() == 1 && ca.spec_field() == (FieldView {
                name: ""@,
                data_type: DataTypeView::Utf8,
            }),
            (HostValue::Array(_), Err(_)) => false,
            (_, Ok(_)) => false,
            (_, Err(e)) => e matches HostError::Other(m) && m@ == "incorrect value type"@,
        },
{
    match val {
        HostValue::Array(items) => {
            let mut chunk: Chunk = Vec::with_capacity(items.len());
            let mut i: usize = 0;
            while i < items.len()
                invariant
                    i <= items@.len(),
                    chunk@.len() == i,
                    forall|j: int|
                        0 <= j < i ==> match items@[j] {
                            HostValue::String(s) => (#[trigger] chunk@[j]) matches Some(
                                Scalar::Utf8(t),
                            ) && t@ == s@,
                            _ => chunk@[j] is None,
                        },
                decreases items@.len() - i,
            {
                match &items[i] {
                    HostValue::String(s) => chunk.push(Some(Scalar::Utf8(s.clone()))),
                    _ => chunk.push(None),
                }
                i += 1;
            }
            let ca = Utf8Chunked::new_from_chunk("", chunk);
            assert(utf8_view(ca@) =~= utf8_elements(items@));
            Ok(ca)
        },
        _ => Err(HostError::Other(String::from_str("incorrect value type"))),
    }
}

/// Whether every element is a string.
pub open spec fn all_strings(items: Seq<HostValue>) -> bool {
    forall|i: int| 0 <= i < items.len() ==> (#[trigger] items[i]) is String
}

/// Whether the value of every property is a string.
pub open spec fn all_string_values(props: Seq<(String, HostValue)>) -> bool {
    forall|i: int| 0 <= i < props.len() ==> (#[trigger] props[i]).1 is String
}

/// Whether a host value can be read as the null values of a CSV file: the
/// elements of an array and the values of the properties of an object must
/// be strings.
pub open spec fn null_values_readable(val: HostValue) -> bool {
    match val {
        HostValue::Array(items) => all_strings(items@),
        HostValue::Object(props) => all_string_values(props@),
        _ => true,
    }
}

/// Whether `r` is what the host value means as the null values of a CSV
/// file: a string stands for all columns, an array of strings for the
/// columns in order, and an object for the columns that its properties
/// name. A date has no properties. Any other value is rejected.
pub open spec fn is_null_values_of(val: HostValue, r: Result<NullValues, HostError>) -> bool {
    match val {
        HostValue::String(s) => r matches Ok(NullValues::AllColumns(t)) && t@ == s@,
        HostValue::Array(items) => r matches Ok(NullValues::Columns(cols)) && cols@.len()
            == items@.len() && forall|i: int|
            0 <= i < cols@.len() ==> (#[trigger] cols@[i])@ == items@[i]->String_0@,
        HostValue::Object(props) => r matches Ok(NullValues::Named(cols)) && cols@.len()
            == props@.len() && forall|i: int|
            0 <= i < cols@.len() ==> (#[trigger] cols@[i]).0@ == props@[i].0@ && cols@[i].1@
                == props@[i].1->String_0@,
        HostValue::Date(_) => r matches Ok(NullValues::Named(cols)) && cols@.len() == 0,
        _ => r matches Err(HostError::Other(m)) && m@
            == "could not extract value from null_values argument"@,
    }
}

/// Reads a host value as the null values of a CSV file.
pub fn null_values_from_host(val: &HostValue) -> (r: Result<NullValues, HostError>)
    requires
        null_values_readable(*val),
    ensures
        is_null_values_of(*val, r),
{
    match val {
        HostValue::String(s) => Ok(NullValues::AllColumns(s.clone())),
        HostValue::Array(items) => {
            let mut cols: Vec<String> = Vec::new();
            let mut i: usize = 0;
            while i < items.len()
                invariant
                    i <= items@.len(),
                    all_strings(items@),
                    cols@.len() == i,
                    forall|j: int|
                        0 <= j < i ==> (#[trigger] cols@[j])@ == items@[j]->String_0@,
                decreases items@.len() - i,
            {
                match &items[i] {
                    HostValue::String(s) => cols.push(s.clone()),
                    _ => {
                        assert(false);
                    },
                }
                i += 1;
            }
            Ok(NullValues::Columns(cols))
        },
        HostValue::Object(props) => {
            let mut cols: Vec<(String, String)> = Vec::new();
            let mut i: usize = 0;
            while i < props.len()
                invariant
                    i <= props@.len(),
                    all_string_values(props@),
                    cols@.len() == i,
                    forall|j: int|
                        0 <= j < i ==> (#[trigger] cols@[j]).0@ == props@[j].0@ && cols@[j].1@
                            == props@[j].1->String_0@,
                decreases props@.len() - i,
            {
                let prop = &props[i];
                match &prop.1 {
                    HostValue::String(s) => cols.push((prop.0.clone(), s.clone())),
                    _ => {
                        assert(false);
                    },
                }
                i += 1;
            }
            Ok(NullValues::Named(cols))
        },
        HostValue::Date(_) => Ok(NullValues::Named(Vec::new())),
        _ => Err(
            HostError::Other(
                String::from_str("could not extract value from null_values argument"),
            ),
        ),
    }
}

} // verus!
