//! The data types of the results of expressions.

use crate::datatypes::dtype::{DataType, DataTypeView};
use crate::datatypes::field::{field_names, fields_view, Field, FieldView};
use crate::datatypes::schema::{not_found_message, position, Schema};
use crate::error::{PolarsError, Result};
use crate::lazy::dsl::{AggKind, Expr, Operator};
use vstd::prelude::*;

verus! {

/// The setting in which an expression is evaluated.
#[derive(Copy, Clone, Debug, PartialEq, Eq, Hash, Structural)]
pub enum Context {
    /// Once per group of rows.
    Aggregation,
    /// Once for the whole frame.
    Default,
}

/// What is known of a numeric type: whether it is a floating-point type,
/// whether it is signed, and its width in bits.
pub struct NumericKind {
    pub float: bool,
    pub signed: bool,
    pub bits: u8,
}

impl DataTypeView {
    /// The kind of a numeric type.
    pub open spec fn numeric_kind(self) -> Option<NumericKind> {
        match self {
            DataTypeView::UInt8 => Some(NumericKind { float: false, signed: false, bits: 8 }),
            DataTypeView::UInt16 => Some(NumericKind { float: false, signed: false, bits: 16 }),
            DataTypeView::UInt32 => Some(NumericKind { float: false, signed: false, bits: 32 }),
            DataTypeView::UInt64 => Some(NumericKind { float: false, signed: false, bits: 64 }),
            DataTypeView::Int8 => Some(NumericKind { float: false, signed: true, bits: 8 }),
            DataTypeView::Int16 => Some(NumericKind { float: false, signed: true, bits: 16 }),
            DataTypeView::Int32 => Some(NumericKind { float: false, signed: true, bits: 32 }),
            DataTypeView::Int64 => Some(NumericKind { float: false, signed: true, bits: 64 }),
            DataTypeView::Float32 => Some(NumericKind { float: true, signed: true, bits: 32 }),
            DataTypeView::Float64 => Some(NumericKind { float: true, signed: true, bits: 64 }),
            _ => None,
        }
    }
}

/// The signed integer type of the given width.
pub open spec fn signed_of(bits: u8) -> DataTypeView {
    if bits <= 8 {
        DataTypeView::Int8
    } else if bits <= 16 {
        DataTypeView::Int16
    } else if bits <= 32 {
        DataTypeView::Int32
    } else {
        DataTypeView::Int64
    }
}

/// The unsigned integer type of the given width.
pub open spec fn unsigned_of(bits: u8) -> DataTypeView {
    if bits <= 8 {
        DataTypeView::UInt8
    } else if bits <= 16 {
        DataTypeView::UInt16
    } else if bits <= 32 {
        DataTypeView::UInt32
    } else {
        DataTypeView::UInt64
    }
}

/// The smallest numeric type that holds the values of both numeric types.
///
/// Two integers of one signedness give the wider of the two. A signed and an
/// unsigned integer give the signed type if it is the wider one, and else
/// the signed type of twice the width of the unsigned one, or `Float64`
/// where there is none. Two floating-point types give the wider one. An
/// integer and a floating-point type give the floating-point type if the
/// integer has at most 16 bits, and else `Float64`.
pub open spec fn numeric_supertype(l: NumericKind, r: NumericKind) -> DataTypeView {
    let wider = if l.bits >= r.bits {
        l.bits
    } else {
        r.bits
    };
    if l.float && r.float {
        if wider > 32 {
            DataTypeView::Float64
        } else {
            DataTypeView::Float32
        }
    } else if l.float || r.float {
        let (int_bits, float_bits) = if l.float {
            (r.bits, l.bits)
        } else {
            (l.bits, r.bits)
        };
        if int_bits <= 16 && float_bits <= 32 {
            DataTypeView::Float32
        } else {
            DataTypeView::Float64
        }
    } else if l.signed == r.signed {
        if l.signed {
            signed_of(wider)
        } else {
            unsigned_of(wider)
        }
    } else {
        let (signed_bits, unsigned_bits) = if l.signed {
            (l.bits, r.bits)
        } else {
            (r.bits, l.bits)
        };
        if signed_bits > unsigned_bits {
            signed_of(signed_bits)
        } else if unsigned_bits <= 8 {
            DataTypeView::Int16
        } else if unsigned_bits <= 16 {
            DataTypeView::Int32
        } else if unsigned_bits <= 32 {
            DataTypeView::Int64
        } else {
            DataTypeView::Float64
        }
    }
}

/// The type to which values of both types can be brought, if there is one:
/// the type itself for two equal types, the other type where one is `Null`,
/// and the numeric supertype of two numeric types.
pub open spec fn supertype(l: DataTypeView, r: DataTypeView) -> Option<DataTypeView> {
    if l == r {
        Some(l)
    } else if l is Null {
        Some(r)
    } else if r is Null {
        Some(l)
    } else {
        match (l.numeric_kind(), r.numeric_kind()) {
            (Some(a), Some(b)) => Some(numeric_supertype(a, b)),
            _ => None,
        }
    }
}

/// Whether the operator gives a boolean for operands of any type.
pub open spec fn is_predicate(op: Operator) -> bool {
    op is Lt || op is Gt || op is Eq || op is NotEq || op is And || op is LtEq || op is GtEq
        || op is Or
}

/// The type of the aggregate of values of the type `dt`.
///
/// The minimum, the maximum, the first and the last value have the type of
/// the values. A sum of booleans is counted in `UInt32`; once per group, a
/// sum of integers narrower than 64 bits is widened to 64 bits; any other
/// sum has the type of the values. The mean is a `Float64`. Counts are
/// `UInt32`. The list of the values is a list of their type.
pub open spec fn agg_dtype(kind: AggKind, dt: DataTypeView, ctxt: Context) -> DataTypeView {
    match kind {
        AggKind::Min => dt,
        AggKind::Max => dt,
        AggKind::First => dt,
        AggKind::Last => dt,
        AggKind::Sum => if dt is Boolean {
            DataTypeView::UInt32
        } else if ctxt is Aggregation && (dt is Int8 || dt is Int16 || dt is Int32) {
            DataTypeView::Int64
        } else if ctxt is Aggregation && (dt is UInt8 || dt is UInt16 || dt is UInt32) {
            DataTypeView::UInt64
        } else {
            dt
        },
        AggKind::Mean => DataTypeView::Float64,
        AggKind::Count => DataTypeView::UInt32,
        AggKind::NUnique => DataTypeView::UInt32,
        AggKind::List => DataTypeView::List(Box::new(dt)),
    }
}

/// The outcome of deriving the field of an expression's result.
pub enum Typing {
    /// The name and the data type of the result.
    Field(FieldView),
    /// The expression names a column that the schema does not have.
    MissingColumn(Seq<char>),
    /// The operands of an arithmetic operator have no common type.
    NoSupertype,
}

impl Expr {
    /// The field of the result of the expression on a frame with the given
    /// schema, or the first reason why there is none.
    ///
    /// A column has its field in the schema. A constant is named `literal`.
    /// An alias renames. A binary expression is named as its left operand;
    /// it is boolean for a comparison or a logical operator and has the
    /// supertype of its operands for an arithmetic operator. The tests
    /// `not`, `is_null`, `is_not_null` and `is_nan` are boolean and named
    /// after themselves. A cast and an aggregation keep the name. A
    /// conditional has the field of its first value.
    pub open spec fn typing(self, schema: Seq<FieldView>, ctxt: Context) -> Typing
        decreases self,
    {
        match self {
            Expr::Alias(e, name) => match e.typing(schema, ctxt) {
                Typing::Field(f) => Typing::Field(
                    FieldView { name: name@, data_type: f.data_type },
                ),
                other => other,
            },
            Expr::Column(name) => match position(field_names(schema), name@) {
                Some(i) => Typing::Field(schema[i]),
                None => Typing::MissingColumn(name@),
            },
            Expr::Literal(v) => Typing::Field(
                FieldView { name: "literal"@, data_type: v.dtype()@ },
            ),
            Expr::BinaryExpr { left, op, right } => match left.typing(schema, ctxt) {
                Typing::Field(l) => match right.typing(schema, ctxt) {
                    Typing::Field(r) => if is_predicate(op) {
                        Typing::Field(FieldView { name: l.name, data_type: DataTypeView::Boolean })
                    } else {
                        match supertype(l.data_type, r.data_type) {
                            Some(t) => Typing::Field(FieldView { name: l.name, data_type: t }),
                            None => Typing::NoSupertype,
                        }
                    },
                    other => other,
                },
                other => other,
            },
            Expr::Not(_) => Typing::Field(
                FieldView { name: "not"@, data_type: DataTypeView::Boolean },
            ),
            Expr::IsNotNull(_) => Typing::Field(
                FieldView { name: "is_not_null"@, data_type: DataTypeView::Boolean },
            ),
            Expr::IsNull(_) => Typing::Field(
                FieldView { name: "is_null"@, data_type: DataTypeView::Boolean },
            ),
            Expr::IsNan(_) => Typing::Field(
                FieldView { name: "is_nan"@, data_type: DataTypeView::Boolean },
            ),
            Expr::Cast { expr, data_type } => match expr.typing(schema, ctxt) {
                Typing::Field(f) => Typing::Field(
                    FieldView { name: f.name, data_type: data_type@ },
                ),
                other => other,
            },
            Expr::Agg(kind, e) => match e.typing(schema, ctxt) {
                Typing::Field(f) => Typing::Field(
                    FieldView { name: f.name, data_type: agg_dtype(kind, f.data_type, ctxt) },
                ),
                other => other,
            },
            Expr::Ternary { predicate, truthy, falsy } => truthy.typing(schema, ctxt),
            Expr::Wildcard => Typing::MissingColumn("*"@),
        }
    }
}

/// Whether `r` reports the outcome `t`: the field, or the error for a
/// missing column with the names of the schema, or the error for operands
/// without a common type.
pub open spec fn reports(r: Result<Field>, t: Typing, schema: Seq<FieldView>) -> bool {
    match r {
        Ok(f) => t == Typing::Field(f@),
        Err(PolarsError::NotFound(m)) => t matches Typing::MissingColumn(name) && m@
            == not_found_message(name, field_names(schema)),
        Err(PolarsError::ComputeError(m)) => t is NoSupertype && m@
            == "Failed to determine supertype"@,
        Err(_) => false,
    }
}

/// Whether every expression has a field on a frame with the given schema.
pub open spec fn all_typed(exprs: Seq<Expr>, schema: Seq<FieldView>, ctxt: Context) -> bool {
    forall|i: int| 0 <= i < exprs.len() ==> (#[trigger] exprs[i]).typing(schema, ctxt) is Field
}

/// The fields of the results of the expressions, in order.
pub open spec fn typed_fields(exprs: Seq<Expr>, schema: Seq<FieldView>, ctxt: Context) -> Seq<
    FieldView,
> {
    Seq::new(exprs.len(), |i: int| exprs[i].typing(schema, ctxt)->Field_0)
}

/// Whether `k` is the first expression without a field.
pub open spec fn is_first_untyped(
    exprs: Seq<Expr>,
    schema: Seq<FieldView>,
    ctxt: Context,
    k: int,
) -> bool {
    &&& 0 <= k < exprs.len()
    &&& !(exprs[k].typing(schema, ctxt) is Field)
    &&& forall|j: int| 0 <= j < k ==> (#[trigger] exprs[j]).typing(schema, ctxt) is Field
}

/// What is known of a numeric type.
fn numeric_kind_of(dt: &DataType) -> (r: Option<NumericKind>)
    ensures
        r == dt@.numeric_kind(),
{
    match dt {
        DataType::UInt8 => Some(NumericKind { float: false, signed: false, bits: 8 }),
        DataType::UInt16 => Some(NumericKind { float: false, signed: false, bits: 16 }),
        DataType::UInt32 => Some(NumericKind { float: false, signed: false, bits: 32 }),
        DataType::UInt64 => Some(NumericKind { float: false, signed: false, bits: 64 }),
        DataType::Int8 => Some(NumericKind { float: false, signed: true, bits: 8 }),
        DataType::Int16 => Some(NumericKind { float: false, signed: true, bits: 16 }),
        DataType::Int32 => Some(NumericKind { float: false, signed: true, bits: 32 }),
        DataType::Int64 => Some(NumericKind { float: false, signed: true, bits: 64 }),
        DataType::Float32 => Some(NumericKind { float: true, signed: true, bits: 32 }),
        DataType::Float64 => Some(NumericKind { float: true, signed: true, bits: 64 }),
        _ => None,
    }
}

fn signed_type(bits: u8) -> (r: DataType)
    ensures
        r@ == signed_of(bits),
{
    if bits <= 8 {
        DataType::Int8
    } else if bits <= 16 {
        DataType::Int16
    } else if bits <= 32 {
        DataType::Int32
    } else {
        DataType::Int64
    }
}

fn unsigned_type(bits: u8) -> (r: DataType)
    ensures
        r@ == unsigned_of(bits),
{
    if bits <= 8 {
        DataType::UInt8
    } else if bits <= 16 {
        DataType::UInt16
    } else if bits <= 32 {
        DataType::UInt32
    } else {
        DataType::UInt64
    }
}

fn numeric_supertype_of(l: NumericKind, r: NumericKind) -> (t: DataType)
    ensures
        t@ == numeric_supertype(l, r),
{
    let wider = if l.bits >= r.bits {
        l.bits
    } else {
        r.bits
    };
    if l.float && r.float {
        if wider > 32 {
            DataType::Float64
        } else {
            DataType::Float32
        }
    } else if l.float || r.float {
        let (int_bits, float_bits) = if l.float {
            (r.bits, l.bits)
        } else {
            (l.bits, r.bits)
        };
        if int_bits <= 16 && float_bits <= 32 {
            DataType::Float32
        } else {
            DataType::Float64
        }
    } else if l.signed == r.signed {
        if l.signed {
            signed_type(wider)
        } else {
            unsigned_type(wider)
        }
    } else {
        let (signed_bits, unsigned_bits) = if l.signed {
            (l.bits, r.bits)
        } else {
            (r.bits, l.bits)
        };
        if signed_bits > unsigned_bits {
            signed_type(signed_bits)
        } else if unsigned_bits <= 8 {
            DataType::Int16
        } else if unsigned_bits <= 16 {
            DataType::Int32
        } else if unsigned_bits <= 32 {
            DataType::Int64
        } else {
            DataType::Float64
        }
    }
}

/// The type to which values of both types can be brought.
pub fn get_supertype(l: &DataType, r: &DataType) -> (t: Result<DataType>)
    ensures
        match t {
            Ok(dt) => supertype(l@, r@) == Some(dt@),
            Err(e) => {
                &&& supertype(l@, r@) is None
                &&& e matches PolarsError::ComputeError(m)
                &&& m@ == "Failed to determine supertype"@
            },
        },
{
    if l.same_as(r) {
        Ok(l.clone())
    } else if let DataType::Null = l {
        Ok(r.clone())
    } else if let DataType::Null = r {
        Ok(l.clone())
    } else {
        match (numeric_kind_of(l), numeric_kind_of(r)) {
            (Some(a), Some(b)) => Ok(numeric_supertype_of(a, b)),
            _ => Err(PolarsError::ComputeError(String::from_str("Failed to determine supertype"))),
        }
    }
}

/// Whether the operator gives a boolean for operands of any type.
fn op_is_predicate(op: Operator) -> (r: bool)
    ensures
        r == is_predicate(op),
{
    match op {
        Operator::Lt => true,
        Operator::Gt => true,
        Operator::Eq => true,
        Operator::NotEq => true,
        Operator::And => true,
        Operator::LtEq => true,
        Operator::GtEq => true,
        Operator::Or => true,
        _ => false,
    }
}

/// The type of the aggregate of values of the type `dt`.
fn agg_dtype_of(kind: AggKind, dt: &DataType, ctxt: Context) -> (r: DataType)
    ensures
        r@ == agg_dtype(kind, dt@, ctxt),
{
    let grouped = match ctxt {
        Context::Aggregation => true,
        Context::Default => false,
    };
    match kind {
        AggKind::Min => dt.clone(),
        AggKind::Max => dt.clone(),
        AggKind::First => dt.clone(),
        AggKind::Last => dt.clone(),
        AggKind::Sum => match dt {
            DataType::Boolean => DataType::UInt32,
            DataType::Int8 => if grouped {
                DataType::Int64
            } else {
                DataType::Int8
            },
            DataType::Int16 => if grouped {
                DataType::Int64
            } else {
                DataType::Int16
            },
            DataType::Int32 => if grouped {
                DataType::Int64
            } else {
                DataType::Int32
            },
            DataType::UInt8 => if grouped {
                DataType::UInt64
            } else {
                DataType::UInt8
            },
            DataType::UInt16 => if grouped {
                DataType::UInt64
            } else {
                DataType::UInt16
            },
            DataType::UInt32 => if grouped {
                DataType::UInt64
            } else {
                DataType::UInt32
            },
            _ => dt.clone(),
        },
        AggKind::Mean => DataType::Float64,
        AggKind::Count => DataType::UInt32,
        AggKind::NUnique => DataType::UInt32,
        AggKind::List => DataType::List(Box::new(dt.clone())),
    }
}

impl Expr {
    /// Get Field result of the expression. The schema is the input data.
    pub fn to_field(&self, schema: &Schema, ctxt: Context) -> (r: Result<Field>)
        requires
            !self.contains_wildcard(),
        ensures
            reports(r, self.typing(schema@, ctxt), schema@),
        decreases self,
    {
        match self {
            Expr::Alias(e, name) => {
                let f = (&**e).to_field(schema, ctxt)?;
                Ok(Field::new(name.as_str(), f.data_type().clone()))
            },
            Expr::Column(name) => {
                let f = schema.field_with_name(name.as_str())?;
                Ok(f.clone())
            },
            Expr::Literal(v) => Ok(Field::new("literal", v.get_datatype())),
            Expr::BinaryExpr { left, op, right } => {
                let l = (&**left).to_field(schema, ctxt)?;
                let r = (&**right).to_field(schema, ctxt)?;
                if op_is_predicate(*op) {
                    Ok(Field::new(l.name().as_str(), DataType::Boolean))
                } else {
                    let t = get_supertype(l.data_type(), r.data_type())?;
                    Ok(Field::new(l.name().as_str(), t))
                }
            },
            Expr::Not(_) => Ok(Field::new("not", DataType::Boolean)),
            Expr::IsNotNull(_) => Ok(Field::new("is_not_null", DataType::Boolean)),
            Expr::IsNull(_) => Ok(Field::new("is_null", DataType::Boolean)),
            Expr::IsNan(_) => Ok(Field::new("is_nan", DataType::Boolean)),
            Expr::Cast { expr, data_type } => {
                let f = (&**expr).to_field(schema, ctxt)?;
                Ok(Field::new(f.name().as_str(), data_type.clone()))
            },
            Expr::Agg(kind, e) => {
                let f = (&**e).to_field(schema, ctxt)?;
                Ok(Field::new(f.name().as_str(), agg_dtype_of(*kind, f.data_type(), ctxt)))
            },
            Expr::Ternary { predicate, truthy, falsy } => (&**truthy).to_field(schema, ctxt),
            Expr::Wildcard => Err(PolarsError::NotFound(String::new())),
        }
    }
}

/// The schema of the results of the expressions: their fields, in order, or
/// the error of the first expression that has no field.
pub fn expressions_to_schema(exprs: &Vec<Expr>, schema: &Schema, ctxt: Context) -> (r: Result<
    Schema,
>)
    requires
        forall|i: int| 0 <= i < exprs@.len() ==> !(#[trigger] exprs@[i]).contains_wildcard(),
    ensures
        match r {
            Ok(s) => all_typed(exprs@, schema@, ctxt) && s@ == typed_fields(exprs@, schema@, ctxt),
            Err(e) => exists|k: int|
                is_first_untyped(exprs@, schema@, ctxt, k) && reports(
                    Err(e),
                    (#[trigger] exprs@[k]).typing(schema@, ctxt),
                    schema@,
                ),
        },
{
    let n = exprs.len();
    let mut fields: Vec<Field> = Vec::new();
    let mut i: usize = 0;
    while i < n
        invariant
            i <= n,
            n == exprs@.len(),
            forall|j: int| 0 <= j < exprs@.len() ==> !(#[trigger] exprs@[j]).contains_wildcard(),
            fields@.len() == i,
            forall|j: int|
                0 <= j < i ==> (#[trigger] exprs@[j]).typing(schema@, ctxt) == Typing::Field(
                    fields@[j]@,
                ),
        decreases n - i,
    {
        match exprs[i].to_field(schema, ctxt) {
            Ok(f) => {
                fields.push(f);
            },
            Err(e) => {
                assert(is_first_untyped(exprs@, schema@, ctxt, i as int));
                return Err(e);
            },
        }
        i += 1;
    }
    assert(fields_view(fields@) =~= typed_fields(exprs@, schema@, ctxt));
    Ok(Schema::new(fields))
}

} // verus!
