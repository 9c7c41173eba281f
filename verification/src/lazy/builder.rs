//! Construction of logical plans, one node at a time. The schema of each new
//! node is derived when the node is made.

use crate::datatypes::dtype::{DataType, DataTypeView};
use crate::datatypes::field::{field_names, fields_view, names_of, Field, FieldView};
use crate::datatypes::schema::{
    has_name, lemma_position, merge_schemas, position, strings_view, Schema,
};
use crate::error::{PolarsError, Result};
use crate::lazy::dsl::{combine_predicates_expr, conjunction, Expr};
use crate::lazy::name_set::{name_set_contains, name_set_contents, name_set_insert, name_set_new};
use crate::lazy::options::{
    AllowedOptimizations, CsvEncoding, CsvParserOptions, DistinctOptions, DynamicGroupOptions,
    GroupbyOptions, JoinOptions, LogicalPlanUdfOptions, LpScanOptions, NullValues,
    ParquetOptions, RollingGroupOptions, RowCount,
};
use crate::lazy::plan::{series_fields, DataFrame, LogicalPlan, SchemaRef, UdfRef};
use crate::lazy::projection::{no_wildcards, rewrite_projections, rewritten};
use crate::lazy::types::{all_typed, expressions_to_schema, typed_fields, Context};
use std::sync::Arc;
use vstd::prelude::*;

verus! {

/// The expressions of a projection after the wildcard has been expanded
/// over the columns `names`.
pub open spec fn projected(exprs: Seq<Expr>, names: Seq<String>) -> Seq<Expr> {
    rewritten(exprs, names, Seq::empty())
}

/// Expands the wildcard in the expressions and derives the schema of their
/// results.
pub fn prepare_projection(exprs: Vec<Expr>, schema: &Schema) -> (r: (Vec<Expr>, Schema))
    requires
        all_typed(projected(exprs@, schema.spec_names()), schema@, Context::Default),
    ensures
        r.0@ == projected(exprs@, schema.spec_names()),
        r.1@ == typed_fields(r.0@, schema@, Context::Default),
        no_wildcards(r.0@),
{
    let keys: Vec<Expr> = Vec::new();
    assert(keys@ =~= Seq::<Expr>::empty());
    let exprs = rewrite_projections(exprs, schema, keys.as_slice());
    match expressions_to_schema(&exprs, schema, Context::Default) {
        Ok(s) => (exprs, s),
        Err(_) => {
            assert(false);
            (exprs, Schema::default())
        },
    }
}

/// The fields without those that have one of the names.
pub open spec fn without_names(fields: Seq<FieldView>, names: Seq<Seq<char>>) -> Seq<FieldView>
    decreases fields.len(),
{
    if fields.len() == 0 {
        Seq::empty()
    } else {
        let prev = without_names(fields.drop_last(), names);
        if names.contains(fields.last().name) {
            prev
        } else {
            prev.push(fields.last())
        }
    }
}

/// The schema of a melted frame: the fields of the input that are not value
/// variables, then `variable`, a string, and `value`, which has the data
/// type of the first value variable.
pub open spec fn melt_fields(fields: Seq<FieldView>, value_vars: Seq<Seq<char>>) -> Seq<FieldView> {
    without_names(fields, value_vars).push(
        FieldView { name: "variable"@, data_type: DataTypeView::Utf8 },
    ).push(
        FieldView {
            name: "value"@,
            data_type: fields[position(field_names(fields), value_vars[0])->0].data_type,
        },
    )
}

/// What is left of the fields without some names: no more fields than
/// before; each of them a field that has none of the names; and each field
/// that has none of the names.
pub proof fn lemma_without_names(fields: Seq<FieldView>, names: Seq<Seq<char>>)
    ensures
        without_names(fields, names).len() <= fields.len(),
        forall|i: int|
            0 <= i < without_names(fields, names).len() ==> fields.contains(
                #[trigger] without_names(fields, names)[i],
            ) && !names.contains(without_names(fields, names)[i].name),
        forall|j: int|
            0 <= j < fields.len() && !names.contains((#[trigger] fields[j]).name)
                ==> without_names(fields, names).contains(fields[j]),
    decreases fields.len(),
{
    let r = without_names(fields, names);
    if fields.len() > 0 {
        let init = fields.drop_last();
        let prev = without_names(init, names);
        lemma_without_names(init, names);
        assert forall|i: int| 0 <= i < r.len() implies fields.contains(#[trigger] r[i])
            && !names.contains(r[i].name) by {
            if i < prev.len() {
                assert(init.contains(prev[i]));
                let j = choose|j: int| 0 <= j < init.len() && init[j] == prev[i];
                assert(fields[j] == r[i]);
            } else {
                assert(fields[fields.len() - 1] == r[i]);
            }
        }
        assert forall|j: int|
            0 <= j < fields.len() && !names.contains((#[trigger] fields[j]).name) implies r.contains(
            fields[j],
        ) by {
            if j < init.len() {
                assert(init[j] == fields[j]);
                assert(prev.contains(init[j]));
                let i = choose|i: int| 0 <= i < prev.len() && prev[i] == init[j];
                assert(r[i] == fields[j]);
            } else {
                assert(r[r.len() - 1] == fields[j]);
            }
        }
    }
}

/// Adding columns keeps the names of the columns that the frame had, each
/// in its place.
pub proof fn lemma_stacked_names(base: Seq<FieldView>, added: Seq<FieldView>, i: int)
    requires
        0 <= i < base.len(),
    ensures
        stacked_fields(base, added).len() >= base.len(),
        stacked_fields(base, added)[i].name == base[i].name,
    decreases added.len(),
{
    if added.len() > 0 {
        lemma_stacked_names(base, added.drop_last(), i);
        lemma_position(field_names(base), added.last().name);
        match position(field_names(base), added.last().name) {
            Some(p) => {
                assert(field_names(base)[p] == base[p].name);
            },
            None => {},
        }
    }
}

/// What the columns of a frame are after columns have been added: no fewer
/// than before; a column of the frame stays as it is unless its name is that
/// of an added column; and every added column is among them.
pub proof fn lemma_stacked_fields(base: Seq<FieldView>, added: Seq<FieldView>)
    ensures
        stacked_fields(base, added).len() >= base.len(),
        forall|i: int|
            0 <= i < base.len() && !has_name(added, (#[trigger] base[i]).name) ==> stacked_fields(
                base,
                added,
            )[i] == base[i],
        forall|k: int|
            0 <= k < added.len() ==> has_name(stacked_fields(base, added), (#[trigger] added[k]).name),
    decreases added.len(),
{
    let r = stacked_fields(base, added);
    if added.len() > 0 {
        let init = added.drop_last();
        let last = added.last();
        let prev = stacked_fields(base, init);
        lemma_stacked_fields(base, init);
        lemma_position(field_names(base), last.name);
        assert forall|i: int|
            0 <= i < base.len() && !has_name(added, (#[trigger] base[i]).name) implies r[i]
            == base[i] by {
            if has_name(init, base[i].name) {
                let k = choose|k: int| 0 <= k < init.len() && #[trigger] init[k].name == base[i].name;
                assert(added[k].name == base[i].name);
            }
            assert(added[added.len() - 1].name != base[i].name);
            assert(field_names(base)[i] == base[i].name);
        }
        assert forall|k: int| 0 <= k < added.len() implies has_name(
            r,
            (#[trigger] added[k]).name,
        ) by {
            if k < init.len() {
                assert(init[k] == added[k]);
                let i = choose|i: int|
                    0 <= i < prev.len() && #[trigger] prev[i].name == added[k].name;
                if i < base.len() {
                    // a column of the frame keeps its name when it is replaced
                    lemma_stacked_names(base, init, i);
                    lemma_stacked_names(base, added, i);
                }
                assert(r[i].name == added[k].name);
            } else {
                match position(field_names(base), last.name) {
                    Some(p) => {
                        assert(r[p].name == last.name);
                    },
                    None => {
                        assert(r[r.len() - 1].name == last.name);
                    },
                }
            }
        }
    }
}

/// Whether `names` holds `name`.
fn names_contain(names: &[String], name: &String) -> (r: bool)
    ensures
        r == strings_view(names@).contains(name@),
{
    let mut i: usize = 0;
    while i < names.len()
        invariant
            i <= names@.len(),
            forall|j: int| 0 <= j < i ==> strings_view(names@)[j] != name@,
        decreases names@.len() - i,
    {
        if names[i] == *name {
            assert(strings_view(names@)[i as int] == name@);
            return true;
        }
        i += 1;
    }
    false
}

/// Derives the schema of a melted frame. The value column takes the data
/// type of the first value variable; the other value variables are not
/// looked at.
pub fn det_melt_schema(value_vars: &[String], input_schema: &Schema) -> (r: SchemaRef)
    requires
        value_vars@.len() > 0,
        position(field_names(input_schema@), value_vars@[0]@) is Some,
    ensures
        r@ == melt_fields(input_schema@, strings_view(value_vars@)),
{
    let in_fields = input_schema.fields();
    let n = in_fields.len();
    let ghost all = input_schema@;
    let ghost vars = strings_view(value_vars@);
    let mut fields: Vec<Field> = Vec::new();
    let mut i: usize = 0;
    assert(all.take(0) =~= Seq::<FieldView>::empty());
    while i < n
        invariant
            i <= n,
            n == in_fields@.len(),
            all == input_schema@,
            fields_view(in_fields@) == all,
            vars == strings_view(value_vars@),
            fields_view(fields@) == without_names(all.take(i as int), vars),
        decreases n - i,
    {
        let field = &in_fields[i];
        assert(all.take(i + 1).drop_last() =~= all.take(i as int));
        assert(all.take(i + 1).last() == field@);
        if !names_contain(value_vars, field.name()) {
            let ghost before = fields_view(fields@);
            fields.push(field.clone());
            assert(fields_view(fields@) =~= before.push(field@));
        }
        i += 1;
    }
    assert(all.take(n as int) =~= all);
    let value_dtype = match input_schema.field_with_name(value_vars[0].as_str()) {
        Ok(f) => f.data_type().clone(),
        Err(_) => {
            assert(false);
            DataType::Null
        },
    };
    let ghost kept = fields_view(fields@);
    fields.push(Field::new("variable", DataType::Utf8));
    fields.push(Field::new("value", value_dtype));
    assert(fields_view(fields@) =~= melt_fields(all, vars));
    Arc::new(Schema::new(fields))
}

/// Whether `name` is the name under which one of the join keys of the right
/// frame is known.
pub open spec fn is_right_key(right_on: Seq<Expr>, name: Seq<char>) -> bool {
    exists|k: int|
        0 <= k < right_on.len() && (#[trigger] right_on[k]).output_name() is Some
            && right_on[k].output_name()->0@ == name
}

/// The schema of a join: the fields of the left frame, then those fields of
/// the right frame that are not join keys, in order. A field of the right
/// frame whose name the left frame has too gets the suffix appended to its
/// name.
pub open spec fn join_fields(
    left: Seq<FieldView>,
    right: Seq<FieldView>,
    right_on: Seq<Expr>,
    suffix: Seq<char>,
) -> Seq<FieldView>
    decreases right.len(),
{
    if right.len() == 0 {
        left
    } else {
        let prev = join_fields(left, right.drop_last(), right_on, suffix);
        let f = right.last();
        if is_right_key(right_on, f.name) {
            prev
        } else if has_name(left, f.name) {
            prev.push(FieldView { name: f.name + suffix, data_type: f.data_type })
        } else {
            prev.push(f)
        }
    }
}

/// What the schema of a join holds: the fields of the left frame stay in
/// front, as they are; each field behind them is a field of the right frame
/// that is no join key, with its data type, under its name or, if the left
/// frame has the name, under the name with the suffix; and no field of the
/// right frame that is a join key contributes.
pub proof fn lemma_join_fields(
    left: Seq<FieldView>,
    right: Seq<FieldView>,
    right_on: Seq<Expr>,
    suffix: Seq<char>,
)
    ensures
        left.is_prefix_of(join_fields(left, right, right_on, suffix)),
        join_fields(left, right, right_on, suffix).len() <= left.len() + right.len(),
        forall|i: int|
            left.len() <= i < join_fields(left, right, right_on, suffix).len() ==> exists|j: int|
                0 <= j < right.len() && !is_right_key(right_on, right[j].name)
                    && #[trigger] join_fields(left, right, right_on, suffix)[i] == (FieldView {
                    name: if has_name(left, right[j].name) {
                        right[j].name + suffix
                    } else {
                        right[j].name
                    },
                    data_type: (#[trigger] right[j]).data_type,
                }),
        (forall|j: int| 0 <= j < right.len() ==> is_right_key(right_on, (#[trigger] right[j]).name))
            ==> join_fields(left, right, right_on, suffix) == left,
    decreases right.len(),
{
    let r = join_fields(left, right, right_on, suffix);
    if right.len() > 0 {
        let init = right.drop_last();
        let prev = join_fields(left, init, right_on, suffix);
        lemma_join_fields(left, init, right_on, suffix);
        assert forall|i: int| left.len() <= i < r.len() implies exists|j: int|
            0 <= j < right.len() && !is_right_key(right_on, right[j].name) && #[trigger] r[i] == (
            FieldView {
                name: if has_name(left, right[j].name) {
                    right[j].name + suffix
                } else {
                    right[j].name
                },
                data_type: (#[trigger] right[j]).data_type,
            }) by {
            if i < prev.len() {
                let j = choose|j: int|
                    0 <= j < init.len() && !is_right_key(right_on, init[j].name)
                        && #[trigger] prev[i] == (FieldView {
                        name: if has_name(left, init[j].name) {
                            init[j].name + suffix
                        } else {
                            init[j].name
                        },
                        data_type: (#[trigger] init[j]).data_type,
                    });
                assert(right[j] == init[j]);
                assert(r[i] == prev[i]);
            } else {
                let j = right.len() - 1;
                assert(right[j] == right.last());
            }
        }
        if forall|j: int| 0 <= j < right.len() ==> is_right_key(right_on, (#[trigger] right[j]).name) {
            assert forall|j: int| 0 <= j < init.len() implies is_right_key(
                right_on,
                (#[trigger] init[j]).name,
            ) by {
                assert(right[j] == init[j]);
            }
            assert(is_right_key(right_on, right[right.len() - 1].name));
        }
    }
}

/// Derives the schema of a join. Every join key of the right frame must have
/// a name.
pub fn det_join_schema(
    schema_left: &Schema,
    schema_right: &Schema,
    right_on: &Vec<Expr>,
    suffix: &str,
) -> (r: Schema)
    requires
        forall|k: int| 0 <= k < right_on@.len() ==> (#[trigger] right_on@[k]).output_name() is Some,
    ensures
        r@ == join_fields(schema_left@, schema_right@, right_on@, suffix@),
{
    let left = schema_left.fields();
    let right = schema_right.fields();
    let ghost lv = schema_left@;
    let ghost rv = schema_right@;
    // column names of left table
    let mut names = name_set_new();
    // fields of new schema
    let mut fields: Vec<Field> = Vec::new();
    let mut i: usize = 0;
    while i < left.len()
        invariant
            i <= left@.len(),
            fields_view(left@) == lv,
            fields_view(fields@) == lv.take(i as int),
            forall|s: Seq<char>|
                name_set_contents(names).contains(s) <==> has_name(lv.take(i as int), s),
        decreases left@.len() - i,
    {
        let f = &left[i];
        assert(f@ == lv[i as int]);
        let ghost before = name_set_contents(names);
        name_set_insert(&mut names, f.name());
        let ghost copied = fields_view(fields@);
        fields.push(f.clone());
        assert(fields_view(fields@) =~= copied.push(f@));
        assert(copied.push(f@) =~= lv.take(i + 1));
        assert forall|s: Seq<char>|
            name_set_contents(names).contains(s) <==> has_name(lv.take(i + 1), s) by {
            if has_name(lv.take(i + 1), s) {
                let j = choose|j: int|
                    0 <= j < lv.take(i + 1).len() && #[trigger] lv.take(i + 1)[j].name == s;
                if j < i {
                    assert(lv.take(i as int)[j].name == s);
                }
            }
            if before.contains(s) {
                let j = choose|j: int|
                    0 <= j < lv.take(i as int).len() && #[trigger] lv.take(i as int)[j].name == s;
                assert(lv.take(i + 1)[j].name == s);
            }
            if s == f@.name {
                assert(lv.take(i + 1)[i as int].name == s);
            }
        }
        i += 1;
    }
    assert(lv.take(left@.len() as int) =~= lv);

    let mut right_names = name_set_new();
    let mut k: usize = 0;
    while k < right_on.len()
        invariant
            k <= right_on@.len(),
            forall|j: int|
                0 <= j < right_on@.len() ==> (#[trigger] right_on@[j]).output_name() is Some,
            forall|s: Seq<char>|
                name_set_contents(right_names).contains(s) <==> is_right_key(
                    right_on@.take(k as int),
                    s,
                ),
        decreases right_on@.len() - k,
    {
        let ghost before = name_set_contents(right_names);
        let ghost keys = right_on@;
        match right_on[k].root_name() {
            Some(name) => {
                name_set_insert(&mut right_names, name);
                assert forall|s: Seq<char>|
                    name_set_contents(right_names).contains(s) <==> is_right_key(
                        keys.take(k + 1),
                        s,
                    ) by {
                    if is_right_key(keys.take(k + 1), s) {
                        let j = choose|j: int|
                            0 <= j < keys.take(k + 1).len() && (#[trigger] keys.take(
                                k + 1,
                            )[j]).output_name() is Some && keys.take(k + 1)[j].output_name()->0@
                                == s;
                        if j < k {
                            assert(keys.take(k as int)[j].output_name()->0@ == s);
                        }
                    }
                    if before.contains(s) {
                        let j = choose|j: int|
                            0 <= j < keys.take(k as int).len() && (#[trigger] keys.take(
                                k as int,
                            )[j]).output_name() is Some && keys.take(k as int)[j].output_name()->0@
                                == s;
                        assert(keys.take(k + 1)[j].output_name()->0@ == s);
                    }
                    if s == name@ {
                        assert(keys.take(k + 1)[k as int].output_name()->0@ == s);
                    }
                }
            },
            None => {
                assert(false);
            },
        }
        k += 1;
    }
    assert(right_on@.take(right_on@.len() as int) =~= right_on@);

    let mut i: usize = 0;
    assert(rv.take(0) =~= Seq::<FieldView>::empty());
    while i < right.len()
        invariant
            i <= right@.len(),
            fields_view(right@) == rv,
            forall|s: Seq<char>| name_set_contents(names).contains(s) <==> has_name(lv, s),
            forall|s: Seq<char>|
                name_set_contents(right_names).contains(s) <==> is_right_key(right_on@, s),
            fields_view(fields@) == join_fields(lv, rv.take(i as int), right_on@, suffix@),
        decreases right@.len() - i,
    {
        let f = &right[i];
        let name = f.name();
        assert(rv.take(i + 1).drop_last() =~= rv.take(i as int));
        assert(rv.take(i + 1).last() == f@);
        let ghost before = fields_view(fields@);
        if !name_set_contains(&right_names, name) {
            if name_set_contains(&names, name) {
                let mut new_name = name.clone();
                new_name.append(suffix);
                let field = Field::new(new_name.as_str(), f.data_type().clone());
                fields.push(field);
                assert(fields_view(fields@) =~= before.push(
                    FieldView { name: f@.name + suffix@, data_type: f@.data_type },
                ));
            } else {
                fields.push(f.clone());
                assert(fields_view(fields@) =~= before.push(f@));
            }
        }
        i += 1;
    }
    assert(rv.take(right@.len() as int) =~= rv);
    Schema::new(fields)
}

/// The fields of a frame to which the columns `added` are added: a column
/// whose name the frame has takes the place of the frame's first column of
/// that name, and any other column is appended.
pub open spec fn stacked_fields(base: Seq<FieldView>, added: Seq<FieldView>) -> Seq<FieldView>
    decreases added.len(),
{
    if added.len() == 0 {
        base
    } else {
        let prev = stacked_fields(base, added.drop_last());
        match position(field_names(base), added.last().name) {
            Some(i) => prev.update(i, added.last()),
            None => prev.push(added.last()),
        }
    }
}

/// The column `name`, or the wildcard for the name `*`.
pub open spec fn column_or_wildcard(name: String) -> Expr {
    if name@ == "*"@ {
        Expr::Wildcard
    } else {
        Expr::Column(name)
    }
}

/// The expression that replaces the values of the column `name` for which
/// the test holds by the fill value. The test is `is_nan` if `nan` is true
/// and `is_null` otherwise.
pub open spec fn fill_expr(name: String, fill_value: Expr, nan: bool) -> Expr {
    let tested = Box::new(column_or_wildcard(name));
    Expr::Alias(
        Box::new(
            Expr::Ternary {
                predicate: Box::new(
                    if nan {
                        Expr::IsNan(tested)
                    } else {
                        Expr::IsNull(tested)
                    },
                ),
                truthy: Box::new(fill_value),
                falsy: Box::new(column_or_wildcard(name)),
            },
        ),
        name,
    )
}

/// One fill expression per column, in order.
pub open spec fn fill_exprs(names: Seq<String>, fill_value: Expr, nan: bool) -> Seq<Expr> {
    Seq::new(names.len(), |i: int| fill_expr(names[i], fill_value, nan))
}

/// The column `name`, or the wildcard for the name `*`.
fn column_named(name: &String) -> (r: Expr)
    ensures
        r == column_or_wildcard(*name),
{
    if crate::text::str_eq(name.as_str(), "*") {
        Expr::Wildcard
    } else {
        Expr::Column(name.clone())
    }
}

/// One fill expression per column of the schema: the column with the fill
/// value in place of the values that are null or, if `nan` is true, not a
/// number.
pub fn make_fill_exprs(schema: &Schema, fill_value: &Expr, nan: bool) -> (r: Vec<Expr>)
    ensures
        r@ == fill_exprs(schema.spec_names(), *fill_value, nan),
{
    let fields = schema.fields();
    let mut exprs: Vec<Expr> = Vec::new();
    let mut i: usize = 0;
    while i < fields.len()
        invariant
            i <= fields@.len(),
            names_of(fields@) == schema.spec_names(),
            exprs@.len() == i,
            forall|j: int|
                0 <= j < i ==> exprs@[j] == fill_expr(schema.spec_names()[j], *fill_value, nan),
        decreases fields@.len() - i,
    {
        let name = fields[i].name();
        assert(*name == schema.spec_names()[i as int]);
        let tested = column_named(name);
        let predicate = if nan {
            tested.is_nan()
        } else {
            tested.is_null()
        };
        let e = Expr::Alias(
            Box::new(
                Expr::Ternary {
                    predicate: Box::new(predicate),
                    truthy: Box::new(fill_value.clone()),
                    falsy: Box::new(column_named(name)),
                },
            ),
            name.clone(),
        );
        exprs.push(e);
        i += 1;
    }
    assert(exprs@ =~= fill_exprs(schema.spec_names(), *fill_value, nan));
    exprs
}

/// Whether each expression is a plain column.
pub open spec fn all_columns(exprs: Seq<Expr>) -> bool {
    forall|i: int| 0 <= i < exprs.len() ==> (#[trigger] exprs[i]) is Column
}

/// The names of expressions that are plain columns.
pub open spec fn column_names(exprs: Seq<Expr>) -> Seq<String> {
    Seq::new(exprs.len(), |i: int| exprs[i]->Column_0)
}

/// The magic numbers with which compressed files start.
pub open spec fn spec_is_compressed(bytes: Seq<u8>) -> bool {
    bytes.len() >= 2 && ((bytes[0] == 31 && bytes[1] == 139) || (bytes[0] == 0x78 && (bytes[1]
        == 0x01 || bytes[1] == 0x9C || bytes[1] == 0xDA)))
}

/// Whether the bytes start with the magic number of a gzip or zlib stream.
pub fn is_compressed(bytes: &[u8]) -> (r: bool)
    ensures
        r == spec_is_compressed(bytes@),
{
    if bytes.len() < 2 {
        return false;
    }
    let b0 = bytes[0];
    let b1 = bytes[1];
    (b0 == 31 && b1 == 139) || (b0 == 0x78 && (b1 == 0x01 || b1 == 0x9C || b1 == 0xDA))
}

/// Builds a logical plan from the scan upwards. Each method consumes the
/// builder and returns one whose plan has a new node above the plan so far.
pub struct LogicalPlanBuilder(LogicalPlan);

impl From<LogicalPlan> for LogicalPlanBuilder {
    fn from(lp: LogicalPlan) -> (r: Self) {
        LogicalPlanBuilder(lp)
    }
}

impl vstd::std_specs::convert::FromSpecImpl<LogicalPlan> for LogicalPlanBuilder {
    open spec fn obeys_from_spec() -> bool {
        true
    }

    open spec fn from_spec(lp: LogicalPlan) -> Self {
        LogicalPlanBuilder::wrapping(lp)
    }
}

impl LogicalPlanBuilder {
    /// The plan built so far.
    pub closed spec fn plan(self) -> LogicalPlan {
        self.0
    }

    /// The builder whose plan is `lp`.
    pub closed spec fn wrapping(lp: LogicalPlan) -> Self {
        LogicalPlanBuilder(lp)
    }

    /// The plan of the builder that wraps a plan is that plan.
    pub proof fn lemma_wrapping(lp: LogicalPlan)
        ensures
            Self::wrapping(lp).plan() == lp,
    {
    }

    /// The schema of the plan built so far.
    pub open spec fn schema(self) -> Schema {
        self.plan().spec_schema()
    }

    /// The schema of the plan built so far.
    pub fn current_schema(&self) -> (r: &Schema)
        ensures
            *r == self.schema(),
    {
        self.0.schema()
    }

    /// Starts a plan with the scan of a Parquet file whose schema has been
    /// read.
    pub fn scan_parquet(
        path: String,
        schema: Schema,
        n_rows: Option<usize>,
        cache: bool,
        parallel: bool,
    ) -> (r: Self)
        ensures
            r.plan() matches LogicalPlan::ParquetScan {
                path: p,
                schema: s,
                predicate,
                aggregate,
                options,
            } && p == path && *s == schema && predicate is None && aggregate@.len() == 0
                && options == (ParquetOptions { n_rows, with_columns: None, cache, parallel }),
    {
        LogicalPlanBuilder(
            LogicalPlan::ParquetScan {
                path,
                schema: Arc::new(schema),
                predicate: None,
                aggregate: Vec::new(),
                options: ParquetOptions { n_rows, with_columns: None, cache, parallel },
            },
        )
    }

    /// Starts a plan with the scan of an IPC file whose schema has been
    /// read.
    pub fn scan_ipc(path: String, schema: Schema, options: LpScanOptions) -> (r: Self)
        ensures
            r.plan() matches LogicalPlan::IpcScan {
                path: p,
                schema: s,
                predicate,
                aggregate,
                options: o,
            } && p == path && *s == schema && predicate is None && aggregate@.len() == 0 && o
                == options,
    {
        LogicalPlanBuilder(
            LogicalPlan::IpcScan {
                path,
                schema: Arc::new(schema),
                predicate: None,
                aggregate: Vec::new(),
                options,
            },
        )
    }

    /// Starts a plan with the scan of a CSV file.
    ///
    /// `magic_nr` holds the first two bytes of the file. A file that starts
    /// with the magic number of a compressed stream cannot be scanned. The
    /// schema is the given one or the one inferred from the file, and
    /// `skip_rows` is the number of rows to skip that the inference left.
    /// The rows to skip after the header are added to it.
    pub fn scan_csv(
        path: String,
        magic_nr: [u8; 2],
        delimiter: u8,
        has_header: bool,
        ignore_errors: bool,
        skip_rows: usize,
        n_rows: Option<usize>,
        cache: bool,
        schema: Arc<Schema>,
        low_memory: bool,
        comment_char: Option<u8>,
        quote_char: Option<u8>,
        null_values: Option<NullValues>,
        rechunk: bool,
        skip_rows_after_header: usize,
        encoding: CsvEncoding,
        row_count: Option<RowCount>,
    ) -> (r: Result<Self>)
        requires
            skip_rows + skip_rows_after_header <= usize::MAX,
        ensures
            match r {
                Ok(b) => {
                    &&& !spec_is_compressed(magic_nr@)
                    &&& b.plan() matches LogicalPlan::CsvScan {
                        path: p,
                        schema: s,
                        options,
                        predicate,
                        aggregate,
                    } && p == path && s == schema && predicate is None && aggregate@.len() == 0
                        && options == (CsvParserOptions {
                        has_header,
                        delimiter,
                        ignore_errors,
                        skip_rows: (skip_rows + skip_rows_after_header) as usize,
                        n_rows,
                        with_columns: None,
                        low_memory,
                        cache,
                        comment_char,
                        quote_char,
                        null_values,
                        rechunk,
                        encoding,
                        row_count,
                    })
                },
                Err(e) => {
                    &&& spec_is_compressed(magic_nr@)
                    &&& e matches PolarsError::ComputeError(m)
                    &&& m@ == "cannot scan compressed csv; use read_csv for compressed data"@
                },
            },
    {
        if is_compressed(magic_nr.as_slice()) {
            return Err(
                PolarsError::ComputeError(
                    String::from_str(
                        "cannot scan compressed csv; use read_csv for compressed data",
                    ),
                ),
            );
        }
        Ok(
            LogicalPlanBuilder(
                LogicalPlan::CsvScan {
                    path,
                    schema,
                    options: CsvParserOptions {
                        has_header,
                        delimiter,
                        ignore_errors,
                        skip_rows: skip_rows + skip_rows_after_header,
                        n_rows,
                        with_columns: None,
                        low_memory,
                        cache,
                        comment_char,
                        quote_char,
                        null_values,
                        rechunk,
                        encoding,
                        row_count,
                    },
                    predicate: None,
                    aggregate: Vec::new(),
                },
            ),
        )
    }

    /// Caches the frame at this point of the plan.
    pub fn cache(self) -> (r: Self)
        ensures
            r.plan() == (LogicalPlan::Cache { input: Box::new(self.plan()) }),
            r.schema() == self.schema(),
    {
        LogicalPlanBuilder(LogicalPlan::Cache { input: Box::new(self.0) })
    }

    /// Selects columns. The wildcard is expanded over the columns of the
    /// frame. Without any expression the node is a function that gives a
    /// frame without columns.
    pub fn project(self, exprs: Vec<Expr>) -> (r: Self)
        requires
            all_typed(projected(exprs@, self.schema().spec_names()), self.schema()@, Context::Default),
        ensures
            projected(exprs@, self.schema().spec_names()).len() > 0 ==> (r.plan() matches LogicalPlan::Projection {
                expr,
                input,
                schema,
            } && expr@ == projected(exprs@, self.schema().spec_names()) && *input == self.plan()
                && schema@ == typed_fields(expr@, self.schema()@, Context::Default)),
            projected(exprs@, self.schema().spec_names()).len() == 0 ==> (r.plan() matches LogicalPlan::Udf {
                input,
                function,
                options,
                schema,
            } && *input == self.plan() && function is EmptyFrame && schema is Some
                && schema->0@.len() == 0 && options.predicate_pd && options.projection_pd
                && options.fmt_str@ == "EMPTY PROJECTION"@),
    {
        let (exprs, schema) = prepare_projection(exprs, self.0.schema());
        if exprs.len() == 0 {
            self.map(
                UdfRef::EmptyFrame,
                AllowedOptimizations::default(),
                Some(Arc::new(Schema::default())),
                "EMPTY PROJECTION",
            )
        } else {
            LogicalPlanBuilder(
                LogicalPlan::Projection {
                    expr: exprs,
                    input: Box::new(self.0),
                    schema: Arc::new(schema),
                },
            )
        }
    }

    /// Selects columns without changing their number. Without any
    /// expression the plan stays as it is.
    pub fn project_local(self, exprs: Vec<Expr>) -> (r: Self)
        requires
            all_typed(projected(exprs@, self.schema().spec_names()), self.schema()@, Context::Default),
        ensures
            projected(exprs@, self.schema().spec_names()).len() > 0 ==> (r.plan() matches LogicalPlan::LocalProjection {
                expr,
                input,
                schema,
            } && expr@ == projected(exprs@, self.schema().spec_names()) && *input == self.plan()
                && schema@ == typed_fields(expr@, self.schema()@, Context::Default)),
            projected(exprs@, self.schema().spec_names()).len() == 0 ==> r == self,
    {
        let (exprs, schema) = prepare_projection(exprs, self.0.schema());
        if exprs.len() != 0 {
            LogicalPlanBuilder(
                LogicalPlan::LocalProjection {
                    expr: exprs,
                    input: Box::new(self.0),
                    schema: Arc::new(schema),
                },
            )
        } else {
            self
        }
    }

    /// Replaces the null values of every column by the fill value.
    pub fn fill_null(self, fill_value: Expr) -> (r: Self)
        requires
            all_typed(
                projected(
                    fill_exprs(self.schema().spec_names(), fill_value, false),
                    self.schema().spec_names(),
                ),
                self.schema()@,
                Context::Default,
            ),
        ensures
            ({
                let exprs = projected(
                    fill_exprs(self.schema().spec_names(), fill_value, false),
                    self.schema().spec_names(),
                );
                &&& exprs.len() > 0 ==> (r.plan() matches LogicalPlan::LocalProjection {
                    expr,
                    input,
                    schema,
                } && expr@ == exprs && *input == self.plan() && schema@ == typed_fields(
                    exprs,
                    self.schema()@,
                    Context::Default,
                ))
                &&& exprs.len() == 0 ==> r == self
            }),
    {
        let exprs = make_fill_exprs(self.0.schema(), &fill_value, false);
        self.project_local(exprs)
    }

    /// Replaces the values of every column that are not a number by the
    /// fill value.
    pub fn fill_nan(self, fill_value: Expr) -> (r: Self)
        requires
            all_typed(
                projected(
                    fill_exprs(self.schema().spec_names(), fill_value, true),
                    self.schema().spec_names(),
                ),
                self.schema()@,
                Context::Default,
            ),
        ensures
            ({
                let exprs = projected(
                    fill_exprs(self.schema().spec_names(), fill_value, true),
                    self.schema().spec_names(),
                );
                &&& exprs.len() > 0 ==> (r.plan() matches LogicalPlan::LocalProjection {
                    expr,
                    input,
                    schema,
                } && expr@ == exprs && *input == self.plan() && schema@ == typed_fields(
                    exprs,
                    self.schema()@,
                    Context::Default,
                ))
                &&& exprs.len() == 0 ==> r == self
            }),
    {
        let exprs = make_fill_exprs(self.0.schema(), &fill_value, true);
        self.project_local(exprs)
    }

    /// Adds columns to the frame. A column whose name the frame has takes the
    /// place of that column; any other column is appended.
    pub fn with_columns(self, exprs: Vec<Expr>) -> (r: Self)
        requires
            all_typed(projected(exprs@, self.schema().spec_names()), self.schema()@, Context::Default),
        ensures
            r.plan() matches LogicalPlan::HStack { input, exprs: e, schema } && *input
                == self.plan() && e@ == projected(exprs@, self.schema().spec_names()) && schema@
                == stacked_fields(
                self.schema()@,
                typed_fields(e@, self.schema()@, Context::Default),
            ),
    {
        // current schema
        let schema = self.0.schema();
        let mut new_fields = clone_fields_of(schema);
        let (exprs, _) = prepare_projection(exprs, schema);
        let ghost base = schema@;
        let ghost added = typed_fields(exprs@, base, Context::Default);
        let n = exprs.len();
        let mut i: usize = 0;
        assert(added.take(0) =~= Seq::<FieldView>::empty());
        while i < n
            invariant
                i <= n,
                n == exprs@.len(),
                base == schema@,
                no_wildcards(exprs@),
                all_typed(exprs@, base, Context::Default),
                added == typed_fields(exprs@, base, Context::Default),
                new_fields@.len() >= base.len(),
                fields_view(new_fields@) == stacked_fields(base, added.take(i as int)),
            decreases n - i,
        {
            let ghost before = fields_view(new_fields@);
            assert(added.take(i + 1).drop_last() =~= added.take(i as int));
            assert(added.take(i + 1).last() == added[i as int]);
            match exprs[i].to_field(schema, Context::Default) {
                Ok(field) => {
                    assert(field@ == added[i as int]);
                    proof {
                        lemma_position(field_names(base), field@.name);
                    }
                    match schema.index_of(field.name().as_str()) {
                        Ok(idx) => {
                            new_fields.set(idx, field);
                            assert(fields_view(new_fields@) =~= before.update(
                                idx as int,
                                added[i as int],
                            ));
                        },
                        Err(_) => {
                            new_fields.push(field);
                            assert(fields_view(new_fields@) =~= before.push(added[i as int]));
                        },
                    }
                },
                Err(_) => {
                    assert(false);
                },
            }
            i += 1;
        }
        assert(added.take(n as int) =~= added);
        let new_schema = Schema::new(new_fields);
        LogicalPlanBuilder(
            LogicalPlan::HStack { input: Box::new(self.0), exprs, schema: Arc::new(new_schema) },
        )
    }

    /// Apply a filter. A predicate with the wildcard stands for the
    /// conjunction of one predicate per column of the frame.
    pub fn filter(self, predicate: Expr) -> (r: Self)
        requires
            predicate.contains_wildcard() ==> projected(
                seq![predicate],
                self.schema().spec_names(),
            ).len() > 0,
        ensures
            r.plan() == (LogicalPlan::Selection {
                predicate: if predicate.contains_wildcard() {
                    conjunction(projected(seq![predicate], self.schema().spec_names()))
                } else {
                    predicate
                },
                input: Box::new(self.plan()),
            }),
            r.schema() == self.schema(),
    {
        let predicate = if predicate.has_wildcard() {
            let mut single: Vec<Expr> = Vec::new();
            single.push(predicate);
            assert(single@ =~= seq![predicate]);
            let keys: Vec<Expr> = Vec::new();
            assert(keys@ =~= Seq::<Expr>::empty());
            let rewritten = rewrite_projections(single, self.0.schema(), keys.as_slice());
            combine_predicates_expr(rewritten)
        } else {
            predicate
        };
        LogicalPlanBuilder(LogicalPlan::Selection { predicate, input: Box::new(self.0) })
    }

    /// Groups the rows by the keys and aggregates each group. The wildcard
    /// in an aggregation stands for the columns that no key stands for. The
    /// schema holds the fields of the keys, then those of the aggregations;
    /// of two fields with one name the first stays.
    pub fn groupby(
        self,
        keys: Arc<Vec<Expr>>,
        aggs: Vec<Expr>,
        apply: Option<UdfRef>,
        maintain_order: bool,
        dynamic_options: Option<DynamicGroupOptions>,
        rolling_options: Option<RollingGroupOptions>,
    ) -> (r: Self)
        requires
            no_wildcards(keys@),
            all_typed(keys@, self.schema()@, Context::Default),
            all_typed(
                rewritten(aggs@, self.schema().spec_names(), keys@),
                self.schema()@,
                Context::Aggregation,
            ),
        ensures
            r.plan() matches LogicalPlan::Aggregate {
                input,
                keys: k,
                aggs: a,
                schema,
                apply: ap,
                maintain_order: mo,
                options,
            } && *input == self.plan() && k == keys && a@ == rewritten(
                aggs@,
                self.schema().spec_names(),
                keys@,
            ) && ap == apply && mo == maintain_order && options == (GroupbyOptions {
                dynamic: dynamic_options,
                rolling: rolling_options,
            }) && schema@ == merge_schemas(
                seq![
                    typed_fields(keys@, self.schema()@, Context::Default),
                    typed_fields(a@, self.schema()@, Context::Aggregation),
                ],
            ),
    {
        let current_schema = self.0.schema();
        let aggs = rewrite_projections(aggs, current_schema, (&*keys).as_slice());
        let schema1 = match expressions_to_schema(&*keys, current_schema, Context::Default) {
            Ok(s) => s,
            Err(_) => {
                assert(false);
                Schema::default()
            },
        };
        let schema2 = match expressions_to_schema(&aggs, current_schema, Context::Aggregation) {
            Ok(s) => s,
            Err(_) => {
                assert(false);
                Schema::default()
            },
        };
        let mut both: Vec<Schema> = Vec::new();
        both.push(schema1);
        both.push(schema2);
        assert(crate::datatypes::schema::schemas_view(both@) =~= seq![schema1@, schema2@]);
        let schema = match Schema::try_merge(both.as_slice()) {
            Ok(s) => s,
            Err(_) => {
                assert(false);
                Schema::default()
            },
        };
        LogicalPlanBuilder(
            LogicalPlan::Aggregate {
                input: Box::new(self.0),
                keys,
                aggs,
                schema: Arc::new(schema),
                apply,
                maintain_order,
                options: GroupbyOptions { dynamic: dynamic_options, rolling: rolling_options },
            },
        )
    }

    /// Hands out the plan.
    pub fn build(self) -> (r: LogicalPlan)
        ensures
            r == self.plan(),
    {
        self.0
    }

    /// Starts a plan with a frame in memory.
    pub fn from_existing_df(df: DataFrame) -> (r: Self)
        ensures
            r.plan() matches LogicalPlan::DataFrameScan { df: d, schema, projection, selection }
                && *d == df && schema@ == series_fields(df.spec_columns()) && projection is None
                && selection is None,
    {
        let schema = Arc::new(df.schema());
        LogicalPlanBuilder(
            LogicalPlan::DataFrameScan {
                df: Arc::new(df),
                schema,
                projection: None,
                selection: None,
            },
        )
    }

    /// Sorts the frame by the given columns.
    pub fn sort(self, by_column: Vec<Expr>, reverse: Vec<bool>) -> (r: Self)
        ensures
            r.plan() == (LogicalPlan::Sort { input: Box::new(self.plan()), by_column, reverse }),
            r.schema() == self.schema(),
    {
        LogicalPlanBuilder(LogicalPlan::Sort { input: Box::new(self.0), by_column, reverse })
    }

    /// Explodes list columns into rows. After the wildcard has been
    /// expanded, each expression must be a plain column.
    pub fn explode(self, columns: Vec<Expr>) -> (r: Self)
        requires
            all_columns(projected(columns@, self.schema().spec_names())),
        ensures
            r.plan() matches LogicalPlan::Explode { input, columns: c } && *input == self.plan()
                && c@ == column_names(projected(columns@, self.schema().spec_names())),
            r.schema() == self.schema(),
    {
        let keys: Vec<Expr> = Vec::new();
        assert(keys@ =~= Seq::<Expr>::empty());
        let columns = rewrite_projections(columns, self.0.schema(), keys.as_slice());
        // columns to string
        let mut names: Vec<String> = Vec::new();
        let mut i: usize = 0;
        while i < columns.len()
            invariant
                i <= columns@.len(),
                all_columns(columns@),
                names@.len() == i,
                forall|j: int| 0 <= j < i ==> names@[j] == (#[trigger] columns@[j])->Column_0,
            decreases columns@.len() - i,
        {
            match &columns[i] {
                Expr::Column(name) => {
                    names.push(name.clone());
                },
                _ => {
                    assert(false);
                },
            }
            i += 1;
        }
        assert(names@ =~= column_names(columns@));
        LogicalPlanBuilder(LogicalPlan::Explode { input: Box::new(self.0), columns: names })
    }

    /// Melts the value variables into two columns, `variable` and `value`.
    pub fn melt(self, id_vars: Arc<Vec<String>>, value_vars: Arc<Vec<String>>) -> (r: Self)
        requires
            value_vars@.len() > 0,
            position(field_names(self.schema()@), value_vars@[0]@) is Some,
        ensures
            r.plan() matches LogicalPlan::Melt { input, id_vars: i, value_vars: v, schema }
                && *input == self.plan() && i == id_vars && v == value_vars && schema@
                == melt_fields(self.schema()@, strings_view(value_vars@)),
    {
        let schema = det_melt_schema((&*value_vars).as_slice(), self.0.schema());
        LogicalPlanBuilder(
            LogicalPlan::Melt { input: Box::new(self.0), id_vars, value_vars, schema },
        )
    }

    /// Drops duplicate rows.
    pub fn distinct(self, options: DistinctOptions) -> (r: Self)
        ensures
            r.plan() == (LogicalPlan::Distinct { input: Box::new(self.plan()), options }),
            r.schema() == self.schema(),
    {
        LogicalPlanBuilder(LogicalPlan::Distinct { input: Box::new(self.0), options })
    }

    /// Takes `len` rows from the row `offset` on; a negative offset counts
    /// from the end.
    pub fn slice(self, offset: i64, len: u32) -> (r: Self)
        ensures
            r.plan() == (LogicalPlan::Slice { input: Box::new(self.plan()), offset, len }),
            r.schema() == self.schema(),
    {
        LogicalPlanBuilder(LogicalPlan::Slice { input: Box::new(self.0), offset, len })
    }

    /// Joins the frame of this plan with that of `other`. Every join key of
    /// the right frame must have a name.
    pub fn join(
        self,
        other: LogicalPlan,
        left_on: Vec<Expr>,
        right_on: Vec<Expr>,
        options: JoinOptions,
    ) -> (r: Self)
        requires
            forall|k: int| 0 <= k < right_on@.len() ==> (#[trigger] right_on@[k]).output_name() is Some,
        ensures
            r.plan() matches LogicalPlan::Join {
                input_left,
                input_right,
                schema,
                left_on: l,
                right_on: ro,
                options: o,
            } && *input_left == self.plan() && *input_right == other && l == left_on && ro
                == right_on && o == options && schema@ == join_fields(
                self.schema()@,
                other.spec_schema()@,
                right_on@,
                options.suffix@,
            ),
    {
        let schema = det_join_schema(
            self.0.schema(),
            other.schema(),
            &right_on,
            options.suffix.as_str(),
        );
        LogicalPlanBuilder(
            LogicalPlan::Join {
                input_left: Box::new(self.0),
                input_right: Box::new(other),
                schema: Arc::new(schema),
                left_on,
                right_on,
                options,
            },
        )
    }

    /// Inserts a user-defined function. The optimizations say whether
    /// predicates and projections may be moved past it, and `name` stands
    /// for it in a description of the plan.
    pub fn map(
        self,
        function: UdfRef,
        optimizations: AllowedOptimizations,
        schema: Option<SchemaRef>,
        name: &'static str,
    ) -> (r: Self)
        ensures
            r.plan() matches LogicalPlan::Udf { input, function: f, options, schema: s } && *input
                == self.plan() && f == function && s == schema && options == (LogicalPlanUdfOptions {
                predicate_pd: optimizations.predicate_pushdown,
                projection_pd: optimizations.projection_pushdown,
                fmt_str: name,
            }),
    {
        let options = LogicalPlanUdfOptions {
            predicate_pd: optimizations.predicate_pushdown,
            projection_pd: optimizations.projection_pushdown,
            fmt_str: name,
        };
        LogicalPlanBuilder(
            LogicalPlan::Udf {
                input: Box::new(self.0),
                function,
                options,
                schema,
            },
        )
    }
}

/// Copies the fields of a schema.
fn clone_fields_of(schema: &Schema) -> (r: Vec<Field>)
    ensures
        fields_view(r@) == schema@,
        r@.len() == schema@.len(),
{
    let fields = schema.fields();
    let mut out: Vec<Field> = Vec::new();
    let mut i: usize = 0;
    while i < fields.len()
        invariant
            i <= fields@.len(),
            fields_view(fields@) == schema@,
            out@.len() == i,
            forall|j: int| 0 <= j < i ==> (#[trigger] out@[j])@ == schema@[j],
        decreases fields@.len() - i,
    {
        assert(fields@[i as int]@ == schema@[i as int]);
        out.push(fields[i].clone());
        i += 1;
    }
    assert(fields_view(out@) =~= schema@);
    out
}

} // verus!
