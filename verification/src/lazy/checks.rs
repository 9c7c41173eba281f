//! Tests of what the methods of the plan builder ask of their arguments.
//! Each test fails with the error that describes the first argument that
//! the method would not accept.

use crate::datatypes::field::{field_names, FieldView};
use crate::datatypes::schema::{not_found_message, position, Schema};
use crate::error::{PolarsError, Result};
use crate::lazy::builder::{all_columns, fill_exprs, make_fill_exprs, projected};
use crate::lazy::dsl::Expr;
use crate::lazy::projection::{expand_wildcard, no_wildcards, rewrite_projections, rewritten};
use crate::lazy::types::{
    all_typed, expressions_to_schema, is_first_untyped, reports, Context,
};
use vstd::prelude::*;

verus! {

/// Whether `e` is the error of the first of the expressions that has no
/// field on a frame with the given schema.
pub open spec fn reports_first_untyped(
    e: PolarsError,
    exprs: Seq<Expr>,
    schema: Seq<FieldView>,
    ctxt: Context,
) -> bool {
    exists|k: int|
        is_first_untyped(exprs, schema, ctxt, k) && reports(
            Err(e),
            (#[trigger] exprs[k]).typing(schema, ctxt),
            schema,
        )
}

/// Copies a list of expressions.
fn clone_exprs(exprs: &Vec<Expr>) -> (r: Vec<Expr>)
    ensures
        r@ == exprs@,
{
    let mut out: Vec<Expr> = Vec::new();
    let mut i: usize = 0;
    while i < exprs.len()
        invariant
            i <= exprs@.len(),
            out@ == exprs@.take(i as int),
        decreases exprs@.len() - i,
    {
        out.push(exprs[i].clone());
        assert(exprs@.take(i as int).push(exprs@[i as int]) =~= exprs@.take(i + 1));
        i += 1;
    }
    assert(exprs@.take(exprs@.len() as int) =~= exprs@);
    out
}

/// Tests that the expressions, with the wildcard expanded over the columns
/// that no key stands for, have a field each.
fn check_typed(exprs: &Vec<Expr>, schema: &Schema, keys: &[Expr], ctxt: Context) -> (r: Result<()>)
    ensures
        match r {
            Ok(_) => all_typed(rewritten(exprs@, schema.spec_names(), keys@), schema@, ctxt),
            Err(e) => reports_first_untyped(
                e,
                rewritten(exprs@, schema.spec_names(), keys@),
                schema@,
                ctxt,
            ),
        },
{
    let rewritten = rewrite_projections(clone_exprs(exprs), schema, keys);
    match expressions_to_schema(&rewritten, schema, ctxt) {
        Ok(_) => Ok(()),
        Err(e) => Err(e),
    }
}

/// Tests that a projection of the expressions is defined: with the wildcard
/// expanded, each has a field.
pub fn check_projection(exprs: &Vec<Expr>, schema: &Schema) -> (r: Result<()>)
    ensures
        match r {
            Ok(_) => all_typed(projected(exprs@, schema.spec_names()), schema@, Context::Default),
            Err(e) => reports_first_untyped(
                e,
                projected(exprs@, schema.spec_names()),
                schema@,
                Context::Default,
            ),
        },
{
    let keys: Vec<Expr> = Vec::new();
    assert(keys@ =~= Seq::<Expr>::empty());
    check_typed(exprs, schema, keys.as_slice(), Context::Default)
}

/// Tests that every column can be filled with the fill value.
pub fn check_fill(fill_value: &Expr, nan: bool, schema: &Schema) -> (r: Result<()>)
    ensures
        match r {
            Ok(_) => all_typed(
                projected(fill_exprs(schema.spec_names(), *fill_value, nan), schema.spec_names()),
                schema@,
                Context::Default,
            ),
            Err(e) => reports_first_untyped(
                e,
                projected(fill_exprs(schema.spec_names(), *fill_value, nan), schema.spec_names()),
                schema@,
                Context::Default,
            ),
        },
{
    let exprs = make_fill_exprs(schema, fill_value, nan);
    check_projection(&exprs, schema)
}

/// Tests that a grouping is defined: no key holds the wildcard, each key has
/// a field, and each aggregation has a field once per group.
pub fn check_groupby(keys: &Vec<Expr>, aggs: &Vec<Expr>, schema: &Schema) -> (r: Result<()>)
    ensures
        match r {
            Ok(_) => {
                &&& no_wildcards(keys@)
                &&& all_typed(keys@, schema@, Context::Default)
                &&& all_typed(
                    rewritten(aggs@, schema.spec_names(), keys@),
                    schema@,
                    Context::Aggregation,
                )
            },
            Err(e) => if !no_wildcards(keys@) {
                e matches PolarsError::ComputeError(m) && m@
                    == "should be no wildcard at this point"@
            } else if !all_typed(keys@, schema@, Context::Default) {
                reports_first_untyped(e, keys@, schema@, Context::Default)
            } else {
                reports_first_untyped(
                    e,
                    rewritten(aggs@, schema.spec_names(), keys@),
                    schema@,
                    Context::Aggregation,
                )
            },
        },
{
    let mut i: usize = 0;
    while i < keys.len()
        invariant
            i <= keys@.len(),
            forall|j: int| 0 <= j < i ==> !(#[trigger] keys@[j]).contains_wildcard(),
        decreases keys@.len() - i,
    {
        if keys[i].has_wildcard() {
            return Err(
                PolarsError::ComputeError(String::from_str("should be no wildcard at this point")),
            );
        }
        i += 1;
    }
    match expressions_to_schema(keys, schema, Context::Default) {
        Ok(_) => {},
        Err(e) => {
            return Err(e);
        },
    }
    check_typed(aggs, schema, keys.as_slice(), Context::Aggregation)
}

/// Tests that the expressions, with the wildcard expanded, are plain
/// columns.
pub fn check_explode(columns: &Vec<Expr>, schema: &Schema) -> (r: Result<()>)
    ensures
        match r {
            Ok(_) => all_columns(projected(columns@, schema.spec_names())),
            Err(e) => {
                &&& !all_columns(projected(columns@, schema.spec_names()))
                &&& e matches PolarsError::ComputeError(m)
                &&& m@ == "expected column expression"@
            },
        },
{
    let keys: Vec<Expr> = Vec::new();
    assert(keys@ =~= Seq::<Expr>::empty());
    let rewritten = rewrite_projections(clone_exprs(columns), schema, keys.as_slice());
    let mut i: usize = 0;
    while i < rewritten.len()
        invariant
            i <= rewritten@.len(),
            rewritten@ == projected(columns@, schema.spec_names()),
            forall|j: int| 0 <= j < i ==> (#[trigger] rewritten@[j]) is Column,
        decreases rewritten@.len() - i,
    {
        match &rewritten[i] {
            Expr::Column(_) => {},
            _ => {
                return Err(
                    PolarsError::ComputeError(String::from_str("expected column expression")),
                );
            },
        }
        i += 1;
    }
    Ok(())
}

/// Tests that a melt is defined: there is a value variable, and the first
/// one is a column of the frame.
pub fn check_melt(value_vars: &[String], schema: &Schema) -> (r: Result<()>)
    ensures
        match r {
            Ok(_) => value_vars@.len() > 0 && position(field_names(schema@), value_vars@[0]@)
                is Some,
            Err(e) => if value_vars@.len() == 0 {
                e matches PolarsError::ComputeError(m) && m@ == "no value variable was given"@
            } else {
                &&& position(field_names(schema@), value_vars@[0]@) is None
                &&& e matches PolarsError::NotFound(m)
                &&& m@ == not_found_message(value_vars@[0]@, field_names(schema@))
            },
        },
{
    if value_vars.len() == 0 {
        return Err(PolarsError::ComputeError(String::from_str("no value variable was given")));
    }
    match schema.index_of(value_vars[0].as_str()) {
        Ok(_) => Ok(()),
        Err(e) => Err(e),
    }
}

/// Tests that every join key has a name.
pub fn check_join_keys(right_on: &Vec<Expr>) -> (r: Result<()>)
    ensures
        match r {
            Ok(_) => forall|k: int|
                0 <= k < right_on@.len() ==> (#[trigger] right_on@[k]).output_name() is Some,
            Err(e) => {
                &&& exists|k: int|
                    0 <= k < right_on@.len() && (#[trigger] right_on@[k]).output_name() is None
                &&& e matches PolarsError::ComputeError(m)
                &&& m@ == "No root column name could be found for the expression"@
            },
        },
{
    let mut i: usize = 0;
    while i < right_on.len()
        invariant
            i <= right_on@.len(),
            forall|k: int| 0 <= k < i ==> (#[trigger] right_on@[k]).output_name() is Some,
        decreases right_on@.len() - i,
    {
        if right_on[i].root_name().is_none() {
            return Err(
                PolarsError::ComputeError(
                    String::from_str("No root column name could be found for the expression"),
                ),
            );
        }
        i += 1;
    }
    Ok(())
}

/// An expression with the wildcard is expanded into one copy per column
/// where there are no keys.
pub proof fn lemma_expansion_len(expr: Expr, names: Seq<String>)
    ensures
        expand_wildcard(expr, names, Seq::empty()).len() == names.len(),
    decreases names.len(),
{
    if names.len() > 0 {
        lemma_expansion_len(expr, names.drop_last());
    }
}

/// Tests that a filter is defined: a predicate with the wildcard needs a
/// column to stand for.
pub fn check_filter(predicate: &Expr, schema: &Schema) -> (r: Result<()>)
    ensures
        match r {
            Ok(_) => predicate.contains_wildcard() ==> projected(
                seq![*predicate],
                schema.spec_names(),
            ).len() > 0,
            Err(e) => {
                &&& predicate.contains_wildcard()
                &&& projected(seq![*predicate], schema.spec_names()).len() == 0
                &&& e matches PolarsError::ComputeError(m)
                &&& m@ == "the wildcard in the predicate stands for no column"@
            },
        },
{
    proof {
        let names = schema.spec_names();
        let single = seq![*predicate];
        schema.lemma_spec_names();
        lemma_expansion_len(*predicate, names);
        assert(single.drop_last() =~= Seq::<Expr>::empty());
        assert(single.last() == *predicate);
        assert(rewritten(single.drop_last(), names, Seq::empty()) =~= Seq::<Expr>::empty());
    }
    if predicate.has_wildcard() && schema.is_empty() {
        Err(
            PolarsError::ComputeError(
                String::from_str("the wildcard in the predicate stands for no column"),
            ),
        )
    } else {
        Ok(())
    }
}

} // verus!
