//! Expansion of the wildcard against a schema.

use crate::datatypes::schema::Schema;
use crate::lazy::dsl::Expr;
use vstd::prelude::*;

verus! {

/// Whether the column `name` is one that the grouping keys stand for.
pub open spec fn is_key_column(keys: Seq<Expr>, name: Seq<char>) -> bool {
    exists|k: int|
        0 <= k < keys.len() && (#[trigger] keys[k]).key_column() is Some
            && keys[k].key_column()->0@ == name
}

/// One copy of the expression for each of the columns `names` that is not a
/// key column, in order, with the column in place of the wildcard.
pub open spec fn expand_wildcard(expr: Expr, names: Seq<String>, keys: Seq<Expr>) -> Seq<Expr>
    decreases names.len(),
{
    if names.len() == 0 {
        Seq::empty()
    } else {
        let prev = expand_wildcard(expr, names.drop_last(), keys);
        if is_key_column(keys, names.last()@) {
            prev
        } else {
            prev.push(expr.with_column_for_wildcard(names.last()))
        }
    }
}

/// The expressions with each one that holds the wildcard replaced by its
/// expansion over the columns `names`.
pub open spec fn rewritten(exprs: Seq<Expr>, names: Seq<String>, keys: Seq<Expr>) -> Seq<Expr>
    decreases exprs.len(),
{
    if exprs.len() == 0 {
        Seq::empty()
    } else {
        let prev = rewritten(exprs.drop_last(), names, keys);
        if exprs.last().contains_wildcard() {
            prev + expand_wildcard(exprs.last(), names, keys)
        } else {
            prev.push(exprs.last())
        }
    }
}

/// Whether no expression holds the wildcard.
pub open spec fn no_wildcards(exprs: Seq<Expr>) -> bool {
    forall|i: int| 0 <= i < exprs.len() ==> !(#[trigger] exprs[i]).contains_wildcard()
}

/// An expression in which a column has taken the place of the wildcard
/// holds no wildcard.
pub proof fn lemma_replaced_has_no_wildcard(expr: Expr, name: String)
    ensures
        !expr.with_column_for_wildcard(name).contains_wildcard(),
    decreases expr,
{
    match expr {
        Expr::Alias(e, _) => lemma_replaced_has_no_wildcard(*e, name),
        Expr::BinaryExpr { left, op, right } => {
            lemma_replaced_has_no_wildcard(*left, name);
            lemma_replaced_has_no_wildcard(*right, name);
        },
        Expr::Not(e) => lemma_replaced_has_no_wildcard(*e, name),
        Expr::IsNotNull(e) => lemma_replaced_has_no_wildcard(*e, name),
        Expr::IsNull(e) => lemma_replaced_has_no_wildcard(*e, name),
        Expr::IsNan(e) => lemma_replaced_has_no_wildcard(*e, name),
        Expr::Cast { expr, data_type } => lemma_replaced_has_no_wildcard(*expr, name),
        Expr::Agg(_, e) => lemma_replaced_has_no_wildcard(*e, name),
        Expr::Ternary { predicate, truthy, falsy } => {
            lemma_replaced_has_no_wildcard(*predicate, name);
            lemma_replaced_has_no_wildcard(*truthy, name);
            lemma_replaced_has_no_wildcard(*falsy, name);
        },
        _ => {},
    }
}

/// No expansion holds the wildcard.
pub proof fn lemma_expansion_has_no_wildcard(expr: Expr, names: Seq<String>, keys: Seq<Expr>)
    ensures
        no_wildcards(expand_wildcard(expr, names, keys)),
    decreases names.len(),
{
    if names.len() > 0 {
        lemma_expansion_has_no_wildcard(expr, names.drop_last(), keys);
        lemma_replaced_has_no_wildcard(expr, names.last());
    }
}

/// After the rewrite no expression holds the wildcard.
pub proof fn lemma_rewritten_has_no_wildcard(exprs: Seq<Expr>, names: Seq<String>, keys: Seq<Expr>)
    ensures
        no_wildcards(rewritten(exprs, names, keys)),
    decreases exprs.len(),
{
    if exprs.len() > 0 {
        lemma_rewritten_has_no_wildcard(exprs.drop_last(), names, keys);
        lemma_expansion_has_no_wildcard(exprs.last(), names, keys);
    }
}

/// Expressions without the wildcard are left as they are.
pub proof fn lemma_rewritten_without_wildcard(exprs: Seq<Expr>, names: Seq<String>, keys: Seq<Expr>)
    requires
        no_wildcards(exprs),
    ensures
        rewritten(exprs, names, keys) == exprs,
    decreases exprs.len(),
{
    if exprs.len() > 0 {
        lemma_rewritten_without_wildcard(exprs.drop_last(), names, keys);
        assert(exprs.drop_last().push(exprs.last()) =~= exprs);
    } else {
        assert(exprs =~= Seq::<Expr>::empty());
    }
}

/// Whether the column `name` is one that the grouping keys stand for.
fn excluded_by_keys(keys: &[Expr], name: &String) -> (r: bool)
    ensures
        r == is_key_column(keys@, name@),
{
    let mut k: usize = 0;
    while k < keys.len()
        invariant
            k <= keys@.len(),
            forall|j: int|
                0 <= j < k ==> !((#[trigger] keys@[j]).key_column() is Some
                    && keys@[j].key_column()->0@ == name@),
        decreases keys@.len() - k,
    {
        match keys[k].key_column_name() {
            Some(c) => {
                if *c == *name {
                    return true;
                }
            },
            None => {},
        }
        k += 1;
    }
    false
}

/// Replaces each expression that holds the wildcard by one copy per column
/// of the schema, with the column in place of the wildcard. The columns that
/// the keys stand for are left out.
pub fn rewrite_projections(exprs: Vec<Expr>, schema: &Schema, keys: &[Expr]) -> (r: Vec<Expr>)
    ensures
        r@ == rewritten(exprs@, schema.spec_names(), keys@),
        no_wildcards(r@),
{
    let fields = schema.fields();
    let ghost names = schema.spec_names();
    let mut result: Vec<Expr> = Vec::new();
    let n = exprs.len();
    let mut i: usize = 0;
    assert(exprs@.take(0) =~= Seq::<Expr>::empty());
    while i < n
        invariant
            i <= n,
            n == exprs@.len(),
            names == schema.spec_names(),
            crate::datatypes::field::names_of(fields@) == names,
            result@ == rewritten(exprs@.take(i as int), names, keys@),
        decreases n - i,
    {
        let expr = &exprs[i];
        assert(exprs@.take(i + 1).drop_last() =~= exprs@.take(i as int));
        assert(exprs@.take(i + 1).last() == *expr);
        if expr.has_wildcard() {
            let ghost before = result@;
            let m = fields.len();
            let mut j: usize = 0;
            assert(names.take(0) =~= Seq::<String>::empty());
            assert(before + Seq::<Expr>::empty() =~= before);
            while j < m
                invariant
                    j <= m,
                    m == fields@.len(),
                    m == names.len(),
                    crate::datatypes::field::names_of(fields@) == names,
                    result@ == before + expand_wildcard(*expr, names.take(j as int), keys@),
                decreases m - j,
            {
                let name = fields[j].name();
                assert(*name == names[j as int]);
                assert(names.take(j + 1).drop_last() =~= names.take(j as int));
                assert(names.take(j + 1).last() == *name);
                if !excluded_by_keys(keys, name) {
                    let new_expr = expr.clone().replace_wildcard_with_column(name);
                    result.push(new_expr);
                    assert(result@ =~= before + expand_wildcard(
                        *expr,
                        names.take(j + 1),
                        keys@,
                    ));
                }
                j += 1;
            }
            assert(names.take(m as int) =~= names);
        } else {
            result.push(expr.clone());
        }
        i += 1;
    }
    assert(exprs@.take(n as int) =~= exprs@);
    proof {
        lemma_rewritten_has_no_wildcard(exprs@, names, keys@);
    }
    result
}

} // verus!
