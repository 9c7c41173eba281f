//! An ordered list of fields that describes the columns of a frame.

use crate::datatypes::field::{field_names, fields_view, names_of, Field, FieldView};
use crate::error::{PolarsError, Result};
use crate::text::{debug_list, debug_list_text, str_eq};
use vstd::prelude::*;

verus! {

/// Whether `i` is the first position at which `name` occurs among `names`.
pub open spec fn is_first_position(names: Seq<Seq<char>>, name: Seq<char>, i: int) -> bool {
    &&& 0 <= i < names.len()
    &&& names[i] == name
    &&& forall|j: int| 0 <= j < i ==> names[j] != name
}

/// The first position at or after `start` at which `name` occurs.
pub open spec fn position_from(names: Seq<Seq<char>>, name: Seq<char>, start: int) -> Option<int>
    decreases names.len() - start,
{
    if start < 0 || start >= names.len() {
        None
    } else if names[start] == name {
        Some(start)
    } else {
        position_from(names, name, start + 1)
    }
}

/// The first position at which `name` occurs among `names`, if it occurs.
pub open spec fn position(names: Seq<Seq<char>>, name: Seq<char>) -> Option<int> {
    position_from(names, name, 0)
}

/// The message of the error for a name that no field has.
pub open spec fn not_found_message(name: Seq<char>, names: Seq<Seq<char>>) -> Seq<char> {
    "Unable to get field named \""@ + name + "\". Valid fields: "@ + debug_list_text(names)
}

/// `position_from` finds the first occurrence at or after `start`, and finds
/// none exactly when there is none.
pub proof fn lemma_position_from(names: Seq<Seq<char>>, name: Seq<char>, start: int)
    requires
        0 <= start,
    ensures
        match position_from(names, name, start) {
            Some(i) => start <= i < names.len() && names[i] == name && forall|j: int|
                start <= j < i ==> names[j] != name,
            None => forall|j: int| start <= j < names.len() ==> names[j] != name,
        },
    decreases names.len() - start,
{
    if start < names.len() && names[start] != name {
        lemma_position_from(names, name, start + 1);
    }
}

/// `position` returns the first occurrence, and `None` exactly when the name
/// does not occur.
pub proof fn lemma_position(names: Seq<Seq<char>>, name: Seq<char>)
    ensures
        match position(names, name) {
            Some(i) => is_first_position(names, name, i),
            None => forall|j: int| 0 <= j < names.len() ==> names[j] != name,
        },
        forall|i: int| is_first_position(names, name, i) ==> position(names, name) == Some(i),
{
    lemma_position_from(names, name, 0);
}

/// The contents of a sequence of string slices.
pub open spec fn strs_view(strs: Seq<&str>) -> Seq<Seq<char>> {
    Seq::new(strs.len(), |i: int| strs[i]@)
}

/// The contents of a sequence of strings.
pub open spec fn strings_view(strings: Seq<String>) -> Seq<Seq<char>> {
    Seq::new(strings.len(), |i: int| strings[i]@)
}

/// The fields after the first `k` renames: for each pair of an old and a new
/// name, in order, the field that the old name selects in `base` gets the
/// new name and keeps its data type.
pub open spec fn renamed(
    base: Seq<FieldView>,
    old_names: Seq<Seq<char>>,
    new_names: Seq<Seq<char>>,
    k: int,
) -> Seq<FieldView>
    decreases k,
{
    if k <= 0 || k > old_names.len() || k > new_names.len() {
        base
    } else {
        let prev = renamed(base, old_names, new_names, k - 1);
        match position(field_names(base), old_names[k - 1]) {
            Some(i) => prev.update(
                i,
                FieldView { name: new_names[k - 1], data_type: prev[i].data_type },
            ),
            None => prev,
        }
    }
}

/// Renaming keeps the number of the fields and the data type of each.
pub proof fn lemma_renamed(
    base: Seq<FieldView>,
    old_names: Seq<Seq<char>>,
    new_names: Seq<Seq<char>>,
    k: int,
)
    ensures
        renamed(base, old_names, new_names, k).len() == base.len(),
        forall|i: int|
            0 <= i < base.len() ==> (#[trigger] renamed(base, old_names, new_names, k)[i]).data_type
                == base[i].data_type,
        forall|i: int|
            0 <= i < base.len() && (forall|j: int|
                0 <= j < k && j < old_names.len() ==> position(
                    field_names(base),
                    #[trigger] old_names[j],
                ) != Some(i)) ==> (#[trigger] renamed(base, old_names, new_names, k)[i]) == base[i],
    decreases k,
{
    if !(k <= 0 || k > old_names.len() || k > new_names.len()) {
        lemma_renamed(base, old_names, new_names, k - 1);
        lemma_position(field_names(base), old_names[k - 1]);
        let prev = renamed(base, old_names, new_names, k - 1);
        assert forall|i: int|
            0 <= i < base.len() && (forall|j: int|
                0 <= j < k && j < old_names.len() ==> position(
                    field_names(base),
                    #[trigger] old_names[j],
                ) != Some(i)) implies (#[trigger] renamed(base, old_names, new_names, k)[i])
            == base[i] by {
            assert(position(field_names(base), old_names[k - 1]) != Some(i));
            assert(prev[i] == base[i]);
        }
    }
}

/// Whether `k` is the first of the names `wanted` that does not occur among
/// `names`.
pub open spec fn is_first_missing(names: Seq<Seq<char>>, wanted: Seq<Seq<char>>, k: int) -> bool {
    &&& 0 <= k < wanted.len()
    &&& position(names, wanted[k]) is None
    &&& forall|j: int| 0 <= j < k ==> position(names, #[trigger] wanted[j]) is Some
}

/// Whether some field of `fields` has the name `name`.
pub open spec fn has_name(fields: Seq<FieldView>, name: Seq<char>) -> bool {
    exists|i: int| 0 <= i < fields.len() && #[trigger] fields[i].name == name
}

/// `acc`, followed by each field of `fields` whose name no earlier field has,
/// in order.
pub open spec fn merge_fields(acc: Seq<FieldView>, fields: Seq<FieldView>) -> Seq<FieldView>
    decreases fields.len(),
{
    if fields.len() == 0 {
        acc
    } else {
        let prev = merge_fields(acc, fields.drop_last());
        if has_name(prev, fields.last().name) {
            prev
        } else {
            prev.push(fields.last())
        }
    }
}

/// The union of the schemas: every field whose name no earlier field has, in
/// order of first appearance.
pub open spec fn merge_schemas(schemas: Seq<Seq<FieldView>>) -> Seq<FieldView>
    decreases schemas.len(),
{
    if schemas.len() == 0 {
        Seq::empty()
    } else {
        merge_fields(merge_schemas(schemas.drop_last()), schemas.last())
    }
}

/// Whether no two fields have the same name.
pub open spec fn names_distinct(fields: Seq<FieldView>) -> bool {
    forall|i: int, j: int|
        0 <= i < j < fields.len() ==> (#[trigger] fields[i]).name != (#[trigger] fields[j]).name
}

/// Whether no field before the field `j` of the schema `k` has its name:
/// none of an earlier schema and no earlier field of the same schema.
pub open spec fn is_first_occurrence(schemas: Seq<Seq<FieldView>>, k: int, j: int) -> bool {
    &&& forall|a: int, b: int|
        0 <= a < k && 0 <= b < schemas[a].len() ==> (#[trigger] schemas[a][b]).name
            != schemas[k][j].name
    &&& forall|b: int| 0 <= b < j ==> (#[trigger] schemas[k][b]).name != schemas[k][j].name
}

/// Whether the field is a field of one of the schemas.
pub open spec fn occurs_in(schemas: Seq<Seq<FieldView>>, f: FieldView) -> bool {
    exists|k: int, j: int|
        0 <= k < schemas.len() && 0 <= j < schemas[k].len() && #[trigger] schemas[k][j] == f
}

/// What merging more fields into a list does: the list stays in front; the
/// names stay different if they were; the names of the result are those of
/// both inputs; a field whose name is new and occurs for the first time is
/// taken; and nothing is taken that is not among the new fields.
pub proof fn lemma_merge_fields(acc: Seq<FieldView>, fields: Seq<FieldView>)
    ensures
        acc.is_prefix_of(merge_fields(acc, fields)),
        names_distinct(acc) ==> names_distinct(merge_fields(acc, fields)),
        forall|n: Seq<char>|
            has_name(merge_fields(acc, fields), n) <==> (has_name(acc, n) || has_name(fields, n)),
        forall|j: int|
            0 <= j < fields.len() && !has_name(acc, (#[trigger] fields[j]).name) && (forall|b: int|
                0 <= b < j ==> (#[trigger] fields[b]).name != fields[j].name) ==> merge_fields(
                acc,
                fields,
            ).contains(fields[j]),
        forall|i: int|
            acc.len() <= i < merge_fields(acc, fields).len() ==> fields.contains(
                #[trigger] merge_fields(acc, fields)[i],
            ),
    decreases fields.len(),
{
    let r = merge_fields(acc, fields);
    if fields.len() == 0 {
        assert forall|n: Seq<char>| has_name(r, n) <==> (has_name(acc, n) || has_name(fields, n)) by {
            if has_name(fields, n) {
                let i = choose|i: int| 0 <= i < fields.len() && #[trigger] fields[i].name == n;
            }
        }
    } else {
        let init = fields.drop_last();
        let last = fields.last();
        let prev = merge_fields(acc, init);
        lemma_merge_fields(acc, init);
        let taken = !has_name(prev, last.name);
        assert forall|n: Seq<char>| has_name(r, n) <==> (has_name(acc, n) || has_name(fields, n)) by {
            if has_name(r, n) {
                let i = choose|i: int| 0 <= i < r.len() && #[trigger] r[i].name == n;
                if i < prev.len() {
                    assert(prev[i].name == n);
                    assert(has_name(prev, n));
                    if has_name(init, n) {
                        let b = choose|b: int| 0 <= b < init.len() && #[trigger] init[b].name == n;
                        assert(fields[b].name == n);
                    }
                } else {
                    assert(fields[fields.len() - 1].name == n);
                }
            }
            if has_name(acc, n) {
                assert(has_name(prev, n));
                let i = choose|i: int| 0 <= i < prev.len() && #[trigger] prev[i].name == n;
                assert(r[i].name == n);
            }
            if has_name(fields, n) {
                let b = choose|b: int| 0 <= b < fields.len() && #[trigger] fields[b].name == n;
                if b < init.len() {
                    assert(init[b].name == n);
                    assert(has_name(prev, n));
                    let i = choose|i: int| 0 <= i < prev.len() && #[trigger] prev[i].name == n;
                    assert(r[i].name == n);
                } else if taken {
                    assert(r[r.len() - 1].name == n);
                } else {
                    let i = choose|i: int| 0 <= i < prev.len() && #[trigger] prev[i].name == n;
                    assert(r[i].name == n);
                }
            }
        }
        if names_distinct(acc) {
            assert forall|i: int, j: int| 0 <= i < j < r.len() implies (#[trigger] r[i]).name != (
            #[trigger] r[j]).name by {
                if j < prev.len() {
                    assert(prev[i].name != prev[j].name);
                } else {
                    assert(prev[i].name != last.name);
                }
            }
        }
        assert forall|j: int|
            0 <= j < fields.len() && !has_name(acc, (#[trigger] fields[j]).name) && (forall|b: int|
                0 <= b < j ==> (#[trigger] fields[b]).name != fields[j].name) implies r.contains(
            fields[j],
        ) by {
            if j < init.len() {
                assert(init[j] == fields[j]);
                assert forall|b: int| 0 <= b < j implies (#[trigger] init[b]).name
                    != init[j].name by {
                    assert(fields[b].name != fields[j].name);
                }
                assert(prev.contains(init[j]));
                let i = choose|i: int| 0 <= i < prev.len() && prev[i] == init[j];
                assert(r[i] == fields[j]);
            } else {
                if has_name(prev, last.name) {
                    if has_name(init, last.name) {
                        let b = choose|b: int|
                            0 <= b < init.len() && #[trigger] init[b].name == last.name;
                        assert(fields[b].name == last.name);
                    }
                    assert(false);
                }
                assert(r[r.len() - 1] == fields[j]);
            }
        }
        assert forall|i: int| acc.len() <= i < r.len() implies fields.contains(#[trigger] r[i]) by {
            if i < prev.len() {
                assert(init.contains(prev[i]));
                let b = choose|b: int| 0 <= b < init.len() && init[b] == prev[i];
                assert(fields[b] == r[i]);
            } else {
                assert(fields[fields.len() - 1] == r[i]);
            }
        }
    }
}

/// What the union of schemas keeps: no two fields of the union have one
/// name; every name of an input is a name of the union; a field is in the
/// union exactly if it is the first of the inputs with its name, so that the
/// leftmost field of a name wins; and the union of the first schemas stays
/// in front when more schemas follow.
#[verifier::rlimit(80)]
#[verifier::spinoff_prover]
pub proof fn lemma_merge_schemas(schemas: Seq<Seq<FieldView>>)
    ensures
        names_distinct(merge_schemas(schemas)),
        forall|k: int, j: int|
            0 <= k < schemas.len() && 0 <= j < schemas[k].len() ==> has_name(
                merge_schemas(schemas),
                (#[trigger] schemas[k][j]).name,
            ),
        forall|k: int, j: int|
            0 <= k < schemas.len() && 0 <= j < schemas[k].len() && is_first_occurrence(
                schemas,
                k,
                j,
            ) ==> merge_schemas(schemas).contains(#[trigger] schemas[k][j]),
        forall|i: int|
            0 <= i < merge_schemas(schemas).len() ==> occurs_in(
                schemas,
                #[trigger] merge_schemas(schemas)[i],
            ),
        schemas.len() > 0 ==> merge_schemas(schemas.drop_last()).is_prefix_of(
            merge_schemas(schemas),
        ),
    decreases schemas.len(),
{
    let r = merge_schemas(schemas);
    if schemas.len() > 0 {
        let init = schemas.drop_last();
        let last = schemas.last();
        let prev = merge_schemas(init);
        let top = schemas.len() - 1;
        lemma_merge_schemas(init);
        lemma_merge_fields(prev, last);
        assert forall|k: int, j: int|
            0 <= k < schemas.len() && 0 <= j < schemas[k].len() implies has_name(
            r,
            (#[trigger] schemas[k][j]).name,
        ) by {
            if k < top {
                assert(init[k][j] == schemas[k][j]);
                assert(has_name(prev, init[k][j].name));
            } else {
                assert(last[j].name == schemas[k][j].name);
                assert(has_name(last, schemas[k][j].name));
            }
        }
        assert forall|k: int, j: int|
            0 <= k < schemas.len() && 0 <= j < schemas[k].len() && is_first_occurrence(
                schemas,
                k,
                j,
            ) implies r.contains(#[trigger] schemas[k][j]) by {
            if k < top {
                assert(init[k] == schemas[k]);
                assert forall|a: int, b: int| 0 <= a < k && 0 <= b < init[a].len() implies (
                #[trigger] init[a][b]).name != init[k][j].name by {
                    assert(schemas[a][b].name != schemas[k][j].name);
                }
                assert(is_first_occurrence(init, k, j));
                assert(prev.contains(init[k][j]));
                let i = choose|i: int| 0 <= i < prev.len() && prev[i] == init[k][j];
                assert(r[i] == schemas[k][j]);
            } else {
                if has_name(prev, last[j].name) {
                    let i = choose|i: int|
                        0 <= i < prev.len() && #[trigger] prev[i].name == last[j].name;
                    assert(occurs_in(init, prev[i]));
                    let (a, b) = choose|a: int, b: int|
                        0 <= a < init.len() && 0 <= b < init[a].len() && #[trigger] init[a][b]
                            == prev[i];
                    assert(schemas[a][b].name == schemas[k][j].name);
                    assert(false);
                }
                assert(r.contains(last[j]));
            }
        }
        assert forall|i: int| 0 <= i < r.len() implies occurs_in(schemas, #[trigger] r[i]) by {
            if i < prev.len() {
                assert(r[i] == prev[i]);
                assert(occurs_in(init, prev[i]));
                let (k, j) = choose|k: int, j: int|
                    0 <= k < init.len() && 0 <= j < init[k].len() && #[trigger] init[k][j]
                        == prev[i];
                assert(schemas[k][j] == r[i]);
            } else {
                assert(last.contains(r[i]));
                let j = choose|j: int| 0 <= j < last.len() && last[j] == r[i];
                assert(schemas[top][j] == r[i]);
            }
        }
    }
}

/// The models of a sequence of schemas, in order.
pub open spec fn schemas_view(schemas: Seq<Schema>) -> Seq<Seq<FieldView>> {
    Seq::new(schemas.len(), |i: int| schemas[i]@)
}

/// Copies a list of fields.
fn clone_fields(fields: &Vec<Field>) -> (r: Vec<Field>)
    ensures
        r@ == fields@,
{
    let n = fields.len();
    let mut out: Vec<Field> = Vec::new();
    let mut i: usize = 0;
    while i < n
        invariant
            i <= n,
            n == fields@.len(),
            out@ == fields@.take(i as int),
        decreases n - i,
    {
        out.push(fields[i].clone());
        assert(fields@.take(i as int).push(fields@[i as int]) =~= fields@.take(i + 1));
        i += 1;
    }
    assert(fields@.take(n as int) =~= fields@);
    out
}

/// A list of columns: their names and data types, in order.
#[derive(Debug, Hash)]
pub struct Schema {
    fields: Vec<Field>,
}

impl View for Schema {
    type V = Seq<FieldView>;

    closed spec fn view(&self) -> Seq<FieldView> {
        fields_view(self.fields@)
    }
}

impl Clone for Schema {
    fn clone(&self) -> (r: Self)
        ensures
            r@ == self@,
    {
        Schema { fields: clone_fields(&self.fields) }
    }
}

impl Default for Schema {
    fn default() -> (r: Self)
        ensures
            r@ == Seq::<FieldView>::empty(),
    {
        let r = Schema { fields: Vec::new() };
        assert(r@ =~= Seq::<FieldView>::empty());
        r
    }
}

impl PartialEq for Schema {
    fn eq(&self, other: &Self) -> (r: bool) {
        let n = self.fields.len();
        if n != other.fields.len() {
            assert(self@.len() != other@.len());
            return false;
        }
        let mut i: usize = 0;
        while i < n
            invariant
                i <= n,
                n == self.fields@.len(),
                n == other.fields@.len(),
                forall|j: int| 0 <= j < i ==> self@[j] == other@[j],
            decreases n - i,
        {
            if self.fields[i] != other.fields[i] {
                assert(self@[i as int] != other@[i as int]);
                return false;
            }
            i += 1;
        }
        assert(self@ =~= other@);
        true
    }
}

impl vstd::std_specs::cmp::PartialEqSpecImpl for Schema {
    open spec fn obeys_eq_spec() -> bool {
        true
    }

    open spec fn eq_spec(&self, other: &Self) -> bool {
        self@ == other@
    }
}

impl Schema {
    /// Returns the schema with some fields renamed.
    ///
    /// Each old name selects the first field of this schema that has it. The
    /// pairs of an old and a new name are applied in order; names without a
    /// partner are looked up and otherwise ignored. If any old name is
    /// missing, nothing is renamed and the error is that of the first missing
    /// name.
    pub fn rename(&self, old_names: &[&str], new_names: &[&str]) -> (r: Result<Schema>)
        ensures
            match r {
                Ok(s) => {
                    &&& forall|j: int|
                        0 <= j < old_names@.len() ==> position(
                            field_names(self@),
                            #[trigger] strs_view(old_names@)[j],
                        ) is Some
                    &&& s@ == renamed(
                        self@,
                        strs_view(old_names@),
                        strs_view(new_names@),
                        if old_names@.len() <= new_names@.len() {
                            old_names@.len() as int
                        } else {
                            new_names@.len() as int
                        },
                    )
                },
                Err(e) => exists|k: int|
                    {
                        &&& is_first_missing(field_names(self@), strs_view(old_names@), k)
                        &&& e matches PolarsError::NotFound(m)
                        &&& m@ == not_found_message(
                            #[trigger] strs_view(old_names@)[k],
                            field_names(self@),
                        )
                    },
            },
    {
        let ghost names = field_names(self@);
        let ghost olds = strs_view(old_names@);
        let ghost news = strs_view(new_names@);
        let n_old = old_names.len();
        let mut idx: Vec<usize> = Vec::new();
        let mut k: usize = 0;
        while k < n_old
            invariant
                k <= n_old,
                n_old == old_names@.len(),
                names == field_names(self@),
                olds == strs_view(old_names@),
                idx@.len() == k,
                forall|j: int| 0 <= j < k ==> position(names, #[trigger] olds[j]) == Some(idx@[j] as int),
            decreases n_old - k,
        {
            match self.index_of(old_names[k]) {
                Ok(i) => {
                    idx.push(i);
                },
                Err(e) => {
                    assert(is_first_missing(names, olds, k as int));
                    return Err(e);
                },
            }
            k += 1;
        }
        let mut new_fields = clone_fields(&self.fields);
        let n = if n_old <= new_names.len() {
            n_old
        } else {
            new_names.len()
        };
        let mut k: usize = 0;
        while k < n
            invariant
                k <= n,
                n <= n_old,
                n <= new_names@.len(),
                n_old == old_names@.len(),
                idx@.len() == n_old,
                names == field_names(self@),
                olds == strs_view(old_names@),
                news == strs_view(new_names@),
                forall|j: int| 0 <= j < n_old ==> position(names, #[trigger] olds[j]) == Some(idx@[j] as int),
                new_fields@.len() == self@.len(),
                fields_view(new_fields@) == renamed(self@, olds, news, k as int),
            decreases n - k,
        {
            let i = idx[k];
            proof {
                lemma_position(names, olds[k as int]);
            }
            let dt = new_fields[i].data_type().clone();
            let ghost before = fields_view(new_fields@);
            new_fields.set(i, Field::new(new_names[k], dt));
            assert(fields_view(new_fields@) =~= before.update(
                i as int,
                FieldView { name: news[k as int], data_type: before[i as int].data_type },
            ));
            k += 1;
        }
        Ok(Schema::new(new_fields))
    }

    /// Unions the fields of the schemas by name: a field is taken unless an
    /// earlier field, of this or of an earlier schema, has its name. The
    /// earlier field keeps its data type.
    pub fn try_merge(schemas: &[Schema]) -> (r: Result<Schema>)
        ensures
            r matches Ok(s) && s@ == merge_schemas(schemas_view(schemas@)),
    {
        let mut merged: Vec<Field> = Vec::new();
        let ghost all = schemas_view(schemas@);
        let mut a: usize = 0;
        assert(fields_view(merged@) =~= merge_schemas(all.take(0)));
        while a < schemas.len()
            invariant
                a <= schemas@.len(),
                all == schemas_view(schemas@),
                fields_view(merged@) == merge_schemas(all.take(a as int)),
            decreases schemas@.len() - a,
        {
            let schema = &schemas[a];
            let ghost start = fields_view(merged@);
            let ghost these = schema@;
            let n = schema.fields.len();
            let mut b: usize = 0;
            assert(these.take(0) =~= Seq::<FieldView>::empty());
            while b < n
                invariant
                    b <= n,
                    n == schema.fields@.len(),
                    these == schema@,
                    fields_view(merged@) == merge_fields(start, these.take(b as int)),
                decreases n - b,
            {
                let field = &schema.fields[b];
                let ghost before = fields_view(merged@);
                let m = merged.len();
                let mut new_field = true;
                let mut c: usize = 0;
                while c < m
                    invariant
                        c <= m,
                        m == merged@.len(),
                        before == fields_view(merged@),
                        new_field <==> forall|j: int| 0 <= j < c ==> before[j].name != field@.name,
                    decreases m - c,
                {
                    assert(before[c as int] == merged@[c as int]@);
                    if *field.name() == *merged[c].name() {
                        new_field = false;
                    }
                    c += 1;
                }
                assert(these.take(b + 1).drop_last() =~= these.take(b as int));
                assert(these.take(b + 1).last() == field@);
                if new_field {
                    merged.push(field.clone());
                    assert(fields_view(merged@) =~= before.push(field@));
                }
                b += 1;
            }
            assert(these.take(n as int) =~= these);
            assert(all.take(a + 1).drop_last() =~= all.take(a as int));
            assert(all.take(a + 1).last() == these);
            a += 1;
        }
        assert(all.take(schemas@.len() as int) =~= all);
        Ok(Schema::new(merged))
    }

    /// Creates a schema from its fields.
    pub fn new(fields: Vec<Field>) -> (r: Self)
        ensures
            r@ == fields_view(fields@),
    {
        Schema { fields }
    }

    /// The number of fields.
    pub fn len(&self) -> (r: usize)
        ensures
            r == self@.len(),
    {
        self.fields.len()
    }

    /// Whether the schema has no field.
    pub fn is_empty(&self) -> (r: bool)
        ensures
            r == (self@.len() == 0),
    {
        self.fields.len() == 0
    }

    /// The names of the fields, as the strings that are stored.
    pub closed spec fn spec_names(self) -> Seq<String> {
        names_of(self.fields@)
    }

    /// The stored names spell the names of the model.
    pub proof fn lemma_spec_names(self)
        ensures
            self.spec_names().len() == self@.len(),
            forall|i: int| 0 <= i < self@.len() ==> (#[trigger] self.spec_names()[i])@ == self@[i].name,
    {
        assert forall|i: int| 0 <= i < self@.len() implies (#[trigger] self.spec_names()[i])@
            == self@[i].name by {
            self.fields@[i].lemma_spec_name();
        }
    }

    /// Returns an immutable reference of the vector of `Field` instances.
    pub fn fields(&self) -> (r: &Vec<Field>)
        ensures
            fields_view(r@) == self@,
            names_of(r@) == self.spec_names(),
    {
        &self.fields
    }

    /// Returns a mutable reference of the vector of `Field` instances.
    pub fn fields_mut(&mut self) -> (r: &mut Vec<Field>)
        ensures
            fields_view(r@) == old(self)@,
            final(self)@ == fields_view(final(r)@),
    {
        &mut self.fields
    }

    /// The names of the fields, in order.
    pub fn names(&self) -> (r: Vec<String>)
        ensures
            strings_view(r@) == field_names(self@),
    {
        let n = self.fields.len();
        let mut out: Vec<String> = Vec::new();
        let mut i: usize = 0;
        while i < n
            invariant
                i <= n,
                n == self.fields@.len(),
                out@.len() == i,
                forall|j: int| 0 <= j < i ==> (#[trigger] out@[j])@ == self@[j].name,
            decreases n - i,
        {
            out.push(self.fields[i].name().clone());
            i += 1;
        }
        assert(strings_view(out@) =~= field_names(self@));
        out
    }

    /// Gives the fields new names, in order; the data types stay.
    pub fn set_names(&mut self, new_names: Vec<String>)
        requires
            new_names@.len() == old(self)@.len(),
        ensures
            final(self)@.len() == old(self)@.len(),
            forall|i: int|
                0 <= i < old(self)@.len() ==> (#[trigger] final(self)@[i]) == (FieldView {
                    name: new_names@[i]@,
                    data_type: old(self)@[i].data_type,
                }),
    {
        let n = self.fields.len();
        let mut names = new_names;
        let ghost wanted = names@;
        let mut i: usize = n;
        // The names are taken from the back.
        while i > 0
            invariant
                i <= n,
                n == self.fields@.len(),
                n == old(self)@.len(),
                n == wanted.len(),
                names@ == wanted.take(i as int),
                forall|j: int| 0 <= j < i ==> (#[trigger] self@[j]) == old(self)@[j],
                forall|j: int|
                    i <= j < n ==> (#[trigger] self@[j]) == (FieldView {
                        name: wanted[j]@,
                        data_type: old(self)@[j].data_type,
                    }),
            decreases i,
        {
            let name = names.pop().unwrap();
            i -= 1;
            assert(name == wanted[i as int]);
            let ghost before = self@;
            assert(before[i as int] == old(self)@[i as int]);
            let mut field = self.fields[i].clone();
            assert(field@ == before[i as int]);
            field.set_name(name);
            self.fields.set(i, field);
            assert(self@ =~= before.update(i as int, field@));
            assert(names@ =~= wanted.take(i as int));
            assert forall|j: int| i <= j < n implies (#[trigger] self@[j]) == (FieldView {
                name: wanted[j]@,
                data_type: old(self)@[j].data_type,
            }) by {
                if j > i {
                    assert(self@[j] == before[j]);
                }
            }
        }
    }

    /// Returns an immutable reference of a specific `Field` instance selected
    /// using an offset within the internal `fields` vector.
    pub fn field(&self, i: usize) -> (r: Option<&Field>)
        ensures
            match r {
                Some(f) => i < self@.len() && f@ == self@[i as int],
                None => i >= self@.len(),
            },
    {
        if i < self.fields.len() {
            Some(&self.fields[i])
        } else {
            None
        }
    }

    /// Find the index of the column with the given name.
    ///
    /// The error for a name that no field has lists the names of all fields.
    pub fn index_of(&self, name: &str) -> (r: Result<usize>)
        ensures
            match r {
                Ok(i) => position(field_names(self@), name@) == Some(i as int),
                Err(e) => {
                    &&& position(field_names(self@), name@) is None
                    &&& e matches PolarsError::NotFound(m)
                    &&& m@ == not_found_message(name@, field_names(self@))
                },
            },
    {
        proof {
            lemma_position(field_names(self@), name@);
        }
        let n = self.fields.len();
        let mut i: usize = 0;
        while i < n
            invariant
                i <= n,
                n == self.fields@.len(),
                forall|j: int| 0 <= j < i ==> field_names(self@)[j] != name@,
            decreases n - i,
        {
            if str_eq(self.fields[i].name().as_str(), name) {
                proof {
                    lemma_position(field_names(self@), name@);
                }
                assert(is_first_position(field_names(self@), name@, i as int));
                return Ok(i);
            }
            i += 1;
        }
        let mut valid_fields: Vec<String> = Vec::new();
        let mut k: usize = 0;
        while k < n
            invariant
                k <= n,
                n == self.fields@.len(),
                valid_fields@.len() == k,
                forall|j: int| 0 <= j < k ==> valid_fields@[j]@ == field_names(self@)[j],
            decreases n - k,
        {
            valid_fields.push(self.fields[k].name().clone());
            k += 1;
        }
        assert(valid_fields.deep_view() =~= field_names(self@));
        let listed = debug_list(&valid_fields);
        let mut msg = String::from_str("Unable to get field named \"");
        msg.append(name);
        msg.append("\". Valid fields: ");
        msg.append(listed.as_str());
        Err(PolarsError::NotFound(msg))
    }

    /// Returns an immutable reference of a specific `Field` instance selected
    /// by name.
    pub fn field_with_name(&self, name: &str) -> (r: Result<&Field>)
        ensures
            match r {
                Ok(f) => position(field_names(self@), name@) matches Some(i) && f@ == self@[i],
                Err(e) => {
                    &&& position(field_names(self@), name@) is None
                    &&& e matches PolarsError::NotFound(m)
                    &&& m@ == not_found_message(name@, field_names(self@))
                },
            },
    {
        proof {
            lemma_position(field_names(self@), name@);
        }
        match self.index_of(name) {
            Ok(i) => Ok(&self.fields[i]),
            Err(e) => Err(e),
        }
    }

    /// The first field with the given name, with its index.
    pub fn column_with_name(&self, name: &str) -> (r: Option<(usize, &Field)>)
        ensures
            match r {
                Some((i, f)) => position(field_names(self@), name@) == Some(i as int) && f@
                    == self@[i as int],
                None => position(field_names(self@), name@) is None,
            },
    {
        proof {
            lemma_position(field_names(self@), name@);
        }
        let n = self.fields.len();
        let mut i: usize = 0;
        while i < n
            invariant
                i <= n,
                n == self.fields@.len(),
                forall|j: int| 0 <= j < i ==> field_names(self@)[j] != name@,
            decreases n - i,
        {
            if str_eq(self.fields[i].name().as_str(), name) {
                proof {
                    lemma_position(field_names(self@), name@);
                }
                assert(is_first_position(field_names(self@), name@, i as int));
                return Some((i, &self.fields[i]));
            }
            i += 1;
        }
        None
    }
}

} // verus!
