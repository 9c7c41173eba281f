//! The table of the strings of categorical columns. A table only grows: an
//! index that it has handed out stands for the same string for good.

use crate::datatypes::any_value::RevMapping;
use crate::datatypes::schema::{is_first_position, lemma_position, position, strings_view};
use crate::text::str_eq;
use vstd::prelude::*;

verus! {

/// Whether no string occurs twice.
pub open spec fn all_distinct(strings: Seq<Seq<char>>) -> bool {
    forall|i: int, j: int| 0 <= i < j < strings.len() ==> strings[i] != strings[j]
}

/// A table that gives each string one index. Tables are told apart by their
/// identity.
#[derive(Debug)]
pub struct StringCache {
    id: u128,
    strings: Vec<String>,
}

impl View for StringCache {
    type V = Seq<Seq<char>>;

    /// The strings of the table, by index.
    closed spec fn view(&self) -> Seq<Seq<char>> {
        strings_view(self.strings@)
    }
}

impl StringCache {
    #[verifier::type_invariant]
    spec fn well_formed(self) -> bool {
        all_distinct(strings_view(self.strings@)) && self.strings@.len() <= u32::MAX
    }

    /// The identity of the table.
    pub closed spec fn spec_id(self) -> u128 {
        self.id
    }

    /// Creates an empty table with the given identity.
    pub fn new(id: u128) -> (r: Self)
        ensures
            r@.len() == 0,
            r.spec_id() == id,
    {
        StringCache { id, strings: Vec::new() }
    }

    /// The identity of the table.
    pub fn id(&self) -> (r: u128)
        ensures
            r == self.spec_id(),
    {
        self.id
    }

    /// The number of strings. No string occurs twice among them.
    pub fn len(&self) -> (r: u32)
        ensures
            r == self@.len(),
            all_distinct(self@),
    {
        proof {
            use_type_invariant(self);
        }
        self.strings.len() as u32
    }

    /// Whether the table holds no string.
    pub fn is_empty(&self) -> (r: bool)
        ensures
            r == (self@.len() == 0),
    {
        self.strings.len() == 0
    }

    /// The string that the index stands for, if the table has handed the
    /// index out.
    pub fn get(&self, idx: u32) -> (r: Option<&String>)
        ensures
            match r {
                Some(s) => idx < self@.len() && s@ == self@[idx as int],
                None => idx >= self@.len(),
            },
    {
        if (idx as usize) < self.strings.len() {
            Some(&self.strings[idx as usize])
        } else {
            None
        }
    }

    /// The index of the string, if the table holds it.
    pub fn index_of(&self, s: &str) -> (r: Option<u32>)
        ensures
            match r {
                Some(i) => position(self@, s@) == Some(i as int),
                None => position(self@, s@) is None,
            },
    {
        proof {
            use_type_invariant(self);
            lemma_position(self@, s@);
        }
        let n = self.strings.len();
        let mut i: usize = 0;
        while i < n
            invariant
                i <= n,
                n == self.strings@.len(),
                n <= u32::MAX,
                forall|j: int| 0 <= j < i ==> self@[j] != s@,
            decreases n - i,
        {
            if str_eq(self.strings[i].as_str(), s) {
                proof {
                    lemma_position(self@, s@);
                }
                assert(is_first_position(self@, s@, i as int));
                return Some(i as u32);
            }
            i += 1;
        }
        None
    }

    /// The index of the string, which is added at the end if the table does
    /// not hold it yet. The strings that the table held keep their indices.
    /// A table that is full takes no new string.
    pub fn insert(&mut self, s: &str) -> (r: Option<u32>)
        ensures
            final(self).spec_id() == old(self).spec_id(),
            old(self)@.is_prefix_of(final(self)@),
            match position(old(self)@, s@) {
                Some(i) => r == Some(i as u32) && final(self)@ == old(self)@,
                None => if old(self)@.len() < u32::MAX {
                    r == Some(old(self)@.len() as u32) && final(self)@ == old(self)@.push(s@)
                } else {
                    r is None && final(self)@ == old(self)@
                },
            },
    {
        proof {
            use_type_invariant(&*self);
            lemma_position(self@, s@);
        }
        match self.index_of(s) {
            Some(i) => Some(i),
            None => {
                let n = self.strings.len();
                if n >= u32::MAX as usize {
                    return None;
                }
                let ghost before = self@;
                let mut strings: Vec<String> = Vec::new();
                core::mem::swap(&mut strings, &mut self.strings);
                strings.push(String::from_str(s));
                assert(strings_view(strings@) =~= before.push(s@));
                *self = StringCache { id: self.id, strings };
                Some(n as u32)
            },
        }
    }

    /// The strings of the table as the mapping of a categorical column.
    pub fn rev_mapping(&self) -> (r: RevMapping)
        ensures
            r matches RevMapping::Global(id, strings) && id == self.spec_id() && strings_view(
                strings@,
            ) == self@,
    {
        let n = self.strings.len();
        let mut strings: Vec<String> = Vec::new();
        let mut i: usize = 0;
        while i < n
            invariant
                i <= n,
                n == self.strings@.len(),
                strings@.len() == i,
                forall|j: int| 0 <= j < i ==> (#[trigger] strings@[j])@ == self@[j],
            decreases n - i,
        {
            strings.push(self.strings[i].clone());
            i += 1;
        }
        assert(strings_view(strings@) =~= self@);
        RevMapping::Global(self.id, strings)
    }
}

} // verus!
