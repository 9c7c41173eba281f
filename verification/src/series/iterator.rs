//! Walking the values of a column.

use crate::datatypes::any_value::AnyValue;
use crate::series::Series;
use vstd::prelude::*;

verus! {

/// A cursor over the values of a column that is stored in one chunk.
pub struct SeriesIter<'a> {
    series: &'a Series,
    idx: usize,
    len: usize,
}

impl Series {
    /// A cursor at the first element. The column must be stored in one chunk.
    pub fn iter(&self) -> (r: SeriesIter<'_>)
        requires
            self.spec_chunks().len() == 1,
        ensures
            *r.spec_series() == *self,
            r.position() == 0,
    {
        SeriesIter { series: self, idx: 0, len: self.len() }
    }
}

impl<'a> SeriesIter<'a> {
    #[verifier::type_invariant]
    spec fn well_formed(self) -> bool {
        self.len == self.series.values().len() && self.idx <= self.len
    }

    /// The column that is walked.
    pub closed spec fn spec_series(self) -> &'a Series {
        self.series
    }

    /// The index of the element that comes next.
    pub closed spec fn position(self) -> nat {
        self.idx as nat
    }

    /// The next value, or `None` when all elements have been handed out.
    pub fn next(&mut self) -> (r: Option<AnyValue<'a>>)
        ensures
            final(self).spec_series() == old(self).spec_series(),
            match r {
                Some(v) => {
                    &&& old(self).position() < old(self).spec_series().values().len()
                    &&& old(self).spec_series().is_value_at(old(self).position() as int, v)
                    &&& final(self).position() == old(self).position() + 1
                },
                None => {
                    &&& old(self).position() == old(self).spec_series().values().len()
                    &&& final(self).position() == old(self).position()
                },
            },
    {
        proof {
            use_type_invariant(&*self);
        }
        let idx = self.idx;
        if idx == self.len {
            None
        } else {
            self.idx = idx + 1;
            Some(self.series.get(idx))
        }
    }
}

} // verus!
