//! Decisions of the file readers. Reading and decoding are left to the
//! caller, which reports what it found and is told what to do next.

use crate::datatypes::arrow::{ArrowField, ArrowSchema};
use crate::error::{PolarsError, Result};
use crate::lazy::plan::DataFrame;
use vstd::prelude::*;

verus! {

/// A reader that parses a source into a frame.
pub trait SerReader<R>: Sized {
    fn new(reader: R) -> Self;

    /// Rechunk to a single chunk after Reading file. A reader that does not
    /// support this stays as it is.
    #[must_use]
    fn set_rechunk(self, _rechunk: bool) -> (r: Self)
        default_ensures
            r == self,
    {
        self
    }

    /// Take the SerReader and return a parsed DataFrame.
    fn finish(self) -> Result<DataFrame>;
}

/// A writer that serializes a frame to a sink.
pub trait SerWriter<W>: Sized {
    fn new(writer: W) -> Self;

    fn finish(self, df: &mut DataFrame) -> Result<()>;
}

/// What to do with one row group of a Parquet file.
pub enum RowGroupAction {
    /// The statistics show that no row can pass the predicate.
    Skip,
    /// Read the row group: at most `remaining_rows` rows, in chunks of
    /// `chunk_size` rows.
    Read { remaining_rows: usize, chunk_size: usize },
    /// Give up with the error.
    Fail(PolarsError),
}

/// What to return when all row groups have been seen.
#[derive(Copy, Clone, Debug, PartialEq, Eq, Structural)]
pub enum ReadOutcome {
    /// No row group was read: a frame without rows.
    Empty,
    /// The frames of the row groups one below the other, cut to the first
    /// `limit` rows.
    Concat { limit: usize },
}

/// The progress of reading a Parquet file row group by row group.
pub struct ParquetReadState {
    limit: usize,
    remaining_rows: usize,
    any_read: bool,
}

impl ParquetReadState {
    /// The number of rows asked for.
    pub closed spec fn limit(self) -> usize {
        self.limit
    }

    /// The number of rows that the next row group may give.
    pub closed spec fn remaining_rows(self) -> usize {
        self.remaining_rows
    }

    /// Whether a row group has been read.
    pub closed spec fn any_read(self) -> bool {
        self.any_read
    }

    /// The state before the first row group.
    pub fn new(limit: usize) -> (r: Self)
        ensures
            r.limit() == limit,
            r.remaining_rows() == limit,
            !r.any_read(),
    {
        ParquetReadState { limit, remaining_rows: limit, any_read: false }
    }

    /// Decides on the next row group, which has `num_rows` rows.
    ///
    /// `advice` is what the predicate says of the statistics of the row
    /// group: nothing where there is no predicate or there are no
    /// statistics, and else whether to read it. A row group is skipped only
    /// on the advice not to read it. Statistics that lack a column do not
    /// stop the scan; any other error does.
    pub fn on_row_group(&mut self, num_rows: usize, advice: Option<Result<bool>>) -> (r:
        RowGroupAction)
        ensures
            final(self).limit() == old(self).limit(),
            match advice {
                Some(Ok(false)) => r is Skip && *final(self) == *old(self),
                Some(Err(e)) if !(e is NotFound) => r == RowGroupAction::Fail(e) && *final(self)
                    == *old(self),
                _ => {
                    &&& r == (RowGroupAction::Read {
                        remaining_rows: old(self).remaining_rows(),
                        chunk_size: num_rows,
                    })
                    &&& final(self).remaining_rows() == num_rows
                    &&& final(self).any_read()
                },
            },
    {
        match advice {
            Some(Ok(false)) => RowGroupAction::Skip,
            Some(Err(PolarsError::ComputeError(m))) => RowGroupAction::Fail(
                PolarsError::ComputeError(m),
            ),
            Some(Err(PolarsError::SchemaMisMatch(m))) => RowGroupAction::Fail(
                PolarsError::SchemaMisMatch(m),
            ),
            _ => {
                let remaining_rows = self.remaining_rows;
                self.remaining_rows = num_rows;
                self.any_read = true;
                RowGroupAction::Read { remaining_rows, chunk_size: num_rows }
            },
        }
    }

    /// Decides what to return when all row groups have been seen.
    pub fn finish(&self) -> (r: ReadOutcome)
        ensures
            r == if self.any_read() {
                ReadOutcome::Concat { limit: self.limit() }
            } else {
                ReadOutcome::Empty
            },
    {
        if self.any_read {
            ReadOutcome::Concat { limit: self.limit }
        } else {
            ReadOutcome::Empty
        }
    }
}

/// The indices of the first `n` columns, in order.
pub open spec fn all_columns(n: nat) -> Seq<usize> {
    Seq::new(n, |i: int| i as usize)
}

/// The columns to read: those asked for, or all `n_fields` columns.
pub fn resolve_projection(projection: Option<&[usize]>, n_fields: usize) -> (r: Vec<usize>)
    ensures
        r@ == match projection {
            Some(p) => p@,
            None => all_columns(n_fields as nat),
        },
{
    match projection {
        Some(p) => {
            let mut out: Vec<usize> = Vec::new();
            let mut i: usize = 0;
            while i < p.len()
                invariant
                    i <= p@.len(),
                    out@ == p@.take(i as int),
                decreases p@.len() - i,
            {
                out.push(p[i]);
                assert(p@.take(i as int).push(p@[i as int]) =~= p@.take(i + 1));
                i += 1;
            }
            assert(p@.take(p@.len() as int) =~= p@);
            out
        },
        None => {
            let mut out: Vec<usize> = Vec::new();
            let mut i: usize = 0;
            while i < n_fields
                invariant
                    i <= n_fields,
                    out@ == all_columns(i as nat),
                decreases n_fields - i,
            {
                out.push(i);
                assert(out@ =~= all_columns((i + 1) as nat));
                i += 1;
            }
            out
        },
    }
}

/// The fields of the schema at the given indices, in the order of the
/// indices.
pub fn apply_projection<'a>(schema: &'a ArrowSchema, projection: &[usize]) -> (r: Vec<
    &'a ArrowField,
>)
    requires
        forall|i: int| 0 <= i < projection@.len() ==> projection@[i] < schema.fields@.len(),
    ensures
        r@.len() == projection@.len(),
        forall|i: int|
            0 <= i < r@.len() ==> *(#[trigger] r@[i]) == schema.fields@[projection@[i] as int],
{
    let mut out: Vec<&'a ArrowField> = Vec::new();
    let mut i: usize = 0;
    while i < projection.len()
        invariant
            i <= projection@.len(),
            forall|j: int| 0 <= j < projection@.len() ==> projection@[j] < schema.fields@.len(),
            out@.len() == i,
            forall|j: int|
                0 <= j < i ==> *(#[trigger] out@[j]) == schema.fields@[projection@[j] as int],
        decreases projection@.len() - i,
    {
        out.push(&schema.fields[projection[i]]);
        i += 1;
    }
    out
}

/// The count of the rows that a reader has taken from the batches of a
/// file, and the number of rows asked for, if there is a limit.
pub struct BatchBudget {
    num_rows: usize,
    n_rows: Option<usize>,
}

impl BatchBudget {
    /// The number of rows taken so far.
    pub closed spec fn num_rows(self) -> usize {
        self.num_rows
    }

    /// The number of rows asked for.
    pub closed spec fn n_rows(self) -> Option<usize> {
        self.n_rows
    }

    /// The budget before the first batch.
    pub fn new(n_rows: Option<usize>) -> (r: Self)
        ensures
            r.num_rows() == 0,
            r.n_rows() == n_rows,
    {
        BatchBudget { num_rows: 0, n_rows }
    }

    /// Counts a batch of `batch_len` rows and says whether to stop reading:
    /// that is so once at least as many rows as asked for have been taken.
    pub fn take_batch(&mut self, batch_len: usize) -> (stop: bool)
        requires
            old(self).num_rows() + batch_len <= usize::MAX,
        ensures
            final(self).n_rows() == old(self).n_rows(),
            final(self).num_rows() == old(self).num_rows() + batch_len,
            stop == match old(self).n_rows() {
                Some(n) => old(self).num_rows() + batch_len >= n,
                None => false,
            },
    {
        self.num_rows = self.num_rows + batch_len;
        match self.n_rows {
            Some(n) => self.num_rows >= n,
            None => false,
        }
    }
}

} // verus!
