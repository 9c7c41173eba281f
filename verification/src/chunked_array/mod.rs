//! Typed columns stored as a sequence of chunks.

pub mod categorical;
pub mod date;
pub mod datetime;
pub mod duration;
pub mod logical;
pub mod time;

use crate::datatypes::any_value::{AnyValue, RevMapping};
use crate::datatypes::dtype::{DataType, DataTypeView};
use crate::datatypes::field::{Field, FieldView};
use crate::datatypes::markers::{
    BooleanType, CategoricalType, Float32Type, Float64Type, Int16Type, Int32Type, Int64Type,
    Int8Type, ListType, ObjectType, PolarsDataType, UInt16Type, UInt32Type, UInt64Type,
    UInt8Type, Utf8Type,
};
use std::marker::PhantomData;
use vstd::prelude::*;

verus! {

/// One stored value of a physical type. Floating-point values are stored as
/// their IEEE 754 bit patterns.
#[derive(Debug)]
pub enum Scalar {
    Boolean(bool),
    UInt8(u8),
    UInt16(u16),
    UInt32(u32),
    UInt64(u64),
    Int8(i8),
    Int16(i16),
    Int32(i32),
    Int64(i64),
    Float32(u32),
    Float64(u64),
    Utf8(String),
}

/// One contiguous segment of a column: per element a value, or `None` where
/// the element is null.
pub type Chunk = Vec<Option<Scalar>>;

impl Scalar {
    /// The physical type of the value.
    pub open spec fn dtype(self) -> DataTypeView {
        match self {
            Scalar::Boolean(_) => DataTypeView::Boolean,
            Scalar::UInt8(_) => DataTypeView::UInt8,
            Scalar::UInt16(_) => DataTypeView::UInt16,
            Scalar::UInt32(_) => DataTypeView::UInt32,
            Scalar::UInt64(_) => DataTypeView::UInt64,
            Scalar::Int8(_) => DataTypeView::Int8,
            Scalar::Int16(_) => DataTypeView::Int16,
            Scalar::Int32(_) => DataTypeView::Int32,
            Scalar::Int64(_) => DataTypeView::Int64,
            Scalar::Float32(_) => DataTypeView::Float32,
            Scalar::Float64(_) => DataTypeView::Float64,
            Scalar::Utf8(_) => DataTypeView::Utf8,
        }
    }
}

impl Clone for Scalar {
    fn clone(&self) -> (r: Self)
        ensures
            r == *self,
    {
        match self {
            Scalar::Boolean(v) => Scalar::Boolean(*v),
            Scalar::UInt8(v) => Scalar::UInt8(*v),
            Scalar::UInt16(v) => Scalar::UInt16(*v),
            Scalar::UInt32(v) => Scalar::UInt32(*v),
            Scalar::UInt64(v) => Scalar::UInt64(*v),
            Scalar::Int8(v) => Scalar::Int8(*v),
            Scalar::Int16(v) => Scalar::Int16(*v),
            Scalar::Int32(v) => Scalar::Int32(*v),
            Scalar::Int64(v) => Scalar::Int64(*v),
            Scalar::Float32(v) => Scalar::Float32(*v),
            Scalar::Float64(v) => Scalar::Float64(*v),
            Scalar::Utf8(v) => Scalar::Utf8(v.clone()),
        }
    }
}

/// Whether `r` is the element `v` as a dynamically typed value: null for a
/// null element, and else the variant of the element's type with the same
/// content.
pub open spec fn any_value_of(v: Option<Scalar>, r: AnyValue) -> bool {
    match v {
        None => r is Null,
        Some(Scalar::Boolean(x)) => r == AnyValue::Boolean(x),
        Some(Scalar::UInt8(x)) => r == AnyValue::UInt8(x),
        Some(Scalar::UInt16(x)) => r == AnyValue::UInt16(x),
        Some(Scalar::UInt32(x)) => r == AnyValue::UInt32(x),
        Some(Scalar::UInt64(x)) => r == AnyValue::UInt64(x),
        Some(Scalar::Int8(x)) => r == AnyValue::Int8(x),
        Some(Scalar::Int16(x)) => r == AnyValue::Int16(x),
        Some(Scalar::Int32(x)) => r == AnyValue::Int32(x),
        Some(Scalar::Int64(x)) => r == AnyValue::Int64(x),
        Some(Scalar::Float32(x)) => r == AnyValue::Float32(x),
        Some(Scalar::Float64(x)) => r == AnyValue::Float64(x),
        Some(Scalar::Utf8(x)) => r matches AnyValue::Utf8(t) && t@ == x@,
    }
}

/// The element as a dynamically typed value that borrows from it.
pub fn scalar_to_any_value<'a>(v: &'a Option<Scalar>) -> (r: AnyValue<'a>)
    ensures
        any_value_of(*v, r),
{
    match v {
        None => AnyValue::Null,
        Some(Scalar::Boolean(x)) => AnyValue::Boolean(*x),
        Some(Scalar::UInt8(x)) => AnyValue::UInt8(*x),
        Some(Scalar::UInt16(x)) => AnyValue::UInt16(*x),
        Some(Scalar::UInt32(x)) => AnyValue::UInt32(*x),
        Some(Scalar::UInt64(x)) => AnyValue::UInt64(*x),
        Some(Scalar::Int8(x)) => AnyValue::Int8(*x),
        Some(Scalar::Int16(x)) => AnyValue::Int16(*x),
        Some(Scalar::Int32(x)) => AnyValue::Int32(*x),
        Some(Scalar::Int64(x)) => AnyValue::Int64(*x),
        Some(Scalar::Float32(x)) => AnyValue::Float32(*x),
        Some(Scalar::Float64(x)) => AnyValue::Float64(*x),
        Some(Scalar::Utf8(x)) => AnyValue::Utf8(x.as_str()),
    }
}

/// The elements of each chunk, in order.
pub open spec fn chunks_view(chunks: Seq<Chunk>) -> Seq<Seq<Option<Scalar>>> {
    Seq::new(chunks.len(), |i: int| chunks[i]@)
}

/// The elements of the chunks, one chunk after the other.
pub open spec fn flatten(chunks: Seq<Seq<Option<Scalar>>>) -> Seq<Option<Scalar>>
    decreases chunks.len(),
{
    if chunks.len() == 0 {
        Seq::empty()
    } else {
        chunks[0] + flatten(chunks.drop_first())
    }
}

/// The number of null elements among the first `n`.
pub open spec fn nulls_among(values: Seq<Option<Scalar>>, n: int) -> nat
    decreases n,
{
    if n <= 0 {
        0
    } else {
        nulls_among(values, n - 1) + if values[n - 1] is None {
            1nat
        } else {
            0nat
        }
    }
}

/// Whether every element that is not null has the physical type `dtype`.
pub open spec fn all_of_type(values: Seq<Option<Scalar>>, dtype: DataTypeView) -> bool {
    forall|i: int| 0 <= i < values.len() ==> (#[trigger] values[i] matches Some(s) ==> s.dtype() == dtype)
}

/// No chunks hold no elements.
pub proof fn lemma_flatten_empty()
    ensures
        flatten(Seq::<Seq<Option<Scalar>>>::empty()) == Seq::<Option<Scalar>>::empty(),
{
}

/// The elements of a single chunk are the elements of the column.
pub proof fn lemma_flatten_single(chunk: Seq<Option<Scalar>>)
    ensures
        flatten(seq![chunk]) == chunk,
{
    lemma_flatten_empty();
    assert(seq![chunk].drop_first() =~= Seq::<Seq<Option<Scalar>>>::empty());
    assert(seq![chunk][0] == chunk);
    assert(flatten(seq![chunk]) =~= chunk);
}

/// Appending a chunk appends its elements.
pub proof fn lemma_flatten_push(chunks: Seq<Seq<Option<Scalar>>>, chunk: Seq<Option<Scalar>>)
    ensures
        flatten(chunks.push(chunk)) == flatten(chunks) + chunk,
    decreases chunks.len(),
{
    if chunks.len() == 0 {
        assert(chunks.push(chunk) =~= seq![chunk]);
        lemma_flatten_single(chunk);
        assert(flatten(chunks) + chunk =~= chunk);
    } else {
        assert(chunks.push(chunk).drop_first() =~= chunks.drop_first().push(chunk));
        assert(chunks.push(chunk)[0] == chunks[0]);
        lemma_flatten_push(chunks.drop_first(), chunk);
        assert(flatten(chunks.push(chunk)) =~= flatten(chunks) + chunk);
    }
}

/// The elements from chunk `c` on are those of chunk `c` followed by those
/// from chunk `c + 1` on.
pub proof fn lemma_flatten_skip(chunks: Seq<Seq<Option<Scalar>>>, c: int)
    requires
        0 <= c < chunks.len(),
    ensures
        flatten(chunks.skip(c)) == chunks[c] + flatten(chunks.skip(c + 1)),
{
    assert(chunks.skip(c).drop_first() =~= chunks.skip(c + 1));
    assert(chunks.skip(c)[0] == chunks[c]);
}

/// The elements of two lists of chunks, one list after the other, are the
/// elements of the first followed by those of the second.
pub proof fn lemma_append(a: Seq<Seq<Option<Scalar>>>, b: Seq<Seq<Option<Scalar>>>)
    ensures
        flatten(a + b) == flatten(a) + flatten(b),
    decreases b.len(),
{
    if b.len() == 0 {
        assert(a + b =~= a);
        lemma_flatten_empty();
        assert(b =~= Seq::<Seq<Option<Scalar>>>::empty());
        assert(flatten(a + b) =~= flatten(a) + flatten(b));
    } else {
        lemma_append(a, b.drop_last());
        lemma_flatten_push(a + b.drop_last(), b.last());
        lemma_flatten_push(b.drop_last(), b.last());
        assert((a + b.drop_last()).push(b.last()) =~= a + b);
        assert(b.drop_last().push(b.last()) =~= b);
        assert(flatten(a + b) =~= flatten(a) + flatten(b));
    }
}

/// Where the elements of chunk `c` stand in the column: after the elements
/// of the chunks before it.
pub proof fn lemma_chunk_elements(chunks: Seq<Seq<Option<Scalar>>>, c: int)
    requires
        0 <= c < chunks.len(),
    ensures
        flatten(chunks.take(c + 1)) == flatten(chunks.take(c)) + chunks[c],
        flatten(chunks.take(c)).len() + chunks[c].len() <= flatten(chunks).len(),
        forall|j: int|
            0 <= j < chunks[c].len() ==> flatten(chunks)[flatten(chunks.take(c)).len() + j]
                == #[trigger] chunks[c][j],
{
    lemma_flatten_push(chunks.take(c), chunks[c]);
    assert(chunks.take(c).push(chunks[c]) =~= chunks.take(c + 1));
    lemma_append(chunks.take(c + 1), chunks.skip(c + 1));
    assert(chunks.take(c + 1) + chunks.skip(c + 1) =~= chunks);
}

/// A named column of one data type, stored as a sequence of chunks.
#[derive(Debug)]
pub struct ChunkedArray<T: PolarsDataType> {
    field: Field,
    chunks: Vec<Chunk>,
    length: usize,
    phantom: PhantomData<T>,
}

pub type BooleanChunked = ChunkedArray<BooleanType>;

pub type UInt8Chunked = ChunkedArray<UInt8Type>;

pub type UInt16Chunked = ChunkedArray<UInt16Type>;

pub type UInt32Chunked = ChunkedArray<UInt32Type>;

pub type UInt64Chunked = ChunkedArray<UInt64Type>;

pub type Int8Chunked = ChunkedArray<Int8Type>;

pub type Int16Chunked = ChunkedArray<Int16Type>;

pub type Int32Chunked = ChunkedArray<Int32Type>;

pub type Int64Chunked = ChunkedArray<Int64Type>;

pub type Float32Chunked = ChunkedArray<Float32Type>;

pub type Float64Chunked = ChunkedArray<Float64Type>;

pub type Utf8Chunked = ChunkedArray<Utf8Type>;

pub type ListChunked = ChunkedArray<ListType>;

pub type CategoricalChunked = ChunkedArray<CategoricalType>;

pub type ObjectChunked<T> = ChunkedArray<ObjectType<T>>;

impl<T: PolarsDataType> View for ChunkedArray<T> {
    type V = Seq<Option<Scalar>>;

    /// The elements of the column, in order.
    closed spec fn view(&self) -> Seq<Option<Scalar>> {
        flatten(chunks_view(self.chunks@))
    }
}

/// Copies a chunk.
fn clone_chunk(chunk: &Chunk) -> (r: Chunk)
    ensures
        r@ == chunk@,
{
    let n = chunk.len();
    let mut out: Chunk = Vec::new();
    let mut i: usize = 0;
    while i < n
        invariant
            i <= n,
            n == chunk@.len(),
            out@ == chunk@.take(i as int),
        decreases n - i,
    {
        let item = match &chunk[i] {
            Some(s) => Some(s.clone()),
            None => None,
        };
        out.push(item);
        assert(chunk@.take(i as int).push(chunk@[i as int]) =~= chunk@.take(i + 1));
        i += 1;
    }
    assert(chunk@.take(n as int) =~= chunk@);
    out
}

impl<T: PolarsDataType> Clone for ChunkedArray<T> {
    fn clone(&self) -> (r: Self)
        ensures
            r@ == self@,
            r.spec_chunks() == self.spec_chunks(),
            r.spec_field() == self.spec_field(),
    {
        proof {
            use_type_invariant(self);
        }
        let n = self.chunks.len();
        let mut chunks: Vec<Chunk> = Vec::new();
        let mut c: usize = 0;
        while c < n
            invariant
                c <= n,
                n == self.chunks@.len(),
                chunks@.len() == c,
                forall|j: int| 0 <= j < c ==> (#[trigger] chunks@[j])@ == self.chunks@[j]@,
            decreases n - c,
        {
            chunks.push(clone_chunk(&self.chunks[c]));
            c += 1;
        }
        assert(chunks_view(chunks@) =~= chunks_view(self.chunks@));
        ChunkedArray {
            field: self.field.clone(),
            chunks,
            length: self.length,
            phantom: PhantomData,
        }
    }
}

impl<T: PolarsDataType> ChunkedArray<T> {
    #[verifier::type_invariant]
    spec fn well_formed(self) -> bool {
        &&& self.length == flatten(chunks_view(self.chunks@)).len()
        &&& all_of_type(flatten(chunks_view(self.chunks@)), T::dtype().to_physical())
        &&& self.field@.data_type == T::dtype()
    }

    /// The elements of each chunk of the column, in order.
    pub closed spec fn spec_chunks(self) -> Seq<Seq<Option<Scalar>>> {
        chunks_view(self.chunks@)
    }

    /// The field of the column: its name and the data type of the marker.
    pub closed spec fn spec_field(self) -> FieldView {
        self.field@
    }

    /// Creates a column from its chunks, if every element has the physical
    /// type of the marker and the elements can be counted.
    pub fn from_chunks(name: &str, chunks: Vec<Chunk>) -> (r: Option<Self>)
        ensures
            r is Some <==> (all_of_type(flatten(chunks_view(chunks@)), T::dtype().to_physical())
                && flatten(chunks_view(chunks@)).len() <= usize::MAX),
            r matches Some(ca) ==> ca.spec_chunks() == chunks_view(chunks@) && ca@ == flatten(
                chunks_view(chunks@),
            ) && ca.spec_field() == (FieldView { name: name@, data_type: T::dtype() }),
    {
        let dtype = T::get_dtype();
        let physical = dtype.to_physical();
        let ghost all = chunks_view(chunks@);
        let mut length: usize = 0;
        let mut c: usize = 0;
        proof {
            lemma_flatten_empty();
            assert(all.take(0) =~= Seq::<Seq<Option<Scalar>>>::empty());
        }
        while c < chunks.len()
            invariant
                c <= chunks@.len(),
                all == chunks_view(chunks@),
                physical@ == T::dtype().to_physical(),
                length == flatten(all.take(c as int)).len(),
                all_of_type(flatten(all.take(c as int)), physical@),
            decreases chunks@.len() - c,
        {
            let chunk = &chunks[c];
            proof {
                lemma_chunk_elements(all, c as int);
            }
            let ghost before = flatten(all.take(c as int));
            let mut k: usize = 0;
            while k < chunk.len()
                invariant
                    k <= chunk@.len(),
                    0 <= c < all.len(),
                    all == chunks_view(chunks@),
                    chunk@ == all[c as int],
                    before == flatten(all.take(c as int)),
                    before.len() + chunk@.len() <= flatten(all).len(),
                    forall|j: int|
                        0 <= j < chunk@.len() ==> flatten(all)[before.len() + j]
                            == #[trigger] chunk@[j],
                    physical@ == T::dtype().to_physical(),
                    forall|j: int|
                        0 <= j < k ==> (#[trigger] chunk@[j] matches Some(s) ==> s.dtype()
                            == physical@),
                decreases chunk@.len() - k,
            {
                let ok = match &chunk[k] {
                    None => true,
                    Some(s) => scalar_has_type(s, &physical),
                };
                if !ok {
                    proof {
                        let at = before.len() + k;
                        assert(flatten(all)[at] == chunk@[k as int]);
                        assert(flatten(all)[at] matches Some(s) && s.dtype() != physical@);
                        assert(!all_of_type(flatten(all), physical@));
                    }
                    return None;
                }
                k += 1;
            }
            if chunk.len() > usize::MAX - length {
                return None;
            }
            length = length + chunk.len();
            assert(all_of_type(flatten(all.take(c + 1)), physical@)) by {
                assert forall|j: int| 0 <= j < flatten(all.take(c + 1)).len() implies (
                #[trigger] flatten(all.take(c + 1))[j] matches Some(s) ==> s.dtype()
                    == physical@) by {
                    if j < before.len() {
                        assert(flatten(all.take(c + 1))[j] == before[j]);
                    } else {
                        assert(flatten(all.take(c + 1))[j] == chunk@[j - before.len()]);
                    }
                }
            }
            c += 1;
        }
        assert(all.take(chunks@.len() as int) =~= all);
        Some(ChunkedArray { field: Field::new(name, dtype), chunks, length, phantom: PhantomData })
    }

    /// Name of the column.
    pub fn name(&self) -> (r: &String)
        ensures
            r@ == self.spec_field().name,
    {
        self.field.name()
    }

    /// The field of the column.
    pub fn ref_field(&self) -> (r: &Field)
        ensures
            r@ == self.spec_field(),
    {
        &self.field
    }

    /// The chunks of the column.
    pub fn chunks(&self) -> (r: &Vec<Chunk>)
        ensures
            chunks_view(r@) == self.spec_chunks(),
    {
        &self.chunks
    }

    /// The number of elements.
    pub fn len(&self) -> (r: usize)
        ensures
            r == self@.len(),
    {
        proof {
            use_type_invariant(self);
        }
        self.length
    }

    /// Whether the column has no element.
    pub fn is_empty(&self) -> (r: bool)
        ensures
            r == (self@.len() == 0),
    {
        self.len() == 0
    }

    /// The number of null elements.
    pub fn null_count(&self) -> (r: usize)
        ensures
            r == nulls_among(self@, self@.len() as int),
    {
        proof {
            use_type_invariant(self);
        }
        let ghost all = chunks_view(self.chunks@);
        let mut count: usize = 0;
        let mut seen: usize = 0;
        let mut c: usize = 0;
        proof {
            lemma_flatten_empty();
            assert(all.take(0) =~= Seq::<Seq<Option<Scalar>>>::empty());
        }
        while c < self.chunks.len()
            invariant
                c <= self.chunks@.len(),
                all == chunks_view(self.chunks@),
                seen == flatten(all.take(c as int)).len(),
                seen <= flatten(all).len() <= usize::MAX,
                count == nulls_among(flatten(all), seen as int),
                count <= seen,
            decreases self.chunks@.len() - c,
        {
            let chunk = &self.chunks[c];
            proof {
                lemma_chunk_elements(all, c as int);
            }
            let ghost base = seen;
            let mut k: usize = 0;
            while k < chunk.len()
                invariant
                    k <= chunk@.len(),
                    seen == base + k,
                    base + chunk@.len() <= flatten(all).len() <= usize::MAX,
                    forall|j: int|
                        0 <= j < chunk@.len() ==> flatten(all)[base + j] == #[trigger] chunk@[j],
                    count == nulls_among(flatten(all), seen as int),
                    count <= seen,
                decreases chunk@.len() - k,
            {
                assert(flatten(all)[base + k] == chunk@[k as int]);
                if chunk[k].is_none() {
                    count += 1;
                }
                seen += 1;
                k += 1;
            }
            c += 1;
        }
        assert(all.take(self.chunks@.len() as int) =~= all);
        count
    }

    /// The element at index `i`, as a dynamically typed value. An element
    /// that is not null has the physical type of the marker.
    pub fn get_any_value(&self, i: usize) -> (r: AnyValue<'_>)
        requires
            i < self@.len(),
        ensures
            any_value_of(self@[i as int], r),
            self@[i as int] matches Some(s) ==> s.dtype() == T::dtype().to_physical(),
    {
        proof {
            use_type_invariant(self);
        }
        let ghost all = chunks_view(self.chunks@);
        let n = self.chunks.len();
        let mut c: usize = 0;
        let mut rem: usize = i;
        assert(all.skip(0) =~= all);
        while c < n
            invariant
                c <= n,
                n == self.chunks@.len(),
                all == chunks_view(self.chunks@),
                i < self@.len(),
                rem < flatten(all.skip(c as int)).len(),
                flatten(all.skip(c as int))[rem as int] == self@[i as int],
                all_of_type(self@, T::dtype().to_physical()),
            decreases n - c,
        {
            proof {
                lemma_flatten_skip(all, c as int);
            }
            let chunk = &self.chunks[c];
            if rem < chunk.len() {
                return scalar_to_any_value(&chunk[rem]);
            }
            rem = rem - chunk.len();
            c += 1;
        }
        proof {
            lemma_flatten_empty();
            assert(all.skip(n as int) =~= Seq::<Seq<Option<Scalar>>>::empty());
        }
        AnyValue::Null
    }

    /// The element at index `i`, as a dynamically typed value, or nothing
    /// where the column has no such element.
    pub fn get(&self, i: usize) -> (r: Option<AnyValue<'_>>)
        ensures
            match r {
                Some(v) => i < self@.len() && any_value_of(self@[i as int], v),
                None => i >= self@.len(),
            },
    {
        if i < self.len() {
            Some(self.get_any_value(i))
        } else {
            None
        }
    }

    /// The same column with all elements in one chunk.
    #[must_use]
    pub fn rechunk(&self) -> (r: Self)
        ensures
            r@ == self@,
            r.spec_chunks() == seq![self@],
            r.spec_field() == self.spec_field(),
    {
        proof {
            use_type_invariant(self);
        }
        let ghost all = chunks_view(self.chunks@);
        let mut merged: Chunk = Vec::new();
        let mut c: usize = 0;
        proof {
            lemma_flatten_empty();
            assert(all.take(0) =~= Seq::<Seq<Option<Scalar>>>::empty());
        }
        while c < self.chunks.len()
            invariant
                c <= self.chunks@.len(),
                all == chunks_view(self.chunks@),
                merged@ == flatten(all.take(c as int)),
            decreases self.chunks@.len() - c,
        {
            let chunk = &self.chunks[c];
            proof {
                lemma_chunk_elements(all, c as int);
            }
            let ghost before = merged@;
            let mut k: usize = 0;
            while k < chunk.len()
                invariant
                    k <= chunk@.len(),
                    merged@ == before + chunk@.take(k as int),
                decreases chunk@.len() - k,
            {
                let item = match &chunk[k] {
                    Some(s) => Some(s.clone()),
                    None => None,
                };
                merged.push(item);
                assert(merged@ =~= before + chunk@.take(k + 1));
                k += 1;
            }
            assert(chunk@.take(chunk@.len() as int) =~= chunk@);
            c += 1;
        }
        assert(all.take(self.chunks@.len() as int) =~= all);
        let ghost elements = merged@;
        let mut chunks: Vec<Chunk> = Vec::new();
        chunks.push(merged);
        assert(chunks@[0]@ == elements);
        proof {
            assert(chunks_view(chunks@) =~= seq![chunks@[0]@]);
            lemma_flatten_single(chunks@[0]@);
        }
        ChunkedArray {
            field: self.field.clone(),
            chunks,
            length: self.length,
            phantom: PhantomData,
        }
    }

    /// Appends the chunks of `other`; no chunks are merged.
    pub fn append(&mut self, other: Self)
        requires
            old(self)@.len() + other@.len() <= usize::MAX,
        ensures
            final(self)@ == old(self)@ + other@,
            final(self).spec_chunks() == old(self).spec_chunks() + other.spec_chunks(),
            final(self).spec_field() == old(self).spec_field(),
    {
        proof {
            use_type_invariant(&*self);
            use_type_invariant(&other);
        }
        let ghost mine = chunks_view(self.chunks@);
        let ghost theirs = chunks_view(other.chunks@);
        let n = other.length;
        let mut more = other.chunks;
        proof {
            lemma_append(mine, theirs);
        }
        let mut taken = ChunkedArray {
            field: self.field.clone(),
            chunks: Vec::new(),
            length: 0,
            phantom: PhantomData,
        };
        assert(chunks_view(taken.chunks@) =~= Seq::<Seq<Option<Scalar>>>::empty());
        core::mem::swap(self, &mut taken);
        let ChunkedArray { field, chunks, length, phantom } = taken;
        let mut chunks = chunks;
        chunks.append(&mut more);
        assert(chunks_view(chunks@) =~= mine + theirs);
        *self = ChunkedArray { field, chunks, length: length + n, phantom };
    }
}

impl CategoricalChunked {
    /// The element at index `i` as a categorical value whose index stands
    /// for one of the strings of `rev_map`. A null element stays null.
    pub fn get_categorical<'a>(&'a self, i: usize, rev_map: &'a RevMapping) -> (r: AnyValue<'a>)
        requires
            i < self@.len(),
        ensures
            match self@[i as int] {
                Some(Scalar::UInt32(idx)) => r == AnyValue::Categorical(idx, rev_map),
                _ => r is Null,
            },
    {
        match self.get_any_value(i) {
            AnyValue::UInt32(idx) => AnyValue::Categorical(idx, rev_map),
            _ => AnyValue::Null,
        }
    }
}

impl Utf8Chunked {
    /// Creates a column of strings from one chunk. The elements must be
    /// strings or null.
    pub fn new_from_chunk(name: &str, chunk: Chunk) -> (r: Self)
        requires
            all_of_type(chunk@, DataTypeView::Utf8),
        ensures
            r@ == chunk@,
            r.spec_chunks() == seq![chunk@],
            r.spec_field() == (FieldView { name: name@, data_type: DataTypeView::Utf8 }),
    {
        let n = chunk.len();
        let ghost elements = chunk@;
        let mut chunks: Vec<Chunk> = Vec::new();
        chunks.push(chunk);
        assert(chunks@[0]@ == elements);
        proof {
            assert(chunks_view(chunks@) =~= seq![chunks@[0]@]);
            lemma_flatten_single(chunks@[0]@);
        }
        ChunkedArray {
            field: Field::new(name, DataType::Utf8),
            chunks,
            length: n,
            phantom: PhantomData,
        }
    }
}

impl Int32Chunked {
    /// Creates a column without nulls, in one chunk.
    pub fn new_from_slice(name: &str, values: &[i32]) -> (r: Self)
        ensures
            r@ == Seq::new(values@.len(), |i: int| Some(Scalar::Int32(values@[i]))),
            r.spec_chunks() == seq![r@],
            r.spec_field() == (FieldView { name: name@, data_type: DataTypeView::Int32 }),
    {
        let n = values.len();
        let mut chunk: Chunk = Vec::new();
        let mut i: usize = 0;
        while i < n
            invariant
                i <= n,
                n == values@.len(),
                chunk@ == Seq::new(i as nat, |j: int| Some(Scalar::Int32(values@[j]))),
            decreases n - i,
        {
            chunk.push(Some(Scalar::Int32(values[i])));
            assert(chunk@ =~= Seq::new((i + 1) as nat, |j: int| Some(Scalar::Int32(values@[j]))));
            i += 1;
        }
        let ghost elements = chunk@;
        let mut chunks: Vec<Chunk> = Vec::new();
        chunks.push(chunk);
        assert(chunks@[0]@ == elements);
        proof {
            assert(chunks_view(chunks@) =~= seq![chunks@[0]@]);
            lemma_flatten_single(chunks@[0]@);
        }
        ChunkedArray {
            field: Field::new(name, DataType::Int32),
            chunks,
            length: n,
            phantom: PhantomData,
        }
    }

    /// Creates a column in one chunk; `None` stands for a null element.
    pub fn new_from_opt_slice(name: &str, values: &[Option<i32>]) -> (r: Self)
        ensures
            r@ == Seq::new(
                values@.len(),
                |i: int|
                    match values@[i] {
                        Some(v) => Some(Scalar::Int32(v)),
                        None => None,
                    },
            ),
            r.spec_chunks() == seq![r@],
            r.spec_field() == (FieldView { name: name@, data_type: DataTypeView::Int32 }),
    {
        let n = values.len();
        let mut chunk: Chunk = Vec::new();
        let mut i: usize = 0;
        while i < n
            invariant
                i <= n,
                n == values@.len(),
                chunk@ == Seq::new(
                    i as nat,
                    |j: int|
                        match values@[j] {
                            Some(v) => Some(Scalar::Int32(v)),
                            None => None,
                        },
                ),
            decreases n - i,
        {
            let item = match values[i] {
                Some(v) => Some(Scalar::Int32(v)),
                None => None,
            };
            chunk.push(item);
            assert(chunk@ =~= Seq::new(
                (i + 1) as nat,
                |j: int|
                    match values@[j] {
                        Some(v) => Some(Scalar::Int32(v)),
                        None => None,
                    },
            ));
            i += 1;
        }
        let ghost elements = chunk@;
        let mut chunks: Vec<Chunk> = Vec::new();
        chunks.push(chunk);
        assert(chunks@[0]@ == elements);
        proof {
            assert(chunks_view(chunks@) =~= seq![chunks@[0]@]);
            lemma_flatten_single(chunks@[0]@);
        }
        ChunkedArray {
            field: Field::new(name, DataType::Int32),
            chunks,
            length: n,
            phantom: PhantomData,
        }
    }

    /// The elements in order; `None` stands for a null element.
    pub fn to_vec(&self) -> (r: Vec<Option<i32>>)
        ensures
            r@.len() == self@.len(),
            forall|i: int|
                0 <= i < r@.len() ==> #[trigger] self@[i] == match r@[i] {
                    Some(v) => Some(Scalar::Int32(v)),
                    None => None::<Scalar>,
                },
    {
        proof {
            use_type_invariant(self);
        }
        let n = self.len();
        let mut out: Vec<Option<i32>> = Vec::new();
        let mut i: usize = 0;
        while i < n
            invariant
                i <= n,
                n == self@.len(),
                out@.len() == i,
                all_of_type(self@, DataTypeView::Int32),
                forall|j: int|
                    0 <= j < i ==> #[trigger] self@[j] == match out@[j] {
                        Some(v) => Some(Scalar::Int32(v)),
                        None => None::<Scalar>,
                    },
            decreases n - i,
        {
            let item = match self.get_any_value(i) {
                AnyValue::Int32(v) => Some(v),
                _ => None,
            };
            assert(self@[i as int] matches Some(s) ==> s.dtype() == DataTypeView::Int32);
            out.push(item);
            i += 1;
        }
        out
    }
}

/// Whether the value has the given physical type.
fn scalar_has_type(s: &Scalar, dtype: &DataType) -> (r: bool)
    ensures
        r == (s.dtype() == dtype@),
{
    match (s, dtype) {
        (Scalar::Boolean(_), DataType::Boolean) => true,
        (Scalar::UInt8(_), DataType::UInt8) => true,
        (Scalar::UInt16(_), DataType::UInt16) => true,
        (Scalar::UInt32(_), DataType::UInt32) => true,
        (Scalar::UInt64(_), DataType::UInt64) => true,
        (Scalar::Int8(_), DataType::Int8) => true,
        (Scalar::Int16(_), DataType::Int16) => true,
        (Scalar::Int32(_), DataType::Int32) => true,
        (Scalar::Int64(_), DataType::Int64) => true,
        (Scalar::Float32(_), DataType::Float32) => true,
        (Scalar::Float64(_), DataType::Float64) => true,
        (Scalar::Utf8(_), DataType::Utf8) => true,
        _ => false,
    }
}

} // verus!
