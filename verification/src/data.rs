//! Typed sample buffers for raw-field reads and writes. The buffer's
//! variant is its element type: run-time type identity is an exhaustive
//! match on this closed set, never reflection. Float elements are carried
//! as IEEE-754 bit patterns (`u32` for 32-bit, `u64` for 64-bit floats),
//! opaque to the library.

use vstd::prelude::*;

use crate::types::GdTypes;

verus! {

/// A typed buffer of sample elements.
#[derive(Debug, Clone, PartialEq)]
pub enum DataVec {
    Float32(Vec<u32>),
    Float64(Vec<u64>),
    Int32(Vec<i32>),
    Int64(Vec<i64>),
    Uint32(Vec<u32>),
    Uint64(Vec<u64>),
}

/// Mathematical model of a typed buffer: the element type and the element
/// sequence.
#[verifier::ext_equal]
pub enum DataVecView {
    Float32(Seq<u32>),
    Float64(Seq<u64>),
    Int32(Seq<i32>),
    Int64(Seq<i64>),
    Uint32(Seq<u32>),
    Uint64(Seq<u64>),
}

impl View for DataVec {
    type V = DataVecView;

    open spec fn view(&self) -> DataVecView {
        match self {
            DataVec::Float32(v) => DataVecView::Float32(v@),
            DataVec::Float64(v) => DataVecView::Float64(v@),
            DataVec::Int32(v) => DataVecView::Int32(v@),
            DataVec::Int64(v) => DataVecView::Int64(v@),
            DataVec::Uint32(v) => DataVecView::Uint32(v@),
            DataVec::Uint64(v) => DataVecView::Uint64(v@),
        }
    }
}

/// The elements of `s` from `start` on, at most `count` of them: the
/// window is clamped to the end of the sequence, and empty when `start`
/// lies beyond it.
pub open spec fn seq_window<T>(s: Seq<T>, start: int, count: int) -> Seq<T> {
    if start < 0 || count < 0 || start > s.len() {
        Seq::<T>::empty()
    } else if start + count <= s.len() {
        s.subrange(start, start + count)
    } else {
        s.subrange(start, s.len() as int)
    }
}

/// `src` written over `dst` starting at `at`, extending `dst` where it
/// runs past the end.
pub open spec fn seq_overwrite<T>(dst: Seq<T>, at: int, src: Seq<T>) -> Seq<T> {
    dst.take(at) + src + (if at + src.len() < dst.len() {
        dst.skip(at + src.len() as int)
    } else {
        Seq::<T>::empty()
    })
}

/// Append law: writing at the current end of a stream extends it by
/// exactly the written elements, in write order — successive end-of-data
/// writes therefore concatenate.
pub proof fn lemma_overwrite_at_end_appends<T>(dst: Seq<T>, src: Seq<T>)
    ensures
        seq_overwrite(dst, dst.len() as int, src) == dst + src,
{
    assert(seq_overwrite(dst, dst.len() as int, src) =~= dst + src);
}

/// Read-back law: the window over an appended region returns exactly the
/// elements that were appended there.
pub proof fn lemma_window_of_appended<T>(dst: Seq<T>, src: Seq<T>)
    ensures
        seq_window(dst + src, dst.len() as int, src.len() as int) == src,
{
    assert(seq_window(dst + src, dst.len() as int, src.len() as int) =~= src);
}

impl DataVecView {
    /// The element type of the buffer.
    pub open spec fn typ(self) -> GdTypes {
        match self {
            DataVecView::Float32(_) => GdTypes::Float32,
            DataVecView::Float64(_) => GdTypes::Float64,
            DataVecView::Int32(_) => GdTypes::Int32,
            DataVecView::Int64(_) => GdTypes::Int64,
            DataVecView::Uint32(_) => GdTypes::Uint32,
            DataVecView::Uint64(_) => GdTypes::Uint64,
        }
    }

    /// The number of elements.
    pub open spec fn len(self) -> nat {
        match self {
            DataVecView::Float32(s) => s.len(),
            DataVecView::Float64(s) => s.len(),
            DataVecView::Int32(s) => s.len(),
            DataVecView::Int64(s) => s.len(),
            DataVecView::Uint32(s) => s.len(),
            DataVecView::Uint64(s) => s.len(),
        }
    }

    /// The empty buffer of type `t`.
    pub open spec fn empty(t: GdTypes) -> DataVecView {
        match t {
            GdTypes::Float32 => DataVecView::Float32(Seq::empty()),
            GdTypes::Float64 => DataVecView::Float64(Seq::empty()),
            GdTypes::Int32 => DataVecView::Int32(Seq::empty()),
            GdTypes::Int64 => DataVecView::Int64(Seq::empty()),
            GdTypes::Uint32 => DataVecView::Uint32(Seq::empty()),
            GdTypes::Uint64 => DataVecView::Uint64(Seq::empty()),
        }
    }

    /// The first `n` elements.
    pub open spec fn take(self, n: int) -> DataVecView {
        match self {
            DataVecView::Float32(s) => DataVecView::Float32(s.take(n)),
            DataVecView::Float64(s) => DataVecView::Float64(s.take(n)),
            DataVecView::Int32(s) => DataVecView::Int32(s.take(n)),
            DataVecView::Int64(s) => DataVecView::Int64(s.take(n)),
            DataVecView::Uint32(s) => DataVecView::Uint32(s.take(n)),
            DataVecView::Uint64(s) => DataVecView::Uint64(s.take(n)),
        }
    }

    /// The clamped window of `count` elements from `start` on.
    pub open spec fn window(self, start: int, count: int) -> DataVecView {
        match self {
            DataVecView::Float32(s) => DataVecView::Float32(seq_window(s, start, count)),
            DataVecView::Float64(s) => DataVecView::Float64(seq_window(s, start, count)),
            DataVecView::Int32(s) => DataVecView::Int32(seq_window(s, start, count)),
            DataVecView::Int64(s) => DataVecView::Int64(seq_window(s, start, count)),
            DataVecView::Uint32(s) => DataVecView::Uint32(seq_window(s, start, count)),
            DataVecView::Uint64(s) => DataVecView::Uint64(seq_window(s, start, count)),
        }
    }

    /// `src` written over this buffer starting at `at`. Meaningful only
    /// for a `src` of the same element type: any other is ignored.
    pub open spec fn overwrite(self, at: int, src: DataVecView) -> DataVecView {
        match (self, src) {
            (DataVecView::Float32(d), DataVecView::Float32(s)) => DataVecView::Float32(
                seq_overwrite(d, at, s),
            ),
            (DataVecView::Float64(d), DataVecView::Float64(s)) => DataVecView::Float64(
                seq_overwrite(d, at, s),
            ),
            (DataVecView::Int32(d), DataVecView::Int32(s)) => DataVecView::Int32(
                seq_overwrite(d, at, s),
            ),
            (DataVecView::Int64(d), DataVecView::Int64(s)) => DataVecView::Int64(
                seq_overwrite(d, at, s),
            ),
            (DataVecView::Uint32(d), DataVecView::Uint32(s)) => DataVecView::Uint32(
                seq_overwrite(d, at, s),
            ),
            (DataVecView::Uint64(d), DataVecView::Uint64(s)) => DataVecView::Uint64(
                seq_overwrite(d, at, s),
            ),
            _ => self,
        }
    }
}

impl DataVec {
    /// The buffer's element type.
    pub fn gd_type(&self) -> (t: GdTypes)
        ensures
            t == self@.typ(),
    {
        match self {
            DataVec::Float32(_) => GdTypes::Float32,
            DataVec::Float64(_) => GdTypes::Float64,
            DataVec::Int32(_) => GdTypes::Int32,
            DataVec::Int64(_) => GdTypes::Int64,
            DataVec::Uint32(_) => GdTypes::Uint32,
            DataVec::Uint64(_) => GdTypes::Uint64,
        }
    }

    /// The number of elements.
    pub fn len(&self) -> (n: usize)
        ensures
            n == self@.len(),
    {
        match self {
            DataVec::Float32(v) => v.len(),
            DataVec::Float64(v) => v.len(),
            DataVec::Int32(v) => v.len(),
            DataVec::Int64(v) => v.len(),
            DataVec::Uint32(v) => v.len(),
            DataVec::Uint64(v) => v.len(),
        }
    }

    /// Run-time type-identity check: whether this buffer's element type is
    /// exactly `t`. An exhaustive match on the closed set of scalar kinds,
    /// with no implicit coercion.
    pub fn matches_type(&self, t: GdTypes) -> (b: bool)
        ensures
            b == (self@.typ() == t),
    {
        self.gd_type() == t
    }

    /// The empty buffer of element type `t`.
    pub fn new_empty(t: GdTypes) -> (r: DataVec)
        ensures
            r@ == DataVecView::empty(t),
    {
        match t {
            GdTypes::Float32 => DataVec::Float32(Vec::new()),
            GdTypes::Float64 => DataVec::Float64(Vec::new()),
            GdTypes::Int32 => DataVec::Int32(Vec::new()),
            GdTypes::Int64 => DataVec::Int64(Vec::new()),
            GdTypes::Uint32 => DataVec::Uint32(Vec::new()),
            GdTypes::Uint64 => DataVec::Uint64(Vec::new()),
        }
    }

    /// Writes the first `count` elements of `src` over this buffer
    /// starting at `at`, extending it where they run past the end.
    pub fn write_range(&mut self, at: usize, src: &DataVec, count: usize)
        requires
            old(self)@.typ() == src@.typ(),
            at <= old(self)@.len(),
            count <= src@.len(),
        ensures
            final(self)@ == old(self)@.overwrite(at as int, src@.take(count as int)),
            final(self)@.typ() == old(self)@.typ(),
    {
        match self {
            DataVec::Float32(d) => match src {
                DataVec::Float32(s) => vec_write_range(d, at, s, count),
                _ => proof { assert(false); },
            },
            DataVec::Float64(d) => match src {
                DataVec::Float64(s) => vec_write_range(d, at, s, count),
                _ => proof { assert(false); },
            },
            DataVec::Int32(d) => match src {
                DataVec::Int32(s) => vec_write_range(d, at, s, count),
                _ => proof { assert(false); },
            },
            DataVec::Int64(d) => match src {
                DataVec::Int64(s) => vec_write_range(d, at, s, count),
                _ => proof { assert(false); },
            },
            DataVec::Uint32(d) => match src {
                DataVec::Uint32(s) => vec_write_range(d, at, s, count),
                _ => proof { assert(false); },
            },
            DataVec::Uint64(d) => match src {
                DataVec::Uint64(s) => vec_write_range(d, at, s, count),
                _ => proof { assert(false); },
            },
        }
    }

    /// The clamped window of `count` elements from `start` on, as a fresh
    /// buffer of the same element type.
    pub fn read_range(&self, start: usize, count: usize) -> (r: DataVec)
        ensures
            r@ == self@.window(start as int, count as int),
            r@.typ() == self@.typ(),
    {
        match self {
            DataVec::Float32(v) => DataVec::Float32(vec_read_window(v, start, count)),
            DataVec::Float64(v) => DataVec::Float64(vec_read_window(v, start, count)),
            DataVec::Int32(v) => DataVec::Int32(vec_read_window(v, start, count)),
            DataVec::Int64(v) => DataVec::Int64(vec_read_window(v, start, count)),
            DataVec::Uint32(v) => DataVec::Uint32(vec_read_window(v, start, count)),
            DataVec::Uint64(v) => DataVec::Uint64(vec_read_window(v, start, count)),
        }
    }
}

/// Writes `src`'s first `count` elements over `dst` from `at` on,
/// extending `dst` where they run past its end.
fn vec_write_range<T: Copy>(dst: &mut Vec<T>, at: usize, src: &Vec<T>, count: usize)
    requires
        at <= old(dst)@.len(),
        count <= src@.len(),
    ensures
        final(dst)@ == seq_overwrite(old(dst)@, at as int, src@.take(count as int)),
{
    let mut i: usize = 0;
    let mut pos: usize = at;
    while i < count
        invariant
            i <= count <= src@.len(),
            at <= old(dst)@.len(),
            pos == at + i,
            dst@.len() == if at + i <= old(dst)@.len() {
                old(dst)@.len()
            } else {
                (at + i) as nat
            },
            forall|j: int| 0 <= j < at ==> #[trigger] dst@[j] == old(dst)@[j],
            forall|j: int| at <= j < at + i ==> #[trigger] dst@[j] == src@[j - at],
            forall|j: int| at + i <= j < dst@.len() ==> #[trigger] dst@[j] == old(dst)@[j],
        decreases count - i,
    {
        let x = src[i];
        if pos < dst.len() {
            dst[pos] = x;
            pos += 1;
        } else {
            dst.push(x);
            pos = dst.len();
        }
        i += 1;
    }
    proof {
        assert(dst@ =~= seq_overwrite(old(dst)@, at as int, src@.take(count as int)));
    }
}

/// The clamped window of `count` elements of `v` from `start` on.
fn vec_read_window<T: Copy>(v: &Vec<T>, start: usize, count: usize) -> (r: Vec<T>)
    ensures
        r@ == seq_window(v@, start as int, count as int),
{
    let mut r: Vec<T> = Vec::new();
    if start >= v.len() {
        proof {
            assert(r@ =~= seq_window(v@, start as int, count as int));
        }
        return r;
    }
    let avail = v.len() - start;
    let take_n = if count < avail {
        count
    } else {
        avail
    };
    let mut i: usize = 0;
    let mut pos: usize = start;
    while i < take_n
        invariant
            i <= take_n,
            start + take_n <= v@.len(),
            v@.len() <= usize::MAX,
            pos == start + i,
            r@.len() == i,
            forall|j: int| 0 <= j < i ==> #[trigger] r@[j] == v@[start + j],
        decreases take_n - i,
    {
        r.push(v[pos]);
        pos += 1;
        i += 1;
    }
    proof {
        assert(r@ =~= seq_window(v@, start as int, count as int));
    }
    r
}

} // verus!
