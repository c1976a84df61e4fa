//! The buffer itself: allocation at a fixed capacity, bounds-checked
//! bulk writes and reads, and release when the owning scope ends.

use vstd::prelude::*;
use vstd::pervasive::VecAdditionalExecFns;

verus! {

/// Error reported by the checked operations when a requested range
/// does not fit within the buffer's capacity.
#[derive(Clone, Copy, Debug, PartialEq, Eq)]
pub enum BufferError {
    OutOfBounds,
}

/// What a bulk write leaves behind: `pre` with the slots
/// `offset .. offset + data.len()` replaced by `data`, every other
/// slot kept as it was.
pub open spec fn overwritten<T>(pre: Seq<T>, offset: int, data: Seq<T>) -> Seq<T> {
    Seq::new(
        pre.len(),
        |i: int|
            if offset <= i < offset + data.len() {
                data[i - offset]
            } else {
                pre[i]
            },
    )
}

/// A fixed-capacity, type-homogeneous buffer. The capacity is chosen at
/// construction and never changes; the storage is owned exclusively and
/// released exactly once, when the buffer is dropped.
pub struct TypedBuffer<T> {
    storage: Vec<T>,
}

impl<T> View for TypedBuffer<T> {
    type V = Seq<T>;

    closed spec fn view(&self) -> Seq<T> {
        self.storage@
    }
}

impl<T> TypedBuffer<T> {
    /// The number of element slots the buffer was constructed with.
    pub fn capacity(&self) -> (c: usize)
        ensures
            c == self@.len(),
    {
        self.storage.len()
    }

    /// The bounds check shared by every copy operation: does the range
    /// `offset .. offset + length` fit within the capacity? Phrased so
    /// that the sum cannot overflow at run time.
    pub fn in_bounds(&self, offset: usize, length: usize) -> (ok: bool)
        ensures
            ok <==> offset + length <= self@.len(),
    {
        offset <= self.storage.len() && length <= self.storage.len() - offset
    }
}

impl<T: Copy> TypedBuffer<T> {
    /// Copies all of `data` into the buffer starting at slot `offset`,
    /// overwriting whatever the covered slots held; no other slot changes.
    /// The range must fit: an out-of-range request is excluded up front,
    /// so the copy can never touch memory outside the buffer.
    pub fn write_data(&mut self, offset: usize, data: &[T])
        requires
            offset + data@.len() <= old(self)@.len(),
        ensures
            final(self)@ == overwritten(old(self)@, offset as int, data@),
    {
        let n: usize = self.storage.len();
        let mut i: usize = 0;
        while i < data.len()
            invariant
                i <= data@.len(),
                offset + data@.len() <= n,
                n == old(self)@.len(),
                self@.len() == n,
                forall|j: int| 0 <= j < i ==> self@[offset + j] == data@[j],
                forall|j: int|
                    0 <= j < n && !(offset <= j < offset + i) ==> self@[j] == old(self)@[j],
            decreases data@.len() - i,
        {
            self.storage.set(offset + i, data[i]);
            i = i + 1;
        }
        proof {
            assert(self@ =~= overwritten(old(self)@, offset as int, data@));
        }
    }

    /// Copies `length` elements out of the buffer starting at slot
    /// `offset` into a newly allocated, independent vector. The buffer
    /// itself is not changed. The range must fit, as for `write_data`.
    pub fn read_data(&self, offset: usize, length: usize) -> (out: Vec<T>)
        requires
            offset + length <= self@.len(),
        ensures
            out@ == self@.subrange(offset as int, offset + length),
    {
        let n: usize = self.storage.len();
        let mut out: Vec<T> = Vec::with_capacity(length);
        let mut i: usize = 0;
        while i < length
            invariant
                i <= length,
                offset + length <= n,
                n == self@.len(),
                out@.len() == i,
                forall|j: int| 0 <= j < i ==> out@[j] == self@[offset + j],
            decreases length - i,
        {
            out.push(self.storage[offset + i]);
            i = i + 1;
        }
        proof {
            assert(out@ =~= self@.subrange(offset as int, offset + length));
        }
        out
    }

    /// Checked write: performs the copy exactly when the requested range
    /// fits within the capacity, and otherwise reports `OutOfBounds`
    /// without touching a single slot.
    pub fn try_write_data(&mut self, offset: usize, data: &[T]) -> (r: Result<
        (),
        BufferError,
    >)
        ensures
            offset + data@.len() <= old(self)@.len() ==> r is Ok && final(self)@ == overwritten(
                old(self)@,
                offset as int,
                data@,
            ),
            offset + data@.len() > old(self)@.len() ==> r == Err::<(), BufferError>(
                BufferError::OutOfBounds,
            ) && final(self)@ == old(self)@,
    {
        if self.in_bounds(offset, data.len()) {
            self.write_data(offset, data);
            Ok(())
        } else {
            Err(BufferError::OutOfBounds)
        }
    }

    /// Checked read: returns the copied-out vector exactly when the
    /// requested range fits within the capacity, and otherwise reports
    /// `OutOfBounds`. The buffer is never changed.
    pub fn try_read_data(&self, offset: usize, length: usize) -> (r: Result<
        Vec<T>,
        BufferError,
    >)
        ensures
            offset + length <= self@.len() ==> (r matches Ok(out) && out@ == self@.subrange(
                offset as int,
                offset + length,
            )),
            offset + length > self@.len() ==> r == Err::<Vec<T>, BufferError>(
                BufferError::OutOfBounds,
            ),
    {
        if self.in_bounds(offset, length) {
            Ok(self.read_data(offset, length))
        } else {
            Err(BufferError::OutOfBounds)
        }
    }
}

impl<T: Default> TypedBuffer<T> {
    /// Allocates storage for exactly `capacity` elements.
    ///
    /// The contract promises only the capacity: a slot that has never
    /// been written holds an unspecified value, and callers may not
    /// rely on any particular initial content.
    pub fn new(capacity: usize) -> (buf: Self)
        ensures
            buf@.len() == capacity,
    {
        let mut storage: Vec<T> = Vec::with_capacity(capacity);
        let mut i: usize = 0;
        while i < capacity
            invariant
                i <= capacity,
                storage@.len() == i,
            decreases capacity - i,
        {
            storage.push(T::default());
            i = i + 1;
        }
        TypedBuffer { storage }
    }
}

/// Round trip: after a write of `data` at `offset` into a buffer it fits
/// in, reading back exactly the written range returns `data` itself, in
/// order, whatever the buffer held before.
pub proof fn lemma_round_trip<T>(pre: Seq<T>, offset: int, data: Seq<T>)
    requires
        0 <= offset,
        offset + data.len() <= pre.len(),
    ensures
        overwritten(pre, offset, data).subrange(offset, offset + data.len()) == data,
{
    assert(overwritten(pre, offset, data).subrange(offset, offset + data.len()) =~= data);
}

/// Non-interference: a write changes nothing outside the written range.
/// The buffer keeps its length, and every slot outside
/// `offset .. offset + data.len()` holds exactly what it held before.
pub proof fn lemma_non_interference<T>(pre: Seq<T>, offset: int, data: Seq<T>)
    requires
        0 <= offset,
        offset + data.len() <= pre.len(),
    ensures
        overwritten(pre, offset, data).len() == pre.len(),
        forall|i: int|
            0 <= i < pre.len() && !(offset <= i < offset + data.len())
                ==> overwritten(pre, offset, data)[i] == pre[i],
{
}

/// A zero-length write is a no-op: wherever it lands within the
/// capacity, it leaves the buffer exactly as it was.
pub proof fn lemma_zero_length_write_is_noop<T>(pre: Seq<T>, offset: int)
    requires
        0 <= offset <= pre.len(),
    ensures
        overwritten(pre, offset, Seq::<T>::empty()) == pre,
{
    assert(overwritten(pre, offset, Seq::<T>::empty()) =~= pre);
}

} // verus!
