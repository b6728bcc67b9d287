//! The byte staging buffer: a region of bytes with a split point between the
//! bytes that hold data (`filled`) and the room that is left (`unfilled`).
//!
//! A buffer is either fixed, laid over a slice that the caller lends, or
//! growable, owning storage that `reserve` can extend.

use vstd::prelude::*;

verus! {

/// What a staging buffer is, mathematically: its whole storage, the number of
/// leading bytes that are in use, and whether the storage can grow.
pub struct BufferModel {
    pub bytes: Seq<u8>,
    pub used: nat,
    pub growable: bool,
}

impl BufferModel {
    /// The split point lies inside the storage.
    pub open spec fn wf(self) -> bool {
        self.used <= self.bytes.len()
    }

    pub open spec fn capacity(self) -> nat {
        self.bytes.len()
    }

    /// The bytes in use: `[0, used)`.
    pub open spec fn filled(self) -> Seq<u8> {
        self.bytes.subrange(0, self.used as int)
    }

    /// The room that is left: `[used, capacity)`.
    pub open spec fn unfilled(self) -> Seq<u8> {
        self.bytes.subrange(self.used as int, self.bytes.len() as int)
    }

    /// The buffer with `region` in place of its unfilled part.
    pub open spec fn with_unfilled(self, region: Seq<u8>) -> BufferModel {
        BufferModel { bytes: self.filled() + region, ..self }
    }

    /// The buffer with `region` in place of its filled part.
    pub open spec fn with_filled(self, region: Seq<u8>) -> BufferModel {
        BufferModel { bytes: region + self.unfilled(), ..self }
    }

    /// `n` more bytes count as filled.
    pub open spec fn advance(self, n: nat) -> BufferModel {
        BufferModel { used: self.used + n, ..self }
    }

    /// Nothing counts as filled; the storage is left as it is.
    pub open spec fn clear(self) -> BufferModel {
        BufferModel { used: 0, ..self }
    }

    /// The first `n` filled bytes are dropped and the rest of them moved to
    /// the front. The bytes behind the new split point keep what they held.
    pub open spec fn discard(self, n: nat) -> BufferModel {
        BufferModel {
            bytes: self.bytes.subrange(n as int, self.used as int) + self.bytes.subrange(
                self.used - n,
                self.bytes.len() as int,
            ),
            used: (self.used - n) as nat,
            ..self
        }
    }

    /// `extra` zero bytes are added behind the storage.
    pub open spec fn reserve(self, extra: nat) -> BufferModel {
        BufferModel { bytes: self.bytes + Seq::new(extra, |i: int| 0u8), ..self }
    }

    /// The storage is cut or zero-extended to `len` bytes.
    pub open spec fn resize(self, len: nat) -> BufferModel {
        if len <= self.bytes.len() {
            BufferModel { bytes: self.bytes.subrange(0, len as int), ..self }
        } else {
            self.reserve((len - self.bytes.len()) as nat)
        }
    }
}

/// One use of a staging buffer.
pub enum BufferOp {
    /// The room that is left is overwritten with `region`, and its first
    /// `count` bytes are marked as filled.
    Write { region: Seq<u8>, count: nat },
    /// So many bytes are discarded from the front.
    Discard(nat),
    /// The buffer is cleared.
    Clear,
}

impl BufferModel {
    /// Whether `op` respects what the buffer asks of its caller.
    pub open spec fn admits(self, op: BufferOp) -> bool {
        match op {
            BufferOp::Write { region, count } => region.len() == self.unfilled().len() && count
                <= region.len(),
            BufferOp::Discard(n) => n <= self.used,
            BufferOp::Clear => true,
        }
    }

    /// The buffer after `op`.
    pub open spec fn apply(self, op: BufferOp) -> BufferModel {
        match op {
            BufferOp::Write { region, count } => self.with_unfilled(region).advance(count),
            BufferOp::Discard(n) => self.discard(n),
            BufferOp::Clear => self.clear(),
        }
    }

    /// Whether each of `ops`, in turn, respects what the buffer asks.
    pub open spec fn admits_all(self, ops: Seq<BufferOp>) -> bool
        decreases ops.len(),
    {
        ops.len() == 0 || (self.admits_all(ops.drop_last()) && self.apply_all(
            ops.drop_last(),
        ).admits(ops.last()))
    }

    /// The buffer after all of `ops`, in turn.
    pub open spec fn apply_all(self, ops: Seq<BufferOp>) -> BufferModel
        decreases ops.len(),
    {
        if ops.len() == 0 {
            self
        } else {
            self.apply_all(ops.drop_last()).apply(ops.last())
        }
    }
}

/// What a stream of bytes holds that held `held` before `ops`: what was
/// written is added behind, what was discarded is taken from the front, and
/// a clear leaves nothing.
pub open spec fn stream_after(held: Seq<u8>, ops: Seq<BufferOp>) -> Seq<u8>
    decreases ops.len(),
{
    if ops.len() == 0 {
        held
    } else {
        let so_far = stream_after(held, ops.drop_last());
        match ops.last() {
            BufferOp::Write { region, count } => so_far + region.subrange(0, count as int),
            BufferOp::Discard(n) => so_far.skip(n as int),
            BufferOp::Clear => Seq::empty(),
        }
    }
}

/// Discarding `n` of the bytes in use leaves the others, in order, from
/// offset 0 on.
pub proof fn lemma_discard(buffer: BufferModel, n: nat)
    requires
        buffer.wf(),
        n <= buffer.used,
    ensures
        buffer.discard(n).wf(),
        buffer.discard(n).used == buffer.used - n,
        buffer.discard(n).capacity() == buffer.capacity(),
        buffer.discard(n).filled() == buffer.filled().skip(n as int),
        forall|i: int|
            0 <= i < buffer.used - n ==> #[trigger] buffer.discard(n).bytes[i] == buffer.bytes[n
                + i],
{
    assert(buffer.discard(n).filled() =~= buffer.filled().skip(n as int));
}

/// Whatever is done to a buffer by writing, discarding and clearing within
/// what it asks of its caller, the number of bytes in use stays within the
/// capacity, the capacity stays what it was, and the bytes in use are those
/// written and not discarded since, in order.
pub proof fn lemma_buffer_invariants(buffer: BufferModel, ops: Seq<BufferOp>)
    requires
        buffer.wf(),
        buffer.admits_all(ops),
    ensures
        buffer.apply_all(ops).wf(),
        buffer.apply_all(ops).used <= buffer.apply_all(ops).capacity(),
        buffer.apply_all(ops).capacity() == buffer.capacity(),
        buffer.apply_all(ops).growable == buffer.growable,
        buffer.apply_all(ops).filled() == stream_after(buffer.filled(), ops),
    decreases ops.len(),
{
    if ops.len() > 0 {
        let before = buffer.apply_all(ops.drop_last());
        lemma_buffer_invariants(buffer, ops.drop_last());
        match ops.last() {
            BufferOp::Write { region, count } => {
                assert(before.apply(ops.last()).filled() =~= before.filled() + region.subrange(
                    0,
                    count as int,
                ));
            },
            BufferOp::Discard(n) => {
                lemma_discard(before, n);
            },
            BufferOp::Clear => {
                assert(before.clear().filled() =~= Seq::<u8>::empty());
            },
        }
    }
}

enum Storage<'a> {
    Fixed(&'a mut [u8]),
    Growable(Vec<u8>),
}

impl<'a> Storage<'a> {
    spec fn bytes(&self) -> Seq<u8> {
        match self {
            Storage::Fixed(slice) => slice@,
            Storage::Growable(vec) => vec@,
        }
    }

    proof fn lemma_len_fits(&self)
        ensures
            self.bytes().len() <= usize::MAX,
    {
        match self {
            Storage::Fixed(slice) => {
                assert(slice.len() == slice@.len());
            },
            Storage::Growable(vec) => {
                assert(vec.len() == vec@.len());
            },
        }
    }

    fn len(&self) -> (n: usize)
        ensures
            n == self.bytes().len(),
    {
        match self {
            Storage::Fixed(slice) => slice.len(),
            Storage::Growable(vec) => vec.len(),
        }
    }

    fn as_slice(&self) -> (r: &[u8])
        ensures
            r@ == self.bytes(),
    {
        match self {
            Storage::Fixed(slice) => slice,
            Storage::Growable(vec) => vec.as_slice(),
        }
    }

    fn as_mut_slice(&mut self) -> (r: &mut [u8])
        ensures
            r@ == old(self).bytes(),
            final(self).bytes() == final(r)@,
            (*final(self) is Growable) <==> (*old(self) is Growable),
    {
        match self {
            Storage::Fixed(slice) => slice,
            Storage::Growable(vec) => vec.as_mut_slice(),
        }
    }
}

/// A staging buffer for TLS records.
pub struct TlsBuffer<'a> {
    inner: Storage<'a>,
    used: usize,
}

impl<'a> View for TlsBuffer<'a> {
    type V = BufferModel;

    closed spec fn view(&self) -> BufferModel {
        BufferModel {
            bytes: self.inner.bytes(),
            used: self.used as nat,
            growable: self.inner is Growable,
        }
    }
}

impl<'a> TlsBuffer<'a> {
    /// The invariant of the type: `used <= capacity`.
    pub open spec fn wf(&self) -> bool {
        self@.wf()
    }

    /// The storage of a buffer is never larger than `usize::MAX`.
    pub proof fn lemma_capacity_fits(&self)
        ensures
            self@.capacity() <= usize::MAX,
    {
        self.inner.lemma_len_fits();
    }

    /// A fixed buffer over `buf`, with nothing in use.
    pub fn init(buf: &'a mut [u8]) -> (r: Self)
        ensures
            r.wf(),
            r@ == (BufferModel { bytes: old(buf)@, used: 0, growable: false }),
    {
        TlsBuffer { inner: Storage::Fixed(buf), used: 0 }
    }

    /// A growable buffer of `capacity` zero bytes, with nothing in use.
    pub fn growable(capacity: usize) -> (r: TlsBuffer<'static>)
        ensures
            r.wf(),
            r@ == (BufferModel {
                bytes: Seq::new(capacity as nat, |i: int| 0u8),
                used: 0,
                growable: true,
            }),
    {
        let mut storage: Vec<u8> = Vec::new();
        storage.resize(capacity, 0u8);
        assert(storage@ =~= Seq::new(capacity as nat, |i: int| 0u8));
        TlsBuffer { inner: Storage::Growable(storage), used: 0 }
    }

    /// Marks `num_bytes` more bytes, just written into `unfilled()`, as filled.
    pub fn advance(&mut self, num_bytes: usize)
        requires
            old(self).wf(),
            old(self)@.used + num_bytes <= old(self)@.capacity(),
        ensures
            final(self).wf(),
            final(self)@ == old(self)@.advance(num_bytes as nat),
    {
        proof {
            self.lemma_capacity_fits();
        }
        self.used = self.used + num_bytes;
    }

    /// Counts every byte as consumed. The storage is not touched.
    pub fn clear(&mut self)
        ensures
            final(self).wf(),
            final(self)@ == old(self)@.clear(),
    {
        self.used = 0;
    }

    /// Drops `num_bytes` from the front of the filled bytes and moves the
    /// rest to offset 0.
    pub fn discard(&mut self, num_bytes: usize)
        requires
            old(self).wf(),
            num_bytes <= old(self)@.used,
        ensures
            final(self).wf(),
            final(self)@ == old(self)@.discard(num_bytes as nat),
            final(self)@.filled() == old(self)@.filled().skip(num_bytes as int),
            final(self)@.capacity() == old(self)@.capacity(),
    {
        if num_bytes == 0 {
            assert(self@.discard(0).bytes =~= self@.bytes);
            assert(self@.filled().skip(0) =~= self@.filled());
            return ;
        }
        let used: usize = self.used;
        let kept: usize = used - num_bytes;
        let ghost before: Seq<u8> = self.inner.bytes();
        let storage = self.inner.as_mut_slice();
        let mut i: usize = 0;
        while i < kept
            invariant
                i <= kept,
                kept == used - num_bytes,
                used <= before.len(),
                storage@.len() == before.len(),
                forall|j: int| 0 <= j < i ==> storage@[j] == before[j + num_bytes],
                forall|j: int| i <= j < before.len() ==> storage@[j] == before[j],
            decreases kept - i,
        {
            let byte: u8 = storage[i + num_bytes];
            storage[i] = byte;
            i = i + 1;
        }
        assert(storage@ =~= before.subrange(num_bytes as int, used as int) + before.subrange(
            used - num_bytes,
            before.len() as int,
        ));
        self.used = kept;
        assert(self@.filled() =~= old(self)@.filled().skip(num_bytes as int));
    }

    /// The bytes in use.
    pub fn filled(&self) -> (r: &[u8])
        requires
            self.wf(),
        ensures
            r@ == self@.filled(),
    {
        let whole = self.inner.as_slice();
        vstd::slice::slice_subrange(whole, 0, self.used)
    }

    /// The bytes in use, open to change in place. A slice keeps its length,
    /// so whoever holds the result leaves the buffer well formed.
    pub fn filled_mut(&mut self) -> (r: &mut [u8])
        requires
            old(self).wf(),
        ensures
            r@ == old(self)@.filled(),
            final(self)@ == old(self)@.with_filled(final(r)@),
            final(r)@.len() == r@.len() ==> final(self).wf() && final(self)@.capacity() == old(
                self,
            )@.capacity(),
    {
        let used: usize = self.used;
        let whole = self.inner.as_mut_slice();
        let (head, _) = whole.split_at_mut(used);
        head
    }

    /// The room that is left: the only place where new bytes are written.
    pub fn unfilled(&mut self) -> (r: &mut [u8])
        requires
            old(self).wf(),
        ensures
            r@ == old(self)@.unfilled(),
            final(self).wf(),
            final(self)@ == old(self)@.with_unfilled(final(r)@),
            final(self)@.filled() == old(self)@.filled(),
            final(r)@.len() == r@.len() ==> final(self)@.capacity() == old(self)@.capacity(),
    {
        let used: usize = self.used;
        let whole = self.inner.as_mut_slice();
        let (_, tail) = whole.split_at_mut(used);
        tail
    }

    /// The number of bytes in use.
    pub fn used(&self) -> (n: usize)
        ensures
            n == self@.used,
    {
        self.used
    }

    /// The size of the whole storage.
    pub fn capacity(&self) -> (n: usize)
        ensures
            n == self@.capacity(),
    {
        self.inner.len()
    }

    /// Whether `reserve` may be called.
    pub fn is_growable(&self) -> (b: bool)
        ensures
            b == self@.growable,
    {
        match &self.inner {
            Storage::Fixed(_) => false,
            Storage::Growable(_) => true,
        }
    }

    /// Adds `extra` zero bytes behind the storage of a growable buffer.
    pub fn reserve(&mut self, extra: usize)
        requires
            old(self).wf(),
            old(self)@.growable,
            old(self)@.capacity() + extra <= usize::MAX,
        ensures
            final(self).wf(),
            final(self)@ == old(self)@.reserve(extra as nat),
    {
        match &mut self.inner {
            Storage::Fixed(_) => {},
            Storage::Growable(vec) => {
                let len: usize = vec.len() + extra;
                vec.resize(len, 0u8);
                assert(vec@ =~= old(self)@.bytes + Seq::new(extra as nat, |i: int| 0u8));
            },
        }
    }

    /// Cuts or zero-extends the storage of a growable buffer to `len` bytes.
    /// The bytes in use stay.
    pub fn resize(&mut self, len: usize)
        requires
            old(self).wf(),
            old(self)@.growable,
            old(self)@.used <= len,
        ensures
            final(self).wf(),
            final(self)@ == old(self)@.resize(len as nat),
            final(self)@.capacity() == len,
            final(self)@.filled() == old(self)@.filled(),
    {
        match &mut self.inner {
            Storage::Fixed(_) => {},
            Storage::Growable(vec) => {
                vec.resize(len, 0u8);
                assert(vec@ =~= old(self)@.resize(len as nat).bytes);
            },
        }
        assert(self@.filled() =~= old(self)@.filled());
    }
}

} // verus!
