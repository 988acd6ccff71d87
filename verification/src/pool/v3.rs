//! Lock-free builder pools over a bounded queue.
//!
//! `FlatBufferBuilderPool` is the configuration: initial size, maximum size
//! and per-builder buffer capacity, kept coupled so that initial ≤ maximum
//! always holds.  `build` materializes a [`LocalFlatBufferBuilderPool`], a
//! privately owned pool whose handles carry a drained mark for teardown
//! races.  [`GlobalPool`] is the same engine for a process-wide pool; the
//! process-wide instance itself (a lazily initialized shared value) is left
//! to the unverified embedding, which owns exactly the plumbing the verifier
//! cannot see.

use vstd::prelude::*;
use vstd::string::StringSliceAdditionalSpecFns;

use crate::fbb::builder_bytes;
use crate::fbb::builder_push_u8;
use crate::fbb::builder_ready;
use crate::fbb::builder_reset;
use crate::fbb::builder_unfinished_data;
use crate::fbb::builder_with_capacity;
use crate::fbb::RawBuilder;
use crate::fbb::MAX_BUFFER_CAPACITY;
use crate::pool::queue::queue_cap;
use crate::pool::queue::queue_len;
use crate::pool::queue::queue_new;
use crate::pool::queue::queue_pop;
use crate::pool::queue::queue_push;
use crate::pool::queue::queue_view;
use crate::pool::queue::MAX_QUEUE_CAPACITY;
use crate::pool::release::release_outcome;
use crate::pool::release::ReleaseOutcome;

verus! {

/// Default number of pre-allocated idle builders.
pub const INIT_POOL_SIZE: usize = 32;

/// Default maximum number of idle builders.
pub const MAX_POOL_SIZE: usize = 1024;

/// Default buffer capacity of a newly allocated builder.
pub const BUFFER_CAPACITY: usize = 64;

/// Pool configuration: initial pool size, maximum pool size, and the buffer
/// capacity handed to newly allocated builders.
///
/// The two sizes are kept coupled: raising `initial` above `maximum` raises
/// `maximum` with it, and lowering `maximum` below `initial` lowers
/// `initial`, so initial ≤ maximum always holds (see [`Self::wf`]).
pub struct FlatBufferBuilderPool {
    /// Initial pool size.
    init: usize,
    /// Maximum pool size.
    max: usize,
    /// Buffer capacity for newly allocated builders.
    capacity: usize,
}

impl FlatBufferBuilderPool {
    /// The configured initial pool size.
    pub closed spec fn init_size(&self) -> usize {
        self.init
    }

    /// The configured maximum pool size.
    pub closed spec fn max_size(&self) -> usize {
        self.max
    }

    /// The configured buffer capacity for new builders.
    pub closed spec fn buf_capacity(&self) -> usize {
        self.capacity
    }

    /// The cross-field invariant every configuration keeps: a pool is never
    /// asked to start with more builders than it may hold.
    pub open spec fn wf(&self) -> bool {
        self.init_size() <= self.max_size()
    }

    /// The configured initial pool size, as a value.
    pub fn initial_size(&self) -> (n: usize)
        ensures
            n == self.init_size(),
    {
        self.init
    }

    /// The configured maximum pool size, as a value.
    pub fn maximum_size(&self) -> (n: usize)
        ensures
            n == self.max_size(),
    {
        self.max
    }

    /// The configured buffer capacity, as a value.
    pub fn capacity(&self) -> (n: usize)
        ensures
            n == self.buf_capacity(),
    {
        self.capacity
    }

    /// A configuration with the default sizes.
    pub fn new() -> (r: Self)
        ensures
            r.wf(),
            r.init_size() == INIT_POOL_SIZE,
            r.max_size() == MAX_POOL_SIZE,
            r.buf_capacity() == BUFFER_CAPACITY,
    {
        Self::default()
    }

    /// Sets the initial pool size, raising the maximum to match if it would
    /// otherwise fall below the new initial size.
    pub fn init_pool_size(self, size: usize) -> (r: Self)
        ensures
            r.wf(),
            r.init_size() == size,
            r.max_size() == if self.max_size() < size {
                size
            } else {
                self.max_size()
            },
            r.buf_capacity() == self.buf_capacity(),
    {
        let mut s = self;
        s.init = size;
        if s.max < size {
            s.max = size;
        }
        s
    }

    /// Sets the maximum pool size, lowering the initial size to match if it
    /// would otherwise exceed the new maximum.
    pub fn max_pool_size(self, size: usize) -> (r: Self)
        ensures
            r.wf(),
            r.max_size() == size,
            r.init_size() == if self.init_size() > size {
                size
            } else {
                self.init_size()
            },
            r.buf_capacity() == self.buf_capacity(),
    {
        let mut s = self;
        s.max = size;
        if s.init > size {
            s.init = size;
        }
        s
    }

    /// Sets the buffer capacity for newly allocated builders; builders
    /// already sitting in a pool keep the capacity they were created with.
    pub fn buffer_capacity(self, capacity: usize) -> (r: Self)
        ensures
            r.init_size() == self.init_size(),
            r.max_size() == self.max_size(),
            r.buf_capacity() == capacity,
    {
        let mut s = self;
        s.capacity = capacity;
        s
    }

    /// Materializes a local pool, pre-populated with `initial` freshly
    /// allocated builders.
    pub fn build(&self) -> (p: LocalFlatBufferBuilderPool)
        requires
            self.wf(),
            1 <= self.max_size() <= MAX_QUEUE_CAPACITY,
            self.buf_capacity() <= MAX_BUFFER_CAPACITY,
        ensures
            p.wf(),
            p.max_size() == self.max_size(),
            p.buf_capacity() == self.buf_capacity(),
            p.idle().len() == self.init_size(),
    {
        let mut inner = queue_new(self.max);
        let mut i: usize = 0;
        while i < self.init
            invariant
                i <= self.init,
                self.init <= self.max,
                self.capacity <= MAX_BUFFER_CAPACITY,
                queue_cap(inner) == self.max,
                queue_view(inner).len() == i,
                forall|j: int|
                    0 <= j < i ==> #[trigger] queue_view(inner)[j] == (Seq::<u8>::empty(), true),
            decreases self.init - i,
        {
            let b = builder_with_capacity(self.capacity);
            let _pushed = queue_push(&mut inner, b);
            i = i + 1;
        }
        LocalFlatBufferBuilderPool { capacity: self.capacity, inner }
    }
}

impl Default for FlatBufferBuilderPool {
    /// The default configuration: the three default sizes above.
    fn default() -> (r: Self)
        ensures
            r.wf(),
            r.init_size() == INIT_POOL_SIZE,
            r.max_size() == MAX_POOL_SIZE,
            r.buf_capacity() == BUFFER_CAPACITY,
    {
        Self { init: INIT_POOL_SIZE, max: MAX_POOL_SIZE, capacity: BUFFER_CAPACITY }
    }
}

/// A builder checked out of a [`GlobalPool`].
pub struct GlobalBuilder {
    inner: RawBuilder,
}

impl GlobalBuilder {
    /// The bytes this builder has accumulated so far.
    pub closed spec fn content(&self) -> Seq<u8> {
        builder_bytes(self.inner)
    }

    /// Whether the builder is ready for writing (reset and not finished).
    pub closed spec fn ready(&self) -> bool {
        builder_ready(self.inner)
    }

    /// Writes one byte onto the front of the in-progress data.
    pub fn push_u8(&mut self, x: u8)
        requires
            old(self).content().len() < MAX_BUFFER_CAPACITY,
        ensures
            final(self).content() == seq![x] + old(self).content(),
            final(self).ready() == old(self).ready(),
    {
        builder_push_u8(&mut self.inner, x);
    }

    /// Writes a string into the buffer, returning its offset.
    pub fn create_string(&mut self, s: &str) -> (off: u32)
        requires
            old(self).ready(),
            old(self).content().len() + s.spec_bytes().len() + 8 < MAX_BUFFER_CAPACITY,
        ensures
            final(self).ready(),
            final(self).content().len() >= old(self).content().len() + s.spec_bytes().len() + 5,
            final(self).content().len() <= old(self).content().len() + s.spec_bytes().len() + 8,
            off == final(self).content().len(),
    {
        crate::fbb::builder_create_string(&mut self.inner, s)
    }

    /// Seals the buffer at the given root offset.
    pub fn finish(&mut self, root: u32)
        requires
            old(self).ready(),
            root <= old(self).content().len(),
            old(self).content().len() < MAX_BUFFER_CAPACITY,
        ensures
            !final(self).ready(),
            final(self).content().len() >= old(self).content().len() + 4,
    {
        crate::fbb::builder_finish(&mut self.inner, root)
    }

    /// The bytes written so far, sealed or not.
    pub fn unfinished_data(&self) -> (r: &[u8])
        ensures
            r@ == self.content(),
    {
        builder_unfinished_data(&self.inner)
    }

    /// Resets the builder to its empty, ready state, keeping its
    /// allocation.  Releasing does this again, so a caller may reset early
    /// without changing what ends up in the pool.
    pub fn reset(&mut self)
        ensures
            final(self).content() == Seq::<u8>::empty(),
            final(self).ready(),
    {
        builder_reset(&mut self.inner);
    }
}

impl Default for GlobalBuilder {
    /// A freshly allocated builder with the default buffer capacity.
    fn default() -> (b: Self)
        ensures
            b.content() == Seq::<u8>::empty(),
            b.ready(),
    {
        GlobalBuilder { inner: builder_with_capacity(BUFFER_CAPACITY) }
    }
}

/// The engine of the process-wide lock-free pool: a bounded queue of idle
/// builders plus the buffer capacity for fresh allocations.  The single
/// process-wide instance (lazily initialized, shared) is owned by the
/// unverified embedding; every state change it can make goes through the
/// verified methods here.
pub struct GlobalPool {
    /// Buffer capacity for newly allocated builders.
    capacity: usize,
    /// The idle builders.
    inner: crossbeam_queue::ArrayQueue<RawBuilder>,
}

impl GlobalPool {
    /// The idle builders: each entry is the pair of a builder's bytes and
    /// its readiness.
    pub closed spec fn idle(&self) -> Seq<(Seq<u8>, bool)> {
        queue_view(self.inner)
    }

    /// The queue capacity this pool was built with.
    pub closed spec fn max_size(&self) -> nat {
        queue_cap(self.inner)
    }

    /// The buffer capacity for newly allocated builders.
    pub closed spec fn buf_capacity(&self) -> usize {
        self.capacity
    }

    /// Every idle builder is reset and ready, and the pool is bounded.
    pub open spec fn wf(&self) -> bool {
        &&& 1 <= self.max_size()
        &&& self.idle().len() <= self.max_size()
        &&& self.buf_capacity() <= MAX_BUFFER_CAPACITY
        &&& forall|i: int|
            0 <= i < self.idle().len() ==> #[trigger] self.idle()[i] == (Seq::<u8>::empty(), true)
    }

    /// Law: every builder sitting idle inside a well-formed pool has empty
    /// content and is ready — nothing from a previous use survives in the
    /// pool.
    pub proof fn lemma_idle_builders_reset(&self)
        requires
            self.wf(),
        ensures
            forall|i: int|
                0 <= i < self.idle().len() ==> #[trigger] self.idle()[i] == (
                Seq::<u8>::empty(),
                true,
            ),
    {
    }

    /// Law: a well-formed pool never holds more idle builders than its
    /// configured maximum.
    pub proof fn lemma_capacity_bound(&self)
        requires
            self.wf(),
        ensures
            self.idle().len() <= self.max_size(),
    {
    }

    /// Law (round trip): whatever bytes a checked-out builder accumulated,
    /// no idle entry of a well-formed pool holds them — releasing resets the
    /// builder before it is pooled, so a later `get` observes an empty
    /// builder and prior content never reappears.
    pub proof fn lemma_no_content_survives(&self, c: Seq<u8>)
        requires
            self.wf(),
            c != Seq::<u8>::empty(),
        ensures
            forall|i: int| 0 <= i < self.idle().len() ==> (#[trigger] self.idle()[i]).0 != c,
    {
    }

    /// Builds the pool engine from a configuration, pre-populated with
    /// `initial` freshly allocated builders.
    pub fn new(config: &FlatBufferBuilderPool) -> (p: Self)
        requires
            config.wf(),
            1 <= config.max_size() <= MAX_QUEUE_CAPACITY,
            config.buf_capacity() <= MAX_BUFFER_CAPACITY,
        ensures
            p.wf(),
            p.max_size() == config.max_size(),
            p.buf_capacity() == config.buf_capacity(),
            p.idle().len() == config.init_size(),
    {
        let local = config.build();
        let LocalFlatBufferBuilderPool { capacity, inner } = local;
        GlobalPool { capacity, inner }
    }

    /// How many builders are currently idle.
    pub fn len(&self) -> (n: usize)
        ensures
            n == self.idle().len(),
    {
        queue_len(&self.inner)
    }

    /// Pops an idle builder, or allocates a fresh one if the pool is empty;
    /// either way the caller receives an empty, ready builder.
    pub fn get(&mut self) -> (b: GlobalBuilder)
        requires
            old(self).wf(),
        ensures
            final(self).wf(),
            final(self).max_size() == old(self).max_size(),
            final(self).buf_capacity() == old(self).buf_capacity(),
            b.content() == Seq::<u8>::empty(),
            b.ready(),
            old(self).idle().len() > 0 ==> final(self).idle() == old(self).idle().drop_first(),
            old(self).idle().len() == 0 ==> final(self).idle() == old(self).idle(),
    {
        match queue_pop(&mut self.inner) {
            Some(raw) => GlobalBuilder { inner: raw },
            None => GlobalBuilder { inner: builder_with_capacity(self.capacity) },
        }
    }

    /// Releases a builder: it is reset, then pushed back as a new idle entry
    /// unless the pool is already full, in which case it is discarded.
    pub fn put(&mut self, b: GlobalBuilder) -> (o: ReleaseOutcome)
        requires
            old(self).wf(),
        ensures
            final(self).wf(),
            final(self).max_size() == old(self).max_size(),
            final(self).buf_capacity() == old(self).buf_capacity(),
            o == release_outcome(false, true, old(self).idle().len() >= old(self).max_size()),
            o == ReleaseOutcome::Returned ==> final(self).idle() == old(self).idle().push(
                (Seq::<u8>::empty(), true),
            ),
            o == ReleaseOutcome::Discarded ==> final(self).idle() == old(self).idle(),
    {
        let GlobalBuilder { inner: mut raw } = b;
        builder_reset(&mut raw);
        match queue_push(&mut self.inner, raw) {
            Ok(_) => ReleaseOutcome::Returned,
            Err(_) => ReleaseOutcome::Discarded,
        }
    }
}

/// A privately owned lock-free pool, produced by
/// [`FlatBufferBuilderPool::build`].
pub struct LocalFlatBufferBuilderPool {
    /// Buffer capacity for newly allocated builders.
    capacity: usize,
    /// The idle builders.
    inner: crossbeam_queue::ArrayQueue<RawBuilder>,
}

impl LocalFlatBufferBuilderPool {
    /// The idle builders: each entry is the pair of a builder's bytes and
    /// its readiness.
    pub closed spec fn idle(&self) -> Seq<(Seq<u8>, bool)> {
        queue_view(self.inner)
    }

    /// The queue capacity this pool was built with.
    pub closed spec fn max_size(&self) -> nat {
        queue_cap(self.inner)
    }

    /// The buffer capacity for newly allocated builders.
    pub closed spec fn buf_capacity(&self) -> usize {
        self.capacity
    }

    /// Every idle builder is reset and ready, and the pool is bounded.
    pub open spec fn wf(&self) -> bool {
        &&& 1 <= self.max_size()
        &&& self.idle().len() <= self.max_size()
        &&& self.buf_capacity() <= MAX_BUFFER_CAPACITY
        &&& forall|i: int|
            0 <= i < self.idle().len() ==> #[trigger] self.idle()[i] == (Seq::<u8>::empty(), true)
    }

    /// Law: every builder sitting idle inside a well-formed pool has empty
    /// content and is ready — nothing from a previous use survives in the
    /// pool.
    pub proof fn lemma_idle_builders_reset(&self)
        requires
            self.wf(),
        ensures
            forall|i: int|
                0 <= i < self.idle().len() ==> #[trigger] self.idle()[i] == (
                Seq::<u8>::empty(),
                true,
            ),
    {
    }

    /// Law: a well-formed pool never holds more idle builders than its
    /// configured maximum.
    pub proof fn lemma_capacity_bound(&self)
        requires
            self.wf(),
        ensures
            self.idle().len() <= self.max_size(),
    {
    }

    /// Law (round trip): whatever bytes a checked-out builder accumulated,
    /// no idle entry of a well-formed pool holds them — releasing resets the
    /// builder before it is pooled, so a later `get` observes an empty
    /// builder and prior content never reappears.
    pub proof fn lemma_no_content_survives(&self, c: Seq<u8>)
        requires
            self.wf(),
            c != Seq::<u8>::empty(),
        ensures
            forall|i: int| 0 <= i < self.idle().len() ==> (#[trigger] self.idle()[i]).0 != c,
    {
    }

    /// How many builders are currently idle.
    pub fn len(&self) -> (n: usize)
        ensures
            n == self.idle().len(),
    {
        queue_len(&self.inner)
    }

    /// Pops an idle builder, or allocates a fresh one if the pool is empty;
    /// either way the caller receives an empty, ready, undrained builder.
    pub fn get(&mut self) -> (b: LocalBuilder)
        requires
            old(self).wf(),
        ensures
            final(self).wf(),
            final(self).max_size() == old(self).max_size(),
            final(self).buf_capacity() == old(self).buf_capacity(),
            b.content() == Seq::<u8>::empty(),
            b.ready(),
            !b.drained(),
            old(self).idle().len() > 0 ==> final(self).idle() == old(self).idle().drop_first(),
            old(self).idle().len() == 0 ==> final(self).idle() == old(self).idle(),
    {
        match queue_pop(&mut self.inner) {
            Some(raw) => LocalBuilder { inner: raw, drained: false },
            None => LocalBuilder {
                inner: builder_with_capacity(self.capacity),
                drained: false,
            },
        }
    }

    /// Releases a handle's builder back to this pool.  A drained handle is
    /// discarded untouched; otherwise the builder is reset and pushed back
    /// as a new idle entry unless the pool is already full.
    pub fn put(&mut self, b: LocalBuilder) -> (o: ReleaseOutcome)
        requires
            old(self).wf(),
        ensures
            final(self).wf(),
            final(self).max_size() == old(self).max_size(),
            final(self).buf_capacity() == old(self).buf_capacity(),
            o == release_outcome(
                b.drained(),
                true,
                old(self).idle().len() >= old(self).max_size(),
            ),
            o == ReleaseOutcome::Returned ==> final(self).idle() == old(self).idle().push(
                (Seq::<u8>::empty(), true),
            ),
            o == ReleaseOutcome::Discarded ==> final(self).idle() == old(self).idle(),
    {
        if b.is_drained() {
            return ReleaseOutcome::Discarded;
        }
        let LocalBuilder { inner: mut raw, drained: _ } = b;
        builder_reset(&mut raw);
        match queue_push(&mut self.inner, raw) {
            Ok(_) => ReleaseOutcome::Returned,
            Err(_) => ReleaseOutcome::Discarded,
        }
    }

    /// Tears the pool down: every idle builder is popped and dropped, so
    /// none is left behind in the queue.  Outstanding handles are not
    /// affected; each is reclaimed when it is released.
    pub fn close(&mut self)
        requires
            old(self).wf(),
        ensures
            final(self).wf(),
            final(self).max_size() == old(self).max_size(),
            final(self).buf_capacity() == old(self).buf_capacity(),
            final(self).idle().len() == 0,
    {
        let mut n: usize = queue_len(&self.inner);
        while n > 0
            invariant
                n == queue_view(self.inner).len(),
                queue_cap(self.inner) == old(self).max_size(),
                self.capacity == old(self).buf_capacity(),
                forall|i: int|
                    0 <= i < queue_view(self.inner).len() ==> #[trigger] queue_view(
                        self.inner,
                    )[i] == (Seq::<u8>::empty(), true),
            decreases n,
        {
            let _popped = queue_pop(&mut self.inner);
            n = n - 1;
        }
    }
}

/// A builder checked out of a [`LocalFlatBufferBuilderPool`], together with
/// its drained mark.  A drained handle's builder is never returned to a
/// pool; draining is used when an owning pool is being torn down while the
/// handle is still outstanding.
pub struct LocalBuilder {
    /// The actual builder.
    inner: RawBuilder,
    /// Drained state: set once this builder must not go back to a pool.
    drained: bool,
}

impl LocalBuilder {
    /// The bytes this builder has accumulated so far.
    pub closed spec fn content(&self) -> Seq<u8> {
        builder_bytes(self.inner)
    }

    /// Whether the builder is ready for writing (reset and not finished).
    pub closed spec fn ready(&self) -> bool {
        builder_ready(self.inner)
    }

    /// Whether this handle has been marked as "do not return".
    pub closed spec fn drained(&self) -> bool {
        self.drained
    }

    /// Marks this handle's builder as ineligible for return to any pool.
    pub fn drain(&mut self)
        ensures
            final(self).drained(),
            final(self).content() == old(self).content(),
            final(self).ready() == old(self).ready(),
    {
        self.drained = true;
    }

    /// Whether this handle has been drained.
    pub fn is_drained(&self) -> (r: bool)
        ensures
            r == self.drained(),
    {
        self.drained
    }

    /// Writes one byte onto the front of the in-progress data.
    pub fn push_u8(&mut self, x: u8)
        requires
            old(self).content().len() < MAX_BUFFER_CAPACITY,
        ensures
            final(self).content() == seq![x] + old(self).content(),
            final(self).ready() == old(self).ready(),
            final(self).drained() == old(self).drained(),
    {
        builder_push_u8(&mut self.inner, x);
    }

    /// Writes a string into the buffer, returning its offset.
    pub fn create_string(&mut self, s: &str) -> (off: u32)
        requires
            old(self).ready(),
            old(self).content().len() + s.spec_bytes().len() + 8 < MAX_BUFFER_CAPACITY,
        ensures
            final(self).ready(),
            final(self).content().len() >= old(self).content().len() + s.spec_bytes().len() + 5,
            final(self).content().len() <= old(self).content().len() + s.spec_bytes().len() + 8,
            off == final(self).content().len(),
            final(self).drained() == old(self).drained(),
    {
        crate::fbb::builder_create_string(&mut self.inner, s)
    }

    /// Seals the buffer at the given root offset.
    pub fn finish(&mut self, root: u32)
        requires
            old(self).ready(),
            root <= old(self).content().len(),
            old(self).content().len() < MAX_BUFFER_CAPACITY,
        ensures
            !final(self).ready(),
            final(self).content().len() >= old(self).content().len() + 4,
            final(self).drained() == old(self).drained(),
    {
        crate::fbb::builder_finish(&mut self.inner, root)
    }

    /// The bytes written so far, sealed or not.
    pub fn unfinished_data(&self) -> (r: &[u8])
        ensures
            r@ == self.content(),
    {
        builder_unfinished_data(&self.inner)
    }

    /// Resets the builder to its empty, ready state, keeping its
    /// allocation.  Releasing does this again, so a caller may reset early
    /// without changing what ends up in the pool.
    pub fn reset(&mut self)
        ensures
            final(self).content() == Seq::<u8>::empty(),
            final(self).ready(),
            final(self).drained() == old(self).drained(),
    {
        builder_reset(&mut self.inner);
    }
}

} // verus!
