//! Vector-backed builder pool.
//!
//! The simplest architecture: one bounded vector of idle builders, intended
//! to sit behind a single process-wide lock.  `get` pops an idle builder or
//! allocates a fresh one; `put` resets the builder and pushes it back unless
//! the pool is already at its maximum size.  The lock itself, and the
//! process-wide instance, live with the (unverified) embedding: everything
//! here is the logic the lock protects.

use vstd::prelude::*;
use vstd::string::StringSliceAdditionalSpecFns;

use crate::fbb::builder_bytes;
use crate::fbb::builder_push_u8;
use crate::fbb::builder_ready;
use crate::fbb::builder_reset;
use crate::fbb::builder_unfinished_data;
use crate::fbb::builder_with_capacity;
use crate::fbb::MAX_BUFFER_CAPACITY;
use crate::pool::release::release_outcome;
use crate::pool::release::ReleaseOutcome;

verus! {

/// How many idle builders a fresh pool starts with.
pub const INIT_POOL_SIZE: usize = 32;

/// The most idle builders the pool will hold.
pub const MAX_POOL_SIZE: usize = 1024;

/// Buffer capacity given to each newly allocated builder.
pub const BUFFER_CAPACITY: usize = 64;

/// A checked-out builder: the caller owns it exclusively until it is handed
/// back through [`BuilderPool::put`].
pub struct Builder {
    inner: crate::fbb::RawBuilder,
}

impl Builder {
    /// The bytes this builder has accumulated so far.
    pub closed spec fn content(&self) -> Seq<u8> {
        builder_bytes(self.inner)
    }

    /// Whether the builder is ready for writing (reset and not finished).
    pub closed spec fn ready(&self) -> bool {
        builder_ready(self.inner)
    }

    /// Writes one byte onto the front of the in-progress data.
    pub fn push_u8(&mut self, x: u8)
        requires
            old(self).content().len() < MAX_BUFFER_CAPACITY,
        ensures
            final(self).content() == seq![x] + old(self).content(),
            final(self).ready() == old(self).ready(),
    {
        builder_push_u8(&mut self.inner, x);
    }

    /// Writes a string into the buffer, returning its offset.
    pub fn create_string(&mut self, s: &str) -> (off: u32)
        requires
            old(self).ready(),
            old(self).content().len() + s.spec_bytes().len() + 8 < MAX_BUFFER_CAPACITY,
        ensures
            final(self).ready(),
            final(self).content().len() >= old(self).content().len() + s.spec_bytes().len() + 5,
            final(self).content().len() <= old(self).content().len() + s.spec_bytes().len() + 8,
            off == final(self).content().len(),
    {
        crate::fbb::builder_create_string(&mut self.inner, s)
    }

    /// Seals the buffer at the given root offset; the builder is not ready
    /// for further writing until it is reset.
    pub fn finish(&mut self, root: u32)
        requires
            old(self).ready(),
            root <= old(self).content().len(),
            old(self).content().len() < MAX_BUFFER_CAPACITY,
        ensures
            !final(self).ready(),
            final(self).content().len() >= old(self).content().len() + 4,
    {
        crate::fbb::builder_finish(&mut self.inner, root)
    }

    /// The bytes written so far, sealed or not.
    pub fn unfinished_data(&self) -> (r: &[u8])
        ensures
            r@ == self.content(),
    {
        builder_unfinished_data(&self.inner)
    }

    /// Resets the builder to its empty, ready state, keeping its
    /// allocation.  Releasing does this again, so a caller may reset early
    /// — say, before a lock is taken — without changing what ends up in the
    /// pool.
    pub fn reset(&mut self)
        ensures
            final(self).content() == Seq::<u8>::empty(),
            final(self).ready(),
    {
        builder_reset(&mut self.inner);
    }
}

impl Default for Builder {
    /// A freshly allocated builder: empty and ready for writing.
    fn default() -> (b: Self)
        ensures
            b.content() == Seq::<u8>::empty(),
            b.ready(),
    {
        Builder { inner: builder_with_capacity(BUFFER_CAPACITY) }
    }
}

/// A bounded pool of idle builders.
///
/// Invariant (see [`BuilderPool::wf`]): every idle builder is reset — its
/// content is empty and it is ready for writing — and there are never more
/// than [`MAX_POOL_SIZE`] of them.
pub struct BuilderPool {
    items: Vec<Builder>,
}

impl BuilderPool {
    /// The contents of the idle builders, in stack order.
    pub closed spec fn idle(&self) -> Seq<Seq<u8>> {
        self.items@.map(|_i: int, b: Builder| b.content())
    }

    /// Every idle builder is reset, and the pool is within its bound.
    pub closed spec fn wf(&self) -> bool {
        &&& self.items@.len() <= MAX_POOL_SIZE
        &&& forall|i: int|
            0 <= i < self.items@.len() ==> (#[trigger] self.items@[i]).content() == Seq::<
                u8,
            >::empty() && self.items@[i].ready()
    }

    /// Law: every builder sitting idle inside a well-formed pool has empty
    /// content — nothing from a previous use can survive in the pool.
    pub proof fn lemma_idle_builders_reset(&self)
        requires
            self.wf(),
        ensures
            forall|i: int| 0 <= i < self.idle().len() ==> self.idle()[i] == Seq::<u8>::empty(),
    {
    }

    /// Law: a well-formed pool never holds more than its maximum number of
    /// idle builders.
    pub proof fn lemma_capacity_bound(&self)
        requires
            self.wf(),
        ensures
            self.idle().len() <= MAX_POOL_SIZE,
    {
    }

    /// Law (round trip): whatever bytes a checked-out builder accumulated,
    /// no idle entry of a well-formed pool holds them — releasing resets the
    /// builder before it is pooled, so a later `get` observes an empty
    /// builder and prior content never reappears.
    pub proof fn lemma_no_content_survives(&self, c: Seq<u8>)
        requires
            self.wf(),
            c != Seq::<u8>::empty(),
        ensures
            forall|i: int| 0 <= i < self.idle().len() ==> #[trigger] self.idle()[i] != c,
    {
    }

    /// A pool pre-populated with [`INIT_POOL_SIZE`] idle builders.
    pub fn new() -> (p: Self)
        ensures
            p.wf(),
            p.idle().len() == INIT_POOL_SIZE,
    {
        let mut items: Vec<Builder> = Vec::new();
        let mut i: usize = 0;
        while i < INIT_POOL_SIZE
            invariant
                i <= INIT_POOL_SIZE,
                items@.len() == i,
                forall|j: int|
                    0 <= j < items@.len() ==> (#[trigger] items@[j]).content() == Seq::<
                        u8,
                    >::empty() && items@[j].ready(),
            decreases INIT_POOL_SIZE - i,
        {
            items.push(Builder::default());
            i = i + 1;
        }
        BuilderPool { items }
    }

    /// How many builders are currently idle.
    pub fn len(&self) -> (n: usize)
        ensures
            n == self.idle().len(),
    {
        self.items.len()
    }

    /// Returns an idle builder if one is present, else a freshly allocated
    /// one; either way the caller receives an empty, ready builder.
    pub fn get(&mut self) -> (b: Builder)
        requires
            old(self).wf(),
        ensures
            final(self).wf(),
            b.content() == Seq::<u8>::empty(),
            b.ready(),
            old(self).idle().len() > 0 ==> final(self).idle() == old(self).idle().drop_last(),
            old(self).idle().len() == 0 ==> final(self).idle() == old(self).idle(),
    {
        let popped = self.items.pop();
        proof {
            assert(self.idle() =~= if old(self).idle().len() > 0 {
                old(self).idle().drop_last()
            } else {
                old(self).idle()
            });
        }
        match popped {
            Some(b) => b,
            None => Builder::default(),
        }
    }

    /// Releases a builder back to the pool: the builder is reset, then kept
    /// as a new idle entry if the pool is under its maximum, and discarded
    /// otherwise.
    pub fn put(&mut self, b: Builder) -> (o: ReleaseOutcome)
        requires
            old(self).wf(),
        ensures
            final(self).wf(),
            o == release_outcome(false, true, old(self).idle().len() >= MAX_POOL_SIZE),
            o == ReleaseOutcome::Returned ==> final(self).idle() == old(self).idle().push(
                Seq::<u8>::empty(),
            ),
            o == ReleaseOutcome::Discarded ==> final(self).idle() == old(self).idle(),
    {
        let mut b = b;
        builder_reset(&mut b.inner);
        if self.items.len() < MAX_POOL_SIZE {
            self.items.push(b);
            proof {
                assert(self.idle() =~= old(self).idle().push(Seq::<u8>::empty()));
            }
            ReleaseOutcome::Returned
        } else {
            ReleaseOutcome::Discarded
        }
    }
}

} // verus!
