//! Trusted boundary around `flatbuffers::FlatBufferBuilder`.
//!
//! The builder is opaque to the verifier, so this module gives it a
//! mathematical surface: `builder_bytes` names the bytes written so far (what
//! `unfinished_data` would show), and `builder_ready` names whether the
//! builder is ready for writing (no table or vector under construction and
//! not yet finished).  Each wrapper below states, over those two names, what
//! the corresponding `flatbuffers` call does; the rest of the crate is
//! verified against these contracts.
//!
//! `FlatBufferBuilder`'s allocator parameter is bounded by flatbuffers' own
//! `Allocator` trait, which the verifier cannot take as a bound, so the
//! builder is held inside an opaque struct rather than declared directly.

use vstd::prelude::*;
use vstd::string::StringSliceAdditionalSpecFns;

verus! {

/// One `flatbuffers::FlatBufferBuilder`, writing into its own growable
/// buffer.  Opaque: everything known about a value of this type goes through
/// [`builder_bytes`] and [`builder_ready`].
#[verifier::external_body]
pub struct RawBuilder {
    inner: flatbuffers::FlatBufferBuilder<'static>,
}

/// The bytes the builder has accumulated so far, in buffer order.
pub uninterp spec fn builder_bytes(b: RawBuilder) -> Seq<u8>;

/// Whether the builder is ready for writing: no table or vector is under
/// construction and the buffer has not been finished.
pub uninterp spec fn builder_ready(b: RawBuilder) -> bool;

/// The flatbuffers wire format caps a buffer at two gigabytes; staying a
/// factor of two under that bound keeps every growth step of the builder's
/// backing vector well defined.
pub const MAX_BUFFER_CAPACITY: usize = 0x4000_0000;

/// Relies on `flatbuffers::FlatBufferBuilder::with_capacity`: a new builder
/// is empty and ready for writing.
#[verifier::external_body]
pub(crate) fn builder_with_capacity(capacity: usize) -> (b: RawBuilder)
    requires
        capacity <= MAX_BUFFER_CAPACITY,
    ensures
        builder_bytes(b) == Seq::<u8>::empty(),
        builder_ready(b),
{
    RawBuilder { inner: flatbuffers::FlatBufferBuilder::with_capacity(capacity) }
}

/// Relies on `flatbuffers::FlatBufferBuilder::reset`: the builder returns to
/// its just-created state (empty, ready), keeping its allocation.
#[verifier::external_body]
pub(crate) fn builder_reset(b: &mut RawBuilder)
    ensures
        builder_bytes(*final(b)) == Seq::<u8>::empty(),
        builder_ready(*final(b)),
{
    b.inner.reset()
}

/// Relies on `flatbuffers::FlatBufferBuilder::push` for `u8`: one byte is
/// written onto the front of the in-progress data, with no padding since the
/// alignment of `u8` is one.
#[verifier::external_body]
pub(crate) fn builder_push_u8(b: &mut RawBuilder, x: u8)
    requires
        builder_bytes(*old(b)).len() < MAX_BUFFER_CAPACITY,
    ensures
        builder_bytes(*final(b)) == seq![x] + builder_bytes(*old(b)),
        builder_ready(*final(b)) == builder_ready(*old(b)),
{
    b.inner.push(x);
}

/// Relies on `flatbuffers::FlatBufferBuilder::create_string`: the string's
/// bytes are written (zero-terminated and length-prefixed, padded to a
/// four-byte boundary), and the returned offset is the written length so
/// far.  Panics if a table or vector is under construction, so readiness is
/// required.
#[verifier::external_body]
pub(crate) fn builder_create_string(b: &mut RawBuilder, s: &str) -> (off: u32)
    requires
        builder_ready(*old(b)),
        builder_bytes(*old(b)).len() + s.spec_bytes().len() + 8 < MAX_BUFFER_CAPACITY,
    ensures
        builder_ready(*final(b)),
        builder_bytes(*final(b)).len() >= builder_bytes(*old(b)).len() + s.spec_bytes().len() + 5,
        builder_bytes(*final(b)).len() <= builder_bytes(*old(b)).len() + s.spec_bytes().len() + 8,
        off == builder_bytes(*final(b)).len(),
{
    b.inner.create_string(s).value()
}

/// Relies on `flatbuffers::FlatBufferBuilder::finish`: the root offset is
/// pushed (at least four more bytes) and the buffer is sealed, so the builder
/// is no longer ready for writing until the next reset.  Panics if the buffer
/// is already finished or a table is under construction, so readiness is
/// required; the offset must lie within the written data.
#[verifier::external_body]
pub(crate) fn builder_finish(b: &mut RawBuilder, root: u32)
    requires
        builder_ready(*old(b)),
        root <= builder_bytes(*old(b)).len(),
        builder_bytes(*old(b)).len() < MAX_BUFFER_CAPACITY,
    ensures
        !builder_ready(*final(b)),
        builder_bytes(*final(b)).len() >= builder_bytes(*old(b)).len() + 4,
{
    b.inner.finish(flatbuffers::WIPOffset::<&str>::new(root), None)
}

/// Relies on `flatbuffers::FlatBufferBuilder::unfinished_data`: the slice of
/// everything written so far, finished or not.
#[verifier::external_body]
pub(crate) fn builder_unfinished_data(b: &RawBuilder) -> (r: &[u8])
    ensures
        r@ == builder_bytes(*b),
{
    b.inner.unfinished_data()
}

} // verus!
