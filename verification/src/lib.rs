//! A verified object pool for flatbuffer builders, together with a few small
//! verified utilities on strings and string slices.
//!
//! The heart of the crate is the `pool` module: bounded pools that recycle
//! `flatbuffers::FlatBufferBuilder` instances so that callers do not pay the
//! allocation cost of a fresh builder on every message.  Every builder that
//! sits idle inside a pool is proved to be in its reset (empty) state, and
//! every pool is proved to stay within its configured maximum size.

pub mod excerpt;
pub mod fbb;
pub mod pool;
pub mod summary;

pub use pool::v3::FlatBufferBuilderPool;
