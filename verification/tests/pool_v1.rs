use flatbuf_pool::pool::release::ReleaseOutcome;
use flatbuf_pool::pool::v1::Builder;
use flatbuf_pool::pool::v1::BuilderPool;
use flatbuf_pool::pool::v1::INIT_POOL_SIZE;
use flatbuf_pool::pool::v1::MAX_POOL_SIZE;

#[test]
fn pool_starts_prefilled() {
    let pool = BuilderPool::new();
    assert_eq!(INIT_POOL_SIZE, pool.len());
}

#[test]
fn get_pops_and_put_returns() {
    let mut pool = BuilderPool::new();
    let b = pool.get();
    assert_eq!(INIT_POOL_SIZE - 1, pool.len());
    assert_eq!(ReleaseOutcome::Returned, pool.put(b));
    assert_eq!(INIT_POOL_SIZE, pool.len());
}

#[test]
fn full_pool_discards_release() {
    let mut pool = BuilderPool::new();
    for _ in pool.len()..MAX_POOL_SIZE {
        assert_eq!(ReleaseOutcome::Returned, pool.put(Builder::default()));
    }
    assert_eq!(MAX_POOL_SIZE, pool.len());
    assert_eq!(ReleaseOutcome::Discarded, pool.put(Builder::default()));
    assert_eq!(MAX_POOL_SIZE, pool.len());
}

#[test]
fn recycled_builder_is_empty() {
    let mut pool = BuilderPool::new();
    let mut b = pool.get();
    b.push_u8(42);
    b.push_u8(7);
    assert_eq!(&[7u8, 42u8][..], b.unfinished_data());
    pool.put(b);
    let b2 = pool.get();
    assert!(b2.unfinished_data().is_empty());
}

#[test]
fn fresh_builder_is_empty() {
    let b = Builder::default();
    assert!(b.unfinished_data().is_empty());
}

#[test]
fn builder_create_string_and_finish() {
    let mut b = Builder::default();
    let off: u32 = b.create_string("something fun");
    let len: usize = b.unfinished_data().len();
    assert_eq!(off as usize, len);
    // 13 bytes of text, a nul, a four-byte length, and up to three padding
    // bytes.
    assert!((13 + 5..=13 + 8).contains(&len));
    b.finish(off);
    assert!(b.unfinished_data().len() >= len + 4);
}

#[test]
fn reset_clears_content() {
    let mut b = Builder::default();
    b.push_u8(3);
    assert!(!b.unfinished_data().is_empty());
    b.reset();
    assert!(b.unfinished_data().is_empty());
}
