use flatbuf_pool::pool::release::decide_release;
use flatbuf_pool::pool::release::ReleaseOutcome;
use flatbuf_pool::pool::v3::FlatBufferBuilderPool;
use flatbuf_pool::pool::v3::GlobalPool;

#[test]
fn config_defaults() {
    let cfg = FlatBufferBuilderPool::new();
    assert_eq!(32, cfg.initial_size());
    assert_eq!(1024, cfg.maximum_size());
    assert_eq!(64, cfg.capacity());
}

#[test]
fn raising_initial_raises_maximum() {
    let cfg = FlatBufferBuilderPool::new().max_pool_size(2).init_pool_size(5);
    assert_eq!(5, cfg.initial_size());
    assert_eq!(5, cfg.maximum_size());
}

#[test]
fn lowering_maximum_lowers_initial() {
    let cfg = FlatBufferBuilderPool::new().max_pool_size(2);
    assert_eq!(2, cfg.initial_size());
    assert_eq!(2, cfg.maximum_size());
}

#[test]
fn buffer_capacity_leaves_sizes() {
    let cfg = FlatBufferBuilderPool::new().buffer_capacity(128);
    assert_eq!(32, cfg.initial_size());
    assert_eq!(1024, cfg.maximum_size());
    assert_eq!(128, cfg.capacity());
}

#[test]
fn build_prefills_initial_builders() {
    let pool = FlatBufferBuilderPool::new().init_pool_size(3).max_pool_size(4).build();
    assert_eq!(3, pool.len());
}

#[test]
fn first_get_allocates_then_recycles() {
    // initial=0, max=2, capacity=64: the first get finds the pool empty and
    // allocates; after a release the next get must pop the recycled
    // builder instead of allocating.
    let mut pool = FlatBufferBuilderPool::new()
        .init_pool_size(0)
        .max_pool_size(2)
        .buffer_capacity(64)
        .build();
    assert_eq!(0, pool.len());
    let mut b = pool.get();
    assert_eq!(0, pool.len());
    b.push_u8(1);
    assert_eq!(ReleaseOutcome::Returned, pool.put(b));
    assert_eq!(1, pool.len());
    let b2 = pool.get();
    assert_eq!(0, pool.len());
    assert!(b2.unfinished_data().is_empty());
}

#[test]
fn round_trip_observes_empty_builder() {
    let mut pool = FlatBufferBuilderPool::new().init_pool_size(1).max_pool_size(2).build();
    let mut b = pool.get();
    b.push_u8(9);
    b.push_u8(8);
    assert_eq!(&[8u8, 9u8][..], b.unfinished_data());
    pool.put(b);
    let b2 = pool.get();
    assert!(b2.unfinished_data().is_empty());
}

#[test]
fn two_outstanding_handles_get_distinct_builders() {
    // max=1: checking out two handles without releasing either must hand
    // out two independent builders, without blocking or collision.
    let mut pool = FlatBufferBuilderPool::new().init_pool_size(0).max_pool_size(1).build();
    let mut h1 = pool.get();
    let mut h2 = pool.get();
    h1.push_u8(1);
    h2.push_u8(2);
    assert_eq!(&[1u8][..], h1.unfinished_data());
    assert_eq!(&[2u8][..], h2.unfinished_data());
}

#[test]
fn release_into_full_pool_discards() {
    // max=1: the first release fills the pool; the second must be
    // discarded, not pushed.
    let mut pool = FlatBufferBuilderPool::new().init_pool_size(0).max_pool_size(1).build();
    let h1 = pool.get();
    let h2 = pool.get();
    assert_eq!(ReleaseOutcome::Returned, pool.put(h1));
    assert_eq!(1, pool.len());
    assert_eq!(ReleaseOutcome::Discarded, pool.put(h2));
    assert_eq!(1, pool.len());
}

#[test]
fn drained_handle_is_discarded() {
    let mut pool = FlatBufferBuilderPool::new().init_pool_size(0).max_pool_size(2).build();
    let mut h = pool.get();
    assert!(!h.is_drained());
    h.drain();
    assert!(h.is_drained());
    assert_eq!(ReleaseOutcome::Discarded, pool.put(h));
    assert_eq!(0, pool.len());
}

#[test]
fn close_reclaims_all_idle_builders() {
    let mut pool = FlatBufferBuilderPool::new().init_pool_size(3).max_pool_size(4).build();
    assert_eq!(3, pool.len());
    pool.close();
    assert_eq!(0, pool.len());
}

#[test]
fn local_builder_create_string_and_finish() {
    let mut pool = FlatBufferBuilderPool::new().init_pool_size(1).max_pool_size(1).build();
    let mut b = pool.get();
    let off: u32 = b.create_string("something fun");
    let len: usize = b.unfinished_data().len();
    assert_eq!(off as usize, len);
    assert!((13 + 5..=13 + 8).contains(&len));
    b.finish(off);
    assert!(b.unfinished_data().len() >= len + 4);
    // A finished builder can still be released; the reset wipes it.
    pool.put(b);
    let b2 = pool.get();
    assert!(b2.unfinished_data().is_empty());
}

#[test]
fn global_pool_get_and_put() {
    let cfg = FlatBufferBuilderPool::new().init_pool_size(0).max_pool_size(1);
    let mut pool = GlobalPool::new(&cfg);
    assert_eq!(0, pool.len());
    let mut b = pool.get();
    b.push_u8(5);
    assert_eq!(&[5u8][..], b.unfinished_data());
    assert_eq!(ReleaseOutcome::Returned, pool.put(b));
    assert_eq!(1, pool.len());
    let b2 = pool.get();
    assert!(b2.unfinished_data().is_empty());
    assert_eq!(ReleaseOutcome::Returned, pool.put(b2));
    let extra = pool.get();
    let fresh = GlobalPool::new(&cfg.init_pool_size(0)).get();
    assert_eq!(ReleaseOutcome::Returned, pool.put(extra));
    assert_eq!(ReleaseOutcome::Discarded, pool.put(fresh));
}

#[test]
fn release_decision_matrix() {
    // drained, pool gone, or pool full: discard; otherwise return.
    assert_eq!(ReleaseOutcome::Returned, decide_release(false, true, false));
    assert_eq!(ReleaseOutcome::Discarded, decide_release(true, true, false));
    assert_eq!(ReleaseOutcome::Discarded, decide_release(false, false, false));
    assert_eq!(ReleaseOutcome::Discarded, decide_release(false, true, true));
    assert_eq!(ReleaseOutcome::Discarded, decide_release(true, false, false));
    assert_eq!(ReleaseOutcome::Discarded, decide_release(true, true, true));
    assert_eq!(ReleaseOutcome::Discarded, decide_release(false, false, true));
    assert_eq!(ReleaseOutcome::Discarded, decide_release(true, false, true));
}
