use gfx_debug_draw::pipeline_cache::PipelineCache;
use gfx_debug_draw::utils::{ensure_capacity, grow_buffer};

#[test]
fn grow_buffer_doubles_to_the_smallest_fit() {
    assert_eq!(grow_buffer(64, 100), 128);
    assert_eq!(grow_buffer(64, 200), 256);
    assert_eq!(grow_buffer(3, 7), 12);
    assert_eq!(grow_buffer(1, 1025), 2048);
}

#[test]
fn grow_buffer_keeps_a_size_that_fits() {
    assert_eq!(grow_buffer(64, 64), 64);
    assert_eq!(grow_buffer(64, 10), 64);
    assert_eq!(grow_buffer(5, 0), 5);
}

#[test]
fn ensure_capacity_grows_only_when_needed() {
    assert_eq!(ensure_capacity(64, 64), None);
    assert_eq!(ensure_capacity(64, 65), Some(128));
    assert_eq!(ensure_capacity(64, 100), Some(128));
    assert_eq!(ensure_capacity(64, 200), Some(256));
}

#[test]
fn ensure_capacity_twice_allocates_once() {
    let first = ensure_capacity(16, 100).unwrap();
    assert_eq!(first, 128);
    assert_eq!(ensure_capacity(first, 100), None);
}

#[test]
fn grow_buffer_is_monotonic_in_the_requirement() {
    let mut last = 0;
    for required in 0..600 {
        let size = grow_buffer(10, required);
        assert!(size >= last);
        assert!(size >= required);
        last = size;
    }
}

#[test]
fn largest_requirement_fits() {
    let max = usize::MAX / 2 + 1;
    assert_eq!(grow_buffer(1, max), max);
}

#[test]
fn pipeline_cache_keeps_the_first_pipeline() {
    let mut cache: PipelineCache<&str> = PipelineCache::new();
    assert!(!cache.contains(7));
    assert_eq!(cache.get(7), None);
    cache.insert_if_absent(7, "first");
    cache.insert_if_absent(7, "second");
    assert!(cache.contains(7));
    assert_eq!(cache.get(7), Some(&"first"));
    assert!(!cache.contains(8));
    cache.insert_if_absent(8, "other");
    assert_eq!(cache.get(8), Some(&"other"));
}
