use field_grid::em_profile::{
    elapsed_nanos, profile_flag_enables, Counter, CounterSnapshot, EmProfileCounters,
    EmProfileMetric, EmProfileSnapshot,
};
use field_grid::maxwell_cache::{
    axis_sample_count, MaxwellSourceCacheLookup, MaxwellSourceTimeCache,
    MAXWELL_SOURCE_TIME_CACHE_LIMIT,
};

fn is_missing(l: &MaxwellSourceCacheLookup<Vec<u8>>) -> bool {
    matches!(l, MaxwellSourceCacheLookup::Missing)
}

#[test]
fn cache_lookup_follows_reserve_finish_and_fail() {
    let mut cache: MaxwellSourceTimeCache<Vec<u8>> = MaxwellSourceTimeCache::new();
    assert!(is_missing(&cache.lookup(7)));
    cache.reserve(7);
    assert!(matches!(cache.lookup(7), MaxwellSourceCacheLookup::Sampling));
    cache.reserve(7);
    assert_eq!(cache.len(), 1);
    cache.finish_sampling(7, vec![1, 2, 3]);
    match cache.lookup(7) {
        MaxwellSourceCacheLookup::Ready(values) => assert_eq!(values, vec![1, 2, 3]),
        _ => panic!("expected ready values"),
    }
    cache.reserve(9);
    cache.fail_sampling(9);
    assert!(matches!(cache.lookup(9), MaxwellSourceCacheLookup::Failed));
    cache.fail_sampling(11);
    assert!(is_missing(&cache.lookup(11)));
    assert_eq!(cache.len(), 2);
}

#[test]
fn cache_finish_without_reserve_adds_entry() {
    let mut cache: MaxwellSourceTimeCache<Vec<u8>> = MaxwellSourceTimeCache::new();
    cache.finish_sampling(3, vec![9]);
    assert_eq!(cache.len(), 1);
    assert!(matches!(cache.lookup(3), MaxwellSourceCacheLookup::Ready(_)));
}

#[test]
fn cache_evicts_oldest_ready_entry_when_full() {
    let mut cache: MaxwellSourceTimeCache<Vec<u8>> = MaxwellSourceTimeCache::new();
    cache.reserve(0);
    for t in 1..MAXWELL_SOURCE_TIME_CACHE_LIMIT as u64 {
        cache.finish_sampling(t, vec![t as u8]);
    }
    assert_eq!(cache.len(), MAXWELL_SOURCE_TIME_CACHE_LIMIT);
    cache.reserve(1000);
    assert_eq!(cache.len(), MAXWELL_SOURCE_TIME_CACHE_LIMIT);
    assert!(matches!(cache.lookup(0), MaxwellSourceCacheLookup::Sampling));
    assert!(is_missing(&cache.lookup(1)));
    assert!(matches!(cache.lookup(2), MaxwellSourceCacheLookup::Ready(_)));
    assert!(matches!(cache.lookup(1000), MaxwellSourceCacheLookup::Sampling));
}

#[test]
fn cache_never_evicts_entries_being_sampled() {
    let mut cache: MaxwellSourceTimeCache<Vec<u8>> = MaxwellSourceTimeCache::new();
    for t in 0..MAXWELL_SOURCE_TIME_CACHE_LIMIT as u64 {
        cache.reserve(t);
    }
    cache.evict_one_ready_entry();
    assert_eq!(cache.len(), MAXWELL_SOURCE_TIME_CACHE_LIMIT);
    cache.reserve(500);
    assert_eq!(cache.len(), MAXWELL_SOURCE_TIME_CACHE_LIMIT + 1);
    assert!(matches!(cache.lookup(0), MaxwellSourceCacheLookup::Sampling));
}

#[test]
fn axis_sample_count_is_clamped_to_solver_range() {
    assert_eq!(axis_sample_count(0), 5);
    assert_eq!(axis_sample_count(5), 5);
    assert_eq!(axis_sample_count(6), 6);
    assert_eq!(axis_sample_count(7), 7);
    assert_eq!(axis_sample_count(100), 7);
}

#[test]
fn counter_snapshots_measure_activity_between_them() {
    let mut counters = EmProfileCounters::new();
    let before = counters.snapshot();
    assert_eq!(before.delta_since(before), EmProfileSnapshot::zero());
    counters.record(EmProfileMetric::InverseCurl, 250);
    counters.record(EmProfileMetric::InverseCurl, 50);
    counters.record(EmProfileMetric::RenderCache, 10);
    let delta = counters.snapshot().delta_since(before);
    assert_eq!(delta.inverse_curl, CounterSnapshot { calls: 2, nanos: 300 });
    assert_eq!(delta.render_cache, CounterSnapshot { calls: 1, nanos: 10 });
    assert_eq!(delta.source_sampling, CounterSnapshot { calls: 0, nanos: 0 });
    assert_eq!(counters.counter(EmProfileMetric::InverseCurl).calls, 2);
    assert_eq!(before.delta_since(counters.snapshot()), EmProfileSnapshot::zero());
}

#[test]
fn counter_totals_wrap_and_deltas_saturate() {
    let mut counter = Counter { calls: u64::MAX, nanos: u64::MAX - 1 };
    counter.add(3);
    assert_eq!(counter.snapshot(), CounterSnapshot { calls: 0, nanos: 1 });
    let later = CounterSnapshot { calls: 1, nanos: 5 };
    let earlier = CounterSnapshot { calls: 4, nanos: 2 };
    assert_eq!(later.delta_since(earlier), CounterSnapshot { calls: 0, nanos: 3 });
    assert_eq!(Counter::new().snapshot(), CounterSnapshot { calls: 0, nanos: 0 });
}

#[test]
fn elapsed_nanos_saturates_at_u64_max() {
    assert_eq!(elapsed_nanos(12), 12);
    assert_eq!(elapsed_nanos(u64::MAX as u128), u64::MAX);
    assert_eq!(elapsed_nanos(u64::MAX as u128 + 1), u64::MAX);
}

#[test]
fn profile_flag_values_that_stay_off() {
    for value in ["", "0", "false", "off", "no", "  FALSE ", "\tOff\n", "No", "\u{3000}0"] {
        assert!(!profile_flag_enables(value), "{value:?} should keep profiling off");
    }
    for value in ["1", "true", "yes", "on", " nope ", "0 0", "offf"] {
        assert!(profile_flag_enables(value), "{value:?} should turn profiling on");
    }
}

#[test]
fn cache_samples_each_time_once_and_keeps_it_until_evicted() {
    let mut cache: MaxwellSourceTimeCache<Vec<u8>> = MaxwellSourceTimeCache::new();
    cache.reserve(5);
    cache.finish_sampling(5, vec![4, 2]);
    // A second reservation of a stored time starts no new sampling.
    cache.reserve(5);
    assert_eq!(cache.len(), 1);
    assert!(matches!(cache.lookup(5), MaxwellSourceCacheLookup::Ready(ref v) if *v == vec![4, 2]));
    // Work on other times leaves the stored values in place.
    cache.reserve(6);
    cache.finish_sampling(6, vec![1]);
    cache.reserve(8);
    cache.fail_sampling(8);
    assert!(matches!(cache.lookup(5), MaxwellSourceCacheLookup::Ready(ref v) if *v == vec![4, 2]));
    // Filling the cache evicts the oldest ready time, after which it is missing.
    for t in 100..100 + MAXWELL_SOURCE_TIME_CACHE_LIMIT as u64 {
        cache.finish_sampling(t, vec![0]);
    }
    assert!(is_missing(&cache.lookup(5)));
}
