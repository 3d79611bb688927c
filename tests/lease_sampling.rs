use clam_cache::accumulator::{AccessResult, MissRatioAccumulator};
use clam_cache::clam_cache::{ClamCache, LeaseEngine, TaggedObjectId, UnknownReferenceError};
use clam_cache::profile::{ConfigurationError, LeaseProfile};
use std::collections::HashMap;

/// A small lease engine for the tests: an object accessed at time `t` with lease
/// `l` stays resident while the clock is below `t + l`.
struct ExpiringLeases {
    clock: u64,
    expiry: HashMap<u64, u64>,
    capacity: usize,
    handed: Vec<(usize, u64)>,
}

impl ExpiringLeases {
    fn new() -> Self {
        ExpiringLeases { clock: 0, expiry: HashMap::new(), capacity: 0, handed: Vec::new() }
    }
}

impl LeaseEngine<u64> for ExpiringLeases {
    fn cache_access(&mut self, access: TaggedObjectId<usize, u64>) -> AccessResult {
        let TaggedObjectId(lease, obj) = access;
        self.handed.push((lease, obj));
        let hit = match self.expiry.get(&obj) {
            Some(&e) => self.clock < e,
            None => false,
        };
        self.expiry.insert(obj, self.clock + lease as u64);
        self.clock += 1;
        if hit {
            AccessResult::Hit
        } else {
            AccessResult::Miss
        }
    }

    fn set_capacity(&mut self, cache_size: usize) {
        self.capacity = cache_size;
    }
}

fn profile(short: usize, long: usize, num: u64, den: u64) -> LeaseProfile {
    LeaseProfile::new(short, long, num, den).unwrap()
}

fn ratio(acc: &MissRatioAccumulator) -> f64 {
    if acc.total_accesses == 0 {
        0.0
    } else {
        acc.total_misses as f64 / acc.total_accesses as f64
    }
}

#[test]
fn test_lease_cache_tag_id() {
    let trace = vec![
        TaggedObjectId(1u64, 2u64), // lease 2
        TaggedObjectId(3, 4),       // lease 1
        TaggedObjectId(1, 2),       // lease 2
    ];
    let lease_map: HashMap<u64, LeaseProfile> =
        vec![(1, profile(2, 0, 1, 1)), (3, profile(1, 0, 1, 1))].into_iter().collect();
    let mut clam_cache = ClamCache::new(ExpiringLeases::new(), lease_map);
    clam_cache.set_capacity(1000).unwrap();
    let acc = clam_cache.get_mr(&trace).unwrap();
    let mr = ratio(&acc);
    assert_eq!(mr, 1.0);
    println!("mr: {}", mr);
}

#[test]
fn test_sample_lease() {
    let num_iters = 1000;
    let lease_map: HashMap<u64, LeaseProfile> = vec![(0, profile(0, 1, 1, 2))].into_iter().collect();
    let mut num_short_lease = 0;
    let mut num_long_lease = 0;
    let mut clam_cache = ClamCache::new(ExpiringLeases::new(), lease_map);
    (0..num_iters).for_each(|_| {
        let lease = clam_cache.sample_lease(0);
        match lease {
            Some(0) => num_short_lease += 1,
            Some(1) => num_long_lease += 1,
            _ => panic!("Invalid lease"),
        }
    });
    let short_frac = num_short_lease as f64 / num_iters as f64;
    let long_frac = num_long_lease as f64 / num_iters as f64;
    assert!((short_frac - 0.5).abs() < 0.05);
    println!("short_lease_prob: {} long_lease_prob: {}, ", short_frac, long_frac);
}

#[test]
fn profile_rejects_probability_outside_unit_interval() {
    assert_eq!(LeaseProfile::new(1, 2, 3, 2).err(), Some(ConfigurationError::ProbabilityOutOfRange));
    assert_eq!(LeaseProfile::new(1, 2, 0, 0).err(), Some(ConfigurationError::ProbabilityOutOfRange));
    assert!(LeaseProfile::new(1, 2, 0, 1).is_ok());
    assert!(LeaseProfile::new(1, 2, 7, 7).is_ok());
}

#[test]
fn choose_lease_breaks_ties_toward_long() {
    let p = profile(5, 9, 1, 2);
    assert_eq!(p.choose_lease(0), 5);
    assert_eq!(p.choose_lease(1), 9);
}

#[test]
fn exactly_short_num_draws_pick_short() {
    let p = profile(3, 8, 37, 100);
    let shorts = (0..100u64).filter(|&d| p.choose_lease(d) == 3).count();
    assert_eq!(shorts, 37);
}

#[test]
fn certain_short_profile_always_gives_short_lease() {
    let p = profile(4, 11, 1, 1);
    for _ in 0..500 {
        assert_eq!(p.sample(), 4);
    }
    let q = profile(4, 11, 1000, 1000);
    for _ in 0..500 {
        assert_eq!(q.sample(), 4);
    }
}

#[test]
fn zero_probability_profile_always_gives_long_lease() {
    let p = profile(4, 11, 0, 3);
    for _ in 0..500 {
        assert_eq!(p.sample(), 11);
    }
}

#[test]
fn sample_lease_of_unknown_reference_is_none() {
    let lease_map: HashMap<u64, LeaseProfile> = vec![(1, profile(2, 0, 1, 1))].into_iter().collect();
    let mut c = ClamCache::new(ExpiringLeases::new(), lease_map);
    assert_eq!(c.sample_lease(2), None);
    assert_eq!(c.sample_lease(1), Some(2));
}

#[test]
fn set_capacity_rejects_zero_and_forwards_positive() {
    let mut c = ClamCache::new(ExpiringLeases::new(), HashMap::new());
    assert_eq!(c.set_capacity(0), Err(ConfigurationError::ZeroCapacity));
    assert_eq!(c.cache.capacity, 0);
    assert_eq!(c.set_capacity(64), Ok(()));
    assert_eq!(c.cache.capacity, 64);
}

#[test]
fn cache_access_hands_sampled_lease_and_object_to_engine() {
    let lease_map: HashMap<u64, LeaseProfile> = vec![(7, profile(3, 9, 0, 1))].into_iter().collect();
    let mut c = ClamCache::new(ExpiringLeases::new(), lease_map);
    assert_eq!(c.cache_access(TaggedObjectId(8, 42)), None);
    assert!(c.cache.handed.is_empty());
    assert_eq!(c.cache_access(TaggedObjectId(7, 42)), Some(AccessResult::Miss));
    assert_eq!(c.cache_access(TaggedObjectId(7, 42)), Some(AccessResult::Hit));
    assert_eq!(c.cache.handed, vec![(9, 42), (9, 42)]);
}

#[test]
fn annotate_keeps_object_and_picks_profile_lease() {
    let lease_map: HashMap<u64, LeaseProfile> = vec![(1, profile(6, 2, 1, 1))].into_iter().collect();
    let c = ClamCache::new(ExpiringLeases::new(), lease_map);
    assert_eq!(c.annotate(TaggedObjectId(1, 77u64)), Some(TaggedObjectId(6, 77)));
    assert_eq!(c.annotate(TaggedObjectId(5, 77u64)), None);
}

#[test]
fn empty_trace_has_zero_miss_ratio() {
    let mut c = ClamCache::new(ExpiringLeases::new(), HashMap::new());
    let trace: Vec<TaggedObjectId<u64, u64>> = Vec::new();
    let acc = c.get_mr(&trace).unwrap();
    assert_eq!(acc, MissRatioAccumulator { total_accesses: 0, total_misses: 0 });
    assert_eq!(ratio(&acc), 0.0);
}

#[test]
fn unknown_reference_fails_whole_trace() {
    let lease_map: HashMap<u64, LeaseProfile> = vec![(1, profile(2, 0, 1, 1))].into_iter().collect();
    let mut c = ClamCache::new(ExpiringLeases::new(), lease_map);
    let trace = vec![TaggedObjectId(1u64, 2u64), TaggedObjectId(9, 3), TaggedObjectId(4, 3)];
    assert_eq!(c.get_mr(&trace), Err(UnknownReferenceError { reference: 9, index: 1 }));
    assert!(c.cache.handed.is_empty());
    assert_eq!(
        c.first_unknown_reference(&trace),
        Some(UnknownReferenceError { reference: 9, index: 1 })
    );
    assert_eq!(c.first_unknown_reference(&trace[..1]), None);
}

#[test]
fn miss_ratio_counts_hits_and_misses() {
    let lease_map: HashMap<u64, LeaseProfile> = vec![(1, profile(10, 0, 1, 1))].into_iter().collect();
    let mut c = ClamCache::new(ExpiringLeases::new(), lease_map);
    c.set_capacity(16).unwrap();
    let trace = vec![
        TaggedObjectId(1u64, 5u64),
        TaggedObjectId(1, 5),
        TaggedObjectId(1, 6),
        TaggedObjectId(1, 5),
    ];
    let acc = c.get_mr(&trace).unwrap();
    assert_eq!(acc, MissRatioAccumulator { total_accesses: 4, total_misses: 2 });
    assert_eq!(ratio(&acc), 0.5);
    assert!(acc.total_misses <= acc.total_accesses);
}

#[test]
fn accumulator_records_one_access_per_result() {
    let mut acc = MissRatioAccumulator::new();
    acc.record(AccessResult::Miss);
    acc.record(AccessResult::Hit);
    acc.record(AccessResult::Miss);
    assert_eq!(acc, MissRatioAccumulator { total_accesses: 3, total_misses: 2 });
}

#[test]
fn profile_getters_return_construction_values() {
    let p = profile(12, 34, 5, 8);
    assert_eq!(p.short_lease(), 12);
    assert_eq!(p.long_lease(), 34);
    assert_eq!(p.short_probability(), (5, 8));
}

#[test]
fn cache_access_with_draw_uses_the_given_draw() {
    let lease_map: HashMap<u64, LeaseProfile> = vec![(7, profile(3, 9, 2, 5))].into_iter().collect();
    let mut c = ClamCache::new(ExpiringLeases::new(), lease_map);
    assert_eq!(c.cache_access_with_draw(TaggedObjectId(7, 42u64), 1), Some(AccessResult::Miss));
    assert_eq!(c.cache_access_with_draw(TaggedObjectId(7, 42u64), 2), Some(AccessResult::Hit));
    assert_eq!(c.cache_access_with_draw(TaggedObjectId(6, 42u64), 0), None);
    assert_eq!(c.cache.handed, vec![(3, 42), (9, 42)]);
}

#[test]
fn get_mr_with_draws_replays_in_order() {
    let lease_map: HashMap<u64, LeaseProfile> =
        vec![(1, profile(1, 5, 1, 2)), (2, profile(4, 0, 3, 4))].into_iter().collect();
    let mut c = ClamCache::new(ExpiringLeases::new(), lease_map);
    let trace = vec![
        TaggedObjectId(1u64, 10u64),
        TaggedObjectId(2, 11),
        TaggedObjectId(1, 10),
        TaggedObjectId(2, 11),
    ];
    let draws = vec![1u64, 3, 0, 2];
    let acc = c.get_mr_with_draws(&trace, &draws).unwrap();
    assert_eq!(c.cache.handed, vec![(5, 10), (0, 11), (1, 10), (4, 11)]);
    assert_eq!(acc, MissRatioAccumulator { total_accesses: 4, total_misses: 3 });
}

#[test]
fn scenario_engine_receives_profile_leases() {
    let lease_map: HashMap<u64, LeaseProfile> =
        vec![(1, profile(2, 0, 1, 1)), (3, profile(1, 0, 1, 1))].into_iter().collect();
    let mut c = ClamCache::new(ExpiringLeases::new(), lease_map);
    c.set_capacity(1000).unwrap();
    let trace = vec![TaggedObjectId(1u64, 2u64), TaggedObjectId(3, 4), TaggedObjectId(1, 2)];
    c.get_mr(&trace).unwrap();
    assert_eq!(c.cache.handed, vec![(2, 2), (1, 4), (2, 2)]);
    assert_eq!(c.cache.capacity, 1000);
}
