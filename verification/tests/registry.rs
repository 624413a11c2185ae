use memstats::resource::TypeIdentity;
use memstats::resource::UnregisteredType;
use memstats::resource::MemoryUsage;
use memstats::stats::MemoryStats;

fn stats(count: usize, stack: usize, heap: usize) -> MemoryStats {
    MemoryStats { count, total_stack_bytes: stack, total_heap_bytes: heap }
}

#[test]
fn query_of_unregistered_type_is_absent() {
    let usage = MemoryUsage::new();
    assert_eq!(usage.get_stats(TypeIdentity::new(1)), None);
}

#[test]
fn update_of_unregistered_type_fails() {
    let mut usage = MemoryUsage::new();
    let id = TypeIdentity::new(1);
    assert_eq!(usage.update_stats(id, stats(1, 2, 3)), Err(UnregisteredType));
    assert_eq!(usage.get_stats(id), None);
}

#[test]
fn fast_update_of_unregistered_type_fails() {
    let mut usage = MemoryUsage::new();
    let id = TypeIdentity::new(1);
    assert_eq!(usage.update_stats_fast(id, stats(1, 2, 3)), Err(UnregisteredType));
    assert_eq!(usage.get_stats(id), None);
}

#[test]
fn registration_establishes_the_identity_value() {
    let mut usage = MemoryUsage::new();
    let id = TypeIdentity::new(1);
    usage.register_type(id);
    assert_eq!(usage.get_stats(id), Some(MemoryStats::default()));
}

#[test]
fn update_replaces_the_entry_wholesale() {
    let mut usage = MemoryUsage::new();
    let id = TypeIdentity::new(1);
    usage.register_type(id);
    assert_eq!(usage.update_stats(id, stats(1, 2, 3)), Ok(()));
    assert_eq!(usage.get_stats(id), Some(stats(1, 2, 3)));
    assert_eq!(usage.update_stats(id, stats(4, 5, 6)), Ok(()));
    assert_eq!(usage.get_stats(id), Some(stats(4, 5, 6)));
}

#[test]
fn re_registration_resets_to_identity() {
    let mut usage = MemoryUsage::new();
    let id = TypeIdentity::new(1);
    usage.register_type(id);
    assert_eq!(usage.update_stats(id, stats(1, 2, 3)), Ok(()));
    usage.register_type(id);
    assert_eq!(usage.get_stats(id), Some(MemoryStats::default()));
}

#[test]
fn fast_updates_for_distinct_types_do_not_interfere() {
    let mut usage = MemoryUsage::new();
    let ids = [TypeIdentity::new(1), TypeIdentity::new(2), TypeIdentity::new(3)];
    for id in ids {
        usage.register_type(id);
    }

    assert_eq!(usage.update_stats_fast(ids[0], stats(1, 10, 100)), Ok(()));
    assert_eq!(usage.update_stats_fast(ids[1], stats(2, 20, 200)), Ok(()));
    assert_eq!(usage.update_stats_fast(ids[2], stats(3, 30, 300)), Ok(()));

    assert_eq!(usage.get_stats(ids[0]), Some(stats(1, 10, 100)));
    assert_eq!(usage.get_stats(ids[1]), Some(stats(2, 20, 200)));
    assert_eq!(usage.get_stats(ids[2]), Some(stats(3, 30, 300)));
}

#[test]
fn identities_compare_by_their_number() {
    assert_eq!(TypeIdentity::new(7), TypeIdentity::new(7));
    assert_ne!(TypeIdentity::new(7), TypeIdentity::new(8));
}
