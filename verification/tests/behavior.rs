use any_map::AnyMap;
use any_map::CloneableAnyMap;
use any_map::CloneableExtensions;
use any_map::Extensions;
use any_map::IdHasher;

#[derive(Debug, PartialEq)]
struct Counter(u64);

#[test]
fn test_insert_then_get() {
    let mut map = AnyMap::new();
    assert!(map.insert(41u64).is_none());
    assert_eq!(map.get::<u64>(), Some(&41));
    assert!(map.insert(String::from("aux")).is_none());
    assert_eq!(map.get::<String>(), Some(&String::from("aux")));
    assert_eq!(map.get::<u64>(), Some(&41));
    assert_eq!(map.len(), 2);
}

#[test]
fn test_replace_returns_previous() {
    let mut map = AnyMap::new();
    assert!(map.insert(1u32).is_none());
    assert_eq!(map.insert(2u32), Some(1));
    assert_eq!(map.get::<u32>(), Some(&2));
    assert_eq!(map.len(), 1);
}

#[test]
fn test_contains_lifecycle() {
    let mut map = AnyMap::new();
    assert!(!map.contains::<u16>());
    map.insert(7u16);
    assert!(map.contains::<u16>());
    assert_eq!(map.remove::<u16>(), Some(7));
    assert!(!map.contains::<u16>());
}

#[test]
fn test_remove_never_inserted() {
    let mut map = AnyMap::new();
    map.insert(9u8);
    assert_eq!(map.remove::<u32>(), None);
    assert_eq!(map.len(), 1);
    assert_eq!(map.get::<u8>(), Some(&9));
}

#[test]
fn test_distinct_types_have_distinct_slots() {
    let mut map = AnyMap::new();
    map.insert(5u64);
    assert_eq!(map.get::<u32>(), None);
    assert_eq!(map.get::<i64>(), None);
    assert_eq!(map.remove::<u32>(), None);
    assert_eq!(map.get::<u64>(), Some(&5));
}

#[test]
fn test_deferred_allocation() {
    let mut extensions = Extensions::new();
    assert!(extensions.get_inner().is_none());
    assert_eq!(extensions.get::<u32>(), None);
    assert!(!extensions.contains::<u32>());
    assert_eq!(extensions.remove::<u32>(), None);
    assert!(extensions.get_inner().is_none());
    assert!(extensions.insert(5u32).is_none());
    assert_eq!(extensions.get_inner().map(|x| x.len()), Some(1));
}

#[test]
fn test_wrapper_keeps_store_after_removal() {
    let mut extensions = Extensions::new();
    extensions.insert(5u32);
    assert_eq!(extensions.remove::<u32>(), Some(5));
    assert_eq!(extensions.get_inner().map(|x| x.len()), Some(0));
}

#[test]
fn test_clone_independence() {
    let mut orig = CloneableAnyMap::new();
    orig.insert(10u64);
    orig.insert(String::from("shared"));
    let mut copy = orig.clone();
    assert_eq!(copy.len(), 2);
    *copy.get_mut::<u64>().unwrap() = 99;
    assert_eq!(orig.get::<u64>(), Some(&10));
    assert_eq!(copy.get::<u64>(), Some(&99));
    assert_eq!(copy.get::<String>(), Some(&String::from("shared")));
}

#[test]
fn test_clone_after_churn() {
    let mut orig = CloneableAnyMap::new();
    orig.insert(1u8);
    orig.insert(2u16);
    orig.insert(3u32);
    assert_eq!(orig.remove::<u16>(), Some(2));
    orig.insert(4u8);
    let copy = orig.clone();
    assert_eq!(copy.len(), 2);
    assert_eq!(copy.get::<u8>(), Some(&4));
    assert_eq!(copy.get::<u32>(), Some(&3));
    assert!(!copy.contains::<u16>());
}

#[test]
fn test_cloneable_wrapper_clone_unallocated() {
    let extensions = CloneableExtensions::new();
    let copy = extensions.clone();
    assert!(copy.get_inner().is_none());
}

#[test]
fn test_counter_scenario() {
    let mut container = AnyMap::new();
    assert!(container.insert(Counter(0)).is_none());
    assert!(container.contains::<Counter>());
    assert_eq!(container.get::<Counter>(), Some(&Counter(0)));
    container.get_mut::<Counter>().unwrap().0 += 1;
    assert_eq!(container.get::<Counter>(), Some(&Counter(1)));
    assert_eq!(container.remove::<Counter>(), Some(Counter(1)));
    assert!(!container.contains::<Counter>());
}

#[test]
fn test_with_capacity_starts_empty() {
    let map = AnyMap::with_capacity(16);
    assert_eq!(map.len(), 0);
    let map = CloneableAnyMap::with_capacity(0);
    assert_eq!(map.len(), 0);
}

#[test]
fn test_id_hasher_is_identity() {
    let mut hasher = IdHasher::new();
    hasher.write_u64(0x1234_5678_9abc_def0);
    assert_eq!(hasher.finish(), 0x1234_5678_9abc_def0);
    hasher.write_u64(3);
    assert_eq!(hasher.finish(), 3);
    let fresh = IdHasher::default();
    assert_eq!(fresh.finish(), 0);
}

fn assert_shareable<T: Send + Sync>(_value: &T) {}

#[test]
fn test_sync_variants_are_shareable() {
    assert_shareable(&any_map::AnyMapSync::new());
    assert_shareable(&any_map::CloneableAnyMapSync::new());
    assert_shareable(&any_map::ExtensionsSync::new());
    assert_shareable(&any_map::CloneableExtensionsSync::new());
}
