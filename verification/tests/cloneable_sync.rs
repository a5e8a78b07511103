use any_map::CloneableAnyMapSync;

#[derive(Clone)]
struct Bar(usize);

#[derive(Debug, Clone)]
struct Wrapper(CloneableAnyMapSync);

#[test]
fn test_cloneable_any_map_sync() {
    let mut map = CloneableAnyMapSync::new();

    assert!(map.insert(Bar(1)).is_none());

    assert!(map.contains::<Bar>());
    assert_eq!(map.len(), 1);

    println!("{:?}", map);

    let wrapper = Wrapper(map);
    #[allow(clippy::redundant_clone)]
    let _ = wrapper.clone();
}
