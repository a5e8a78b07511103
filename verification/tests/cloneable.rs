use any_map::CloneableAnyMap;

#[derive(Clone)]
struct Bar(usize);

#[derive(Debug, Clone)]
struct Wrapper(CloneableAnyMap);

#[test]
fn test_cloneable_any_map() {
    let mut map = CloneableAnyMap::with_capacity(1);

    assert!(map.insert(Bar(1)).is_none());

    assert!(map.contains::<Bar>());
    assert_eq!(map.len(), 1);

    println!("{:?}", map);

    let wrapper = Wrapper(map);
    #[allow(clippy::redundant_clone)]
    let _ = wrapper.clone();
}
