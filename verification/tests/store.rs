use any_map::AnyMap;
use any_map::AnyMapSync;

#[derive(Debug, PartialEq)]
struct Foo(usize);

#[test]
fn test_any_map() {
    let mut map = AnyMap::default();

    assert!(!map.contains::<Foo>());

    assert!(map.insert(Foo(1)).is_none());

    assert!(map.contains::<Foo>());
    assert_eq!(map.len(), 1);

    assert_eq!(map.get::<Foo>().unwrap(), &Foo(1));
    map.get_mut::<Foo>().map(|x| {
        x.0 = 2;
        x
    });
    assert_eq!(map.get::<Foo>().unwrap(), &Foo(2));
    assert!(map.remove::<Foo>().is_some());

    assert!(!map.contains::<Foo>());
    assert_eq!(map.len(), 0);

    println!("{:?}", map);
}

#[test]
fn test_any_map_sync() {
    let mut map = AnyMapSync::new();

    assert!(map.insert(Foo(1)).is_none());

    assert!(map.contains::<Foo>());
    assert_eq!(map.len(), 1);

    println!("{:?}", map);
}
