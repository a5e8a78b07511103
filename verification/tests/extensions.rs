use any_map::Extensions;
use any_map::ExtensionsSync;

#[derive(Debug, PartialEq)]
struct Foo(usize);

#[test]
fn test_extensions() {
    let mut extensions = Extensions::default();

    assert!(!extensions.contains::<Foo>());

    assert!(extensions.insert(Foo(1)).is_none());

    assert!(extensions.contains::<Foo>());
    assert_eq!(extensions.get_inner().map(|x| x.len()), Some(1));

    assert_eq!(extensions.get::<Foo>().unwrap(), &Foo(1));
    extensions.get_mut::<Foo>().map(|x| {
        x.0 = 2;
        x
    });
    assert_eq!(extensions.get::<Foo>().unwrap(), &Foo(2));
    assert!(extensions.remove::<Foo>().is_some());

    assert!(!extensions.contains::<Foo>());
    assert_eq!(extensions.get_inner().map(|x| x.len()), Some(0));

    println!("{:?}", extensions);
}

#[test]
fn test_extensions_sync() {
    let mut extensions = ExtensionsSync::new();

    assert!(extensions.insert(Foo(1)).is_none());

    assert!(extensions.contains::<Foo>());
    assert_eq!(extensions.get_inner().map(|x| x.len()), Some(1));

    println!("{:?}", extensions);
}
