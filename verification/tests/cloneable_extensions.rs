use any_map::CloneableExtensions;

#[derive(Clone)]
struct Bar(usize);

#[derive(Debug, Clone)]
struct Wrapper(CloneableExtensions);

#[test]
fn test_cloneable_extensions() {
    let mut extensions = CloneableExtensions::with_capacity(1);

    assert!(extensions.insert(Bar(1)).is_none());

    assert!(extensions.contains::<Bar>());
    assert_eq!(extensions.get_inner().map(|x| x.len()), Some(1));

    println!("{:?}", extensions);

    let wrapper = Wrapper(extensions);
    #[allow(clippy::redundant_clone)]
    let _ = wrapper.clone();
}
