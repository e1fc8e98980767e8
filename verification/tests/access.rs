use key_path::{Item, KeyPath, PathBuilder};

#[test]
fn index_works() {
    let path = PathBuilder::with_capacity(2).item("orderBy").item("name").build();
    let result = &path[0];
    assert_eq!(result, &("orderBy".into()))
}

#[test]
fn index_with_range_works() {
    let path = PathBuilder::with_capacity(4)
        .item("orderBy")
        .item("name")
        .item(3)
        .item("good")
        .build();
    let result = &path[0..2];
    assert_eq!(
        result,
        &[Item::Key("orderBy".to_string()), Item::Key("name".to_string())]
    )
}

#[test]
fn get_works() {
    let path = PathBuilder::with_capacity(2).item("orderBy").item("name").build();
    let result = path.get(0).unwrap();
    assert_eq!(result, &("orderBy".into()))
}

#[test]
fn last_works() {
    let path = PathBuilder::with_capacity(2).item("orderBy").item("name").build();
    let result = path.last().unwrap();
    assert_eq!(result, &("name".into()))
}

#[test]
fn as_ref_works() {
    let path = PathBuilder::with_capacity(2).item("a").item("b").build();
    let path2 = path.as_ref();
    let path3 = path2.as_ref();
    assert_eq!(&path, path2);
    assert_eq!(path2, path3);
}

#[test]
fn get_past_the_end_is_none() {
    let path = PathBuilder::new().item("a").item("b").build();
    assert_eq!(path.get(1), Some(&Item::Key("b".to_owned())));
    assert_eq!(path.get(2), None);
    assert_eq!(path.get(5), None);
    assert_eq!(path.get(usize::MAX), None);
}

#[test]
fn last_of_the_empty_path_is_none() {
    assert_eq!(KeyPath::default().last(), None);
    assert_eq!(KeyPath::new(vec![]).get(0), None);
}

#[test]
fn len_and_is_empty_agree() {
    let empty = KeyPath::default();
    assert_eq!(empty.len(), 0);
    assert!(empty.is_empty());
    let one = KeyPath::new(vec![Item::Index(0)]);
    assert_eq!(one.len(), 1);
    assert!(!one.is_empty());
}

#[test]
fn new_keeps_length_and_every_item() {
    let given = vec![
        Item::Key("b".to_owned()),
        Item::Index(7),
        Item::Key("a".to_owned()),
        Item::Index(7),
    ];
    let path = KeyPath::new(given.clone());
    assert_eq!(path.len(), given.len());
    for i in 0..given.len() {
        assert_eq!(path[i], given[i]);
        assert_eq!(path.get(i), Some(&given[i]));
    }
}

#[test]
fn from_slice_keeps_length_and_every_item() {
    let given = [Item::Index(2), Item::Key("x".to_owned()), Item::Index(1)];
    let path = KeyPath::from(&given[..]);
    assert_eq!(path.len(), 3);
    assert_eq!(&path[0..3], &given[..]);
    assert_eq!(KeyPath::from(&given[0..0]), KeyPath::default());
}

#[test]
fn range_index_takes_any_part() {
    let path = PathBuilder::new().item("a").item(1).item("b").item(2).build();
    assert_eq!(&path[1..3], &[Item::Index(1), Item::Key("b".to_owned())]);
    assert_eq!(&path[0..4], &[
        Item::Key("a".to_owned()),
        Item::Index(1),
        Item::Key("b".to_owned()),
        Item::Index(2)
    ]);
    assert!(path[2..2].is_empty());
    assert!(path[4..4].is_empty());
}

#[test]
fn paths_are_equal_when_all_items_are() {
    let p = PathBuilder::new().item("a").item(1).build();
    let q = PathBuilder::new().item("a").item(1).build();
    assert!(p == q);
    assert_eq!(p.len(), q.len());
    for i in 0..p.len() {
        assert_eq!(p[i], q[i]);
    }
}

#[test]
fn paths_differ_by_order_length_or_kind() {
    let p = PathBuilder::new().item("a").item(1).build();
    assert!(p != PathBuilder::new().item(1).item("a").build());
    assert!(p != PathBuilder::new().item("a").build());
    assert!(p != PathBuilder::new().item("a").item(1).item(1).build());
    assert!(p != PathBuilder::new().item("a").item("1").build());
    assert!(p != PathBuilder::new().item("A").item(1).build());
    assert!(p != KeyPath::default());
}

#[test]
fn clone_is_equal_and_independent() {
    let p = PathBuilder::new().item("a").item(1).build();
    let q = p.clone();
    assert_eq!(p, q);
    let longer = q + 2;
    assert_eq!(p.len(), 2);
    assert_eq!(longer.len(), 3);
}
