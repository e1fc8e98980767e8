use key_path::{Item, KeyPath, PathBuilder};

#[test]
fn macro_works_for_empty() {
    let result = PathBuilder::with_capacity(0).build();
    assert_eq!(result, KeyPath::default());
}

#[test]
fn macro_works_for_2_strings() {
    let result = PathBuilder::with_capacity(2).item("a").item("b").build();
    assert_eq!(
        result,
        KeyPath::new(vec![Item::Key("a".into()), Item::Key("b".into())])
    );
}

#[test]
fn macro_works_for_2_numbers() {
    let result = PathBuilder::with_capacity(2).item(2).item(5).build();
    assert_eq!(result, KeyPath::new(vec![Item::Index(2), Item::Index(5)]));
}

#[test]
fn macro_works_for_2_mixed_items() {
    let string = "where".to_owned();
    let result = PathBuilder::with_capacity(2).item(string).item(5).build();
    assert_eq!(
        result,
        KeyPath::new(vec![Item::Key("where".to_owned().into()), Item::Index(5)])
    );
}

#[test]
fn macro_works_for_2_items_with_trailing_comma() {
    let string = "where".to_owned();
    let result = PathBuilder::with_capacity(2)
        .item(string)
        .item(5)
        .build();
    assert_eq!(
        result,
        KeyPath::new(vec![Item::Key("where".to_owned().into()), Item::Index(5)])
    );
}

#[test]
fn macro_works_for_3_items() {
    let string = "where".to_owned();
    let result = PathBuilder::with_capacity(3).item(string).item(5).item(7).build();
    assert_eq!(
        result,
        KeyPath::new(vec![
            Item::Key("where".to_owned().into()),
            Item::Index(5),
            Item::Index(7)
        ])
    );
}

#[test]
fn macro_works_for_3_items_with_trailing_comma() {
    let string = "where".to_owned();
    let result = PathBuilder::with_capacity(3)
        .item(string)
        .item(5)
        .item(7)
        .build();
    assert_eq!(
        result,
        KeyPath::new(vec![
            Item::Key("where".to_owned().into()),
            Item::Index(5),
            Item::Index(7)
        ])
    );
}

#[test]
fn builder_keeps_the_listed_order() {
    let result = PathBuilder::new().item("b").item(1).item("a").item(0).build();
    assert_eq!(result.len(), 4);
    assert_eq!(result[0], Item::Key("b".to_owned()));
    assert_eq!(result[1], Item::Index(1));
    assert_eq!(result[2], Item::Key("a".to_owned()));
    assert_eq!(result[3], Item::Index(0));
}

#[test]
fn builder_takes_every_kind_of_text() {
    let owned = "k".to_owned();
    let result = PathBuilder::new()
        .item("k")
        .item(&owned)
        .item(owned.clone())
        .build();
    let key = Item::Key("k".to_owned());
    assert_eq!(result, KeyPath::new(vec![key.clone(), key.clone(), key]));
}

#[test]
fn builder_does_not_remove_repeats() {
    let result = PathBuilder::new().item("a").item("a").item(3).item(3).build();
    assert_eq!(result.len(), 4);
    assert_eq!(result.to_string(), "a.a.3.3");
}

#[test]
fn new_builder_equals_builder_with_capacity() {
    let plain = PathBuilder::new().item("x").item(9).build();
    let roomy = PathBuilder::with_capacity(16).item("x").item(9).build();
    assert_eq!(plain, roomy);
}
