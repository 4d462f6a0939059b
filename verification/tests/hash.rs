#[test]
fn map_new_holds_the_first_pair_and_nothing_else() {
    let m = unempty::HashMap::new("one", 1);
    assert_eq!(format!("{:?}", m), r#"HashMap { first: ("one", 1), dynamic: {} }"#);
}

#[test]
fn map_clone_holds_the_same_pair() {
    let m = unempty::HashMap::new(String::from("k"), vec![1, 2]);
    let c = m.clone();
    assert_eq!(format!("{:?}", c), format!("{:?}", m));
}

#[test]
fn set_new_holds_the_first_item_and_nothing_else() {
    let s = unempty::HashSet::new(7);
    assert_eq!(format!("{:?}", s), "HashSet { first: 7, dynamic: {} }");
}

#[test]
fn set_clone_holds_the_same_item() {
    let s = unempty::HashSet::new(String::from("x"));
    let c = s.clone();
    assert_eq!(format!("{:?}", c), format!("{:?}", s));
}
