use async_filemanager::Identifier;

#[test]
fn identifiers_from_paths_and_indices() {
    assert_eq!(Identifier::from(String::from("a.png")), Identifier::Path(String::from("a.png")));
    assert_eq!(Identifier::from(4usize), Identifier::Index(4));
    assert!(Identifier::Index(4) != Identifier::Path(String::from("4")));
}

#[test]
fn same_and_duplicate() {
    let p = Identifier::Path(String::from("x"));
    assert!(p.same(&p.duplicate()));
    assert!(!p.same(&Identifier::Path(String::from("y"))));
    assert!(Identifier::Index(1).same(&Identifier::Index(1)));
    assert!(!Identifier::Index(1).same(&Identifier::Index(2)));
}
