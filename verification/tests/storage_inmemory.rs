use nuggit::storage::InMemory;
use nuggit::Repo;
use nuggit::Storage;

#[test]
fn create_ok_if_repo_does_not_exist() {
    let mut s = InMemory::new();

    let expected = Repo {
        name: String::from("some"),
        description: String::from("test"),
        creator: String::from("bob"),
        created: String::from("2020-04-28T13:48:01.778470"),
    };

    let r = s
        .create(&expected.name, &expected.description, &expected.creator)
        .unwrap();

    assert_eq!(r, expected)
}

#[test]
fn create_none_if_repo_already_exists() {
    let mut s = InMemory::new();
    s.create("test", "", "").unwrap();
    let r = s.create("test", "", "");
    assert!(r.is_none());
}

#[test]
fn retrieve_none_if_repo_does_not_exist() {
    let s = InMemory::new();
    let r = s.retrieve("test");
    assert!(r.is_none());
}

#[test]
fn retrieve_some_if_repo_exists() {
    let mut s = InMemory::new();

    let expected = Repo {
        name: String::from("some"),
        description: String::from("test"),
        creator: String::from("bob"),
        created: String::from("2020-04-28T13:48:01.778470"),
    };

    s.create(&expected.name, &expected.description, &expected.creator)
        .unwrap();

    let r = s.retrieve(&expected.name).unwrap();

    assert_eq!(r, expected)
}
