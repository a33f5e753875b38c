use nuggit::service::Error;
use nuggit::storage::InMemory;
use nuggit::Repo;
use nuggit::Service;

#[test]
fn service_create_error_if_name_is_not_ascii() {
    let mut s = Service::new(InMemory::new());

    // Note the fancy f!
    let name = "ƒoo";
    let err = s.create(name, "", "").err();
    assert!(err.is_some());
    assert_eq!(err.unwrap(), Error::InvalidName);
}

#[test]
fn service_create_error_if_name_is_too_long() {
    let mut s = Service::new(InMemory::new());

    // Maybe there's a shorter way to create a long string.
    let name = String::from_iter(['t'; 65].iter());
    let err = s.create(name.as_str(), "", "").err();
    assert!(err.is_some());
    assert_eq!(err.unwrap(), Error::InvalidName);
}

#[test]
fn service_create_error_if_name_is_empty() {
    let mut s = Service::new(InMemory::new());

    let name = "";
    let err = s.create(name, "", "").err();
    assert!(err.is_some());
    assert_eq!(err.unwrap(), Error::InvalidName);
}

#[test]
fn service_create_error_if_description_is_too_long() {
    let mut s = Service::new(InMemory::new());

    // Maybe there's a shorter way to create a long string.
    let description = String::from_iter(['t'; 257].iter());
    let err = s.create("test", description.as_str(), "").err();
    assert!(err.is_some());
    assert_eq!(err.unwrap(), Error::InvalidDescription);
}

#[test]
fn service_create_ok_if_description_is_empty() {
    let mut s = Service::new(InMemory::new());

    let description = "";
    assert!(s.create("test", description, "").is_ok());
}

#[test]
fn service_create_error_if_storage_returns_none() {
    // The storage signals absence on create when the name is already taken.
    let mut s = Service::new(InMemory::new());
    s.create("test", "", "").unwrap();

    let err = s.create("test", "", "").err();
    assert!(err.is_some());
    assert_eq!(err.unwrap(), Error::AlreadyExists);
}

#[test]
fn service_create_ok_if_storage_returns_some() {
    let mut s = Service::new(InMemory::new());

    let r = s.create("some", "test", "bob").unwrap();
    assert_eq!(
        r,
        Repo {
            name: String::from("some"),
            description: String::from("test"),
            creator: String::from("bob"),
            created: String::from("2020-04-28T13:48:01.778470"),
        }
    );
}

#[test]
fn service_retrieve_error_if_storage_returns_none() {
    let s = Service::new(InMemory::new());

    let err = s.retrieve("test").err();
    assert!(err.is_some());
    assert_eq!(err.unwrap(), Error::NotFound);
}

#[test]
fn service_retrieve_ok_if_storage_returns_some() {
    let mut s = Service::new(InMemory::new());
    s.create("some", "test", "bob").unwrap();

    let r = s.retrieve("some").unwrap();
    assert_eq!(
        r,
        Repo {
            name: String::from("some"),
            description: String::from("test"),
            creator: String::from("bob"),
            created: String::from("2020-04-28T13:48:01.778470"),
        }
    );
}
