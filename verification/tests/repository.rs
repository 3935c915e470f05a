use zkp_auth::repository::error::RepositoryError;
use zkp_auth::repository::in_memory::InMemoryRepository;

fn init() -> InMemoryRepository<String> {
    InMemoryRepository::<String>::default()
}

#[test]
fn should_not_exist() {
    let db = init();
    assert!(!db.has_key("test_key").unwrap());
    assert_eq!(db.get("test_key").unwrap(), None);
}

#[test]
fn should_insert() {
    let mut db = init();
    let value: String = String::from("test value");

    assert!(!db.has_key("test_key").unwrap());
    assert_eq!(db.insert("test_key", &value), Ok(()));
    assert!(db.has_key("test_key").unwrap());
    assert_eq!(db.get("test_key").unwrap(), Some(value));
}

#[test]
fn should_not_insert_twice() {
    let mut db = init();
    let value: String = String::from("test value");

    assert!(!db.has_key("test_key").unwrap());
    assert_eq!(db.insert("test_key", &value), Ok(()));
    assert_eq!(
        db.insert("test_key", &value),
        Err(RepositoryError::ValueAlreadyExists)
    );
}

#[test]
fn should_put_nonexistent_value() {
    let mut db = init();
    let value: String = String::from("test value");

    assert!(!db.has_key("test_key").unwrap());
    assert_eq!(db.put("test_key", &value), Ok(()));
    assert!(db.has_key("test_key").unwrap());
    assert_eq!(db.get("test_key").unwrap(), Some(value));
}

#[test]
fn should_update_existent_value_with_put() {
    let mut db = init();
    let value: String = String::from("test value");
    let updated_value: String = String::from("updated value");

    assert!(!db.has_key("test_key").unwrap());
    assert_eq!(db.insert("test_key", &value), Ok(()));
    assert_eq!(db.put("test_key", &updated_value), Ok(()));
    assert_eq!(db.get("test_key").unwrap(), Some(updated_value));
}

#[test]
fn should_keep_keys_apart() {
    let mut db = init();
    let first: String = String::from("first value");
    let second: String = String::from("second value");

    assert_eq!(db.insert("first_key", &first), Ok(()));
    assert_eq!(db.insert("second_key", &second), Ok(()));
    assert_eq!(db.get("first_key").unwrap(), Some(first));
    assert_eq!(db.get("second_key").unwrap(), Some(second));
    assert!(!db.has_key("third_key").unwrap());
}
