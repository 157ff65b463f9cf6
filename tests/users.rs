use book_backend::reply::{deleted_entries_message, user_created_message, user_updated_message};
use book_backend::user::{
    new_user_record, updated_user_record, user_or_placeholder, User, UserError,
};

const HELLO_SHA256: &str = "2cf24dba5fb0a30e26e83b2ac5b9e29e1b161e5c1fa7425e73043362938b9824";

fn user(id: i32, name: &str, email: &str, password: &str) -> User {
    User {
        id,
        display_name: name.to_string(),
        email: email.to_string(),
        password: password.to_string(),
        avatar: vec![1, 2, 3],
        saved_books: serde_json::Value::String("[1,2]".to_string()),
    }
}

#[test]
fn creation_lowercases_email() {
    let r = new_user_record(user(0, "Ann", "A@B.COM", "hello"));
    assert_eq!(r.email, "a@b.com");
    assert_eq!(r.display_name, "Ann");
    assert_eq!(r.avatar, vec![1, 2, 3]);
    assert_eq!(r.saved_books, serde_json::Value::String("[1,2]".to_string()));
}

#[test]
fn creation_stores_the_hash_not_the_password() {
    let r = new_user_record(user(0, "Ann", "ann@x.org", "hello"));
    assert_eq!(r.password, HELLO_SHA256);
    assert_eq!(r.email, "ann@x.org");
}

#[test]
fn update_with_empty_password_keeps_the_stored_hash() {
    let stored = user(7, "Old", "old@x.org", HELLO_SHA256);
    let r = updated_user_record(7, Some(stored), user(0, "New", "New@X.org", "")).unwrap();
    assert_eq!(r.password, HELLO_SHA256);
    assert_eq!(r.id, 7);
    assert_eq!(r.display_name, "New");
    assert_eq!(r.email, "new@x.org");
}

#[test]
fn update_with_password_hashes_it_anew() {
    let stored = user(7, "Old", "old@x.org", "0000");
    let r = updated_user_record(7, Some(stored), user(0, "Old", "old@x.org", "hello")).unwrap();
    assert_eq!(r.password, HELLO_SHA256);
    assert_ne!(r.password, "0000");
}

#[test]
fn update_of_missing_user_is_an_error() {
    let r = updated_user_record(3, None, user(0, "X", "x@y.z", "pw"));
    assert_eq!(r.err(), Some(UserError::NotFound));
}

#[test]
fn lookup_returns_found_user() {
    let u = user_or_placeholder(Some(user(4, "Bo", "bo@x.org", "h")));
    assert_eq!(u.id, 4);
    assert_eq!(u.display_name, "Bo");
}

#[test]
fn lookup_of_missing_user_gives_placeholder() {
    let u = user_or_placeholder(None);
    assert_eq!(u.id, -1);
    assert_eq!(u.display_name, "");
    assert_eq!(u.email, "");
    assert_eq!(u.password, "");
    assert!(u.avatar.is_empty());
    assert_eq!(u.saved_books, serde_json::Value::String(String::new()));
}

#[test]
fn deleting_nothing_reports_zero() {
    assert_eq!(deleted_entries_message(0), "Number of deleted entries: 0");
}

#[test]
fn deleted_count_in_decimal() {
    assert_eq!(deleted_entries_message(1), "Number of deleted entries: 1");
    assert_eq!(deleted_entries_message(1205), "Number of deleted entries: 1205");
    assert_eq!(
        deleted_entries_message(u64::MAX),
        "Number of deleted entries: 18446744073709551615"
    );
}

#[test]
fn user_messages() {
    assert_eq!(user_created_message(&"Ann".to_string()), "User Ann was successfully created");
    assert_eq!(user_updated_message(&"Bo".to_string()), "User Bo was successfully updated");
}
