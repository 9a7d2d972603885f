//! Tests of the keyed store: the four operations, their error outcomes, and
//! the per-entry write guard.

use bytestore::repository::Repository;
use bytestore::types::DatabaseError;

#[test]
fn mod_test_get() {
    let mut db = Repository::new();

    db.insert(1, b"hello".to_vec()).unwrap();
    db.insert(2, b"world".to_vec()).unwrap();

    assert_eq!(db.get(1), Some(b"hello".to_vec()));
    assert_eq!(db.get(2), Some(b"world".to_vec()));
    assert_eq!(db.get(3), None);
}

#[test]
fn mod_test_set() {
    let mut db = Repository::new();

    db.insert(1, b"hello".to_vec()).unwrap();

    db.set(1, b"updated hello".to_vec()).unwrap();

    assert_eq!(db.get(1), Some(b"updated hello".to_vec()));
}

#[test]
fn test_set_not_found() {
    let mut db = Repository::new();

    let err = db.set(1, b"updated hello".to_vec()).unwrap_err();

    assert_eq!(err, DatabaseError::NotFound(1));
}

#[test]
fn mod_test_insert() {
    let mut db = Repository::new();

    db.insert(1, b"hello".to_vec()).unwrap();

    assert_eq!(db.get(1), Some(b"hello".to_vec()));
}

#[test]
fn test_insert_already_exists() {
    let mut db = Repository::new();

    db.insert(1, b"hello".to_vec()).unwrap();

    let err = db.insert(1, b"new hello".to_vec()).unwrap_err();

    assert_eq!(err, DatabaseError::AlreadyExists(1));
    assert_eq!(db.get(1), Some(b"hello".to_vec()));
}

#[test]
fn mod_test_remove() {
    let mut db = Repository::new();

    db.insert(1, b"hello".to_vec()).unwrap();

    db.remove(1).unwrap();

    assert!(db.get(1).is_none());
}

#[test]
fn test_remove_not_found() {
    let mut db = Repository::new();

    db.insert(1, b"hello".to_vec()).unwrap();

    let err = db.remove(2).unwrap_err();

    assert_eq!(err, DatabaseError::NotFound(2));
    assert!(db.get(1).is_some());
}

#[test]
fn set_fails_fast_while_write_guard_held() {
    let mut db = Repository::new();

    db.insert(7, b"first".to_vec()).unwrap();
    db.try_write_lock(7).unwrap();

    let err = db.set(7, b"second".to_vec()).unwrap_err();
    assert_eq!(err, DatabaseError::WriteBlocked(7));
    assert_eq!(db.get(7), Some(b"first".to_vec()));

    db.write_unlock(7);
    db.set(7, b"second".to_vec()).unwrap();
    assert_eq!(db.get(7), Some(b"second".to_vec()));
}

#[test]
fn second_write_lock_is_blocked() {
    let mut db = Repository::new();

    db.insert(7, b"value".to_vec()).unwrap();
    db.try_write_lock(7).unwrap();

    let err = db.try_write_lock(7).unwrap_err();
    assert_eq!(err, DatabaseError::WriteBlocked(7));
}

#[test]
fn write_lock_not_found() {
    let mut db = Repository::new();

    let err = db.try_write_lock(9).unwrap_err();
    assert_eq!(err, DatabaseError::NotFound(9));
}

#[test]
fn remove_deletes_guard_with_key() {
    let mut db = Repository::new();

    db.insert(7, b"value".to_vec()).unwrap();
    db.try_write_lock(7).unwrap();
    db.remove(7).unwrap();

    db.insert(7, b"fresh".to_vec()).unwrap();
    db.set(7, b"fresh again".to_vec()).unwrap();
    assert_eq!(db.get(7), Some(b"fresh again".to_vec()));
}

#[test]
fn serialized_writes_leave_the_later_value() {
    let mut db = Repository::new();

    db.insert(3, b"start".to_vec()).unwrap();
    db.set(3, b"one".to_vec()).unwrap();
    db.set(3, b"two".to_vec()).unwrap();

    assert_eq!(db.get(3), Some(b"two".to_vec()));
}
