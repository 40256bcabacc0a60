use session_server::registry::{RegistryError, Users};

#[test]
fn new_registry_is_empty() {
    let users = Users::new();
    assert!(users.is_empty());
    assert_eq!(users.len(), 0);
    assert!(users.all_ids().is_empty());
    assert!(users.snapshot().is_empty());
    assert!(!users.contains(0));
}

#[test]
fn insert_registers_the_name() {
    let mut users = Users::new();
    assert_eq!(users.insert(4, "alice".to_string()), Ok(()));
    assert!(users.contains(4));
    assert_eq!(users.get(4), Some(&"alice".to_string()));
    assert_eq!(users.len(), 1);
    assert!(!users.is_empty());
}

#[test]
fn insert_twice_keeps_the_first_name() {
    let mut users = Users::new();
    assert_eq!(users.insert(4, "alice".to_string()), Ok(()));
    assert_eq!(users.insert(4, "mallory".to_string()), Err(RegistryError::AlreadyJoined));
    assert_eq!(users.get(4), Some(&"alice".to_string()));
    assert_eq!(users.len(), 1);
}

#[test]
fn remove_returns_the_previous_name() {
    let mut users = Users::new();
    users.insert(1, "alice".to_string()).unwrap();
    users.insert(2, "bob".to_string()).unwrap();
    assert_eq!(users.remove(1), Ok("alice".to_string()));
    assert!(!users.contains(1));
    assert!(users.contains(2));
    assert_eq!(users.len(), 1);
}

#[test]
fn remove_of_an_unknown_identifier_is_not_present() {
    let mut users = Users::new();
    users.insert(2, "bob".to_string()).unwrap();
    assert_eq!(users.remove(1), Err(RegistryError::NotPresent));
    assert_eq!(users.len(), 1);
    assert_eq!(users.get(2), Some(&"bob".to_string()));
}

#[test]
fn remove_twice_is_not_present_the_second_time() {
    let mut users = Users::new();
    users.insert(9, "carol".to_string()).unwrap();
    assert_eq!(users.remove(9), Ok("carol".to_string()));
    assert_eq!(users.remove(9), Err(RegistryError::NotPresent));
    assert!(users.is_empty());
}

#[test]
fn identifier_can_join_again_after_removal() {
    let mut users = Users::new();
    users.insert(9, "carol".to_string()).unwrap();
    users.remove(9).unwrap();
    assert_eq!(users.insert(9, "dave".to_string()), Ok(()));
    assert_eq!(users.get(9), Some(&"dave".to_string()));
}

#[test]
fn get_of_an_unknown_identifier_is_none() {
    let mut users = Users::new();
    users.insert(1, "alice".to_string()).unwrap();
    assert_eq!(users.get(2), None);
}

#[test]
fn snapshot_does_not_follow_later_changes() {
    let mut users = Users::new();
    users.insert(1, "alice".to_string()).unwrap();
    let copy = users.snapshot();
    users.insert(2, "bob".to_string()).unwrap();
    users.remove(1).unwrap();
    assert_eq!(copy.len(), 1);
    assert_eq!(copy.get(&1), Some(&"alice".to_string()));
    assert_eq!(copy.get(&2), None);
}

#[test]
fn all_ids_lists_each_identifier_once() {
    let mut users = Users::new();
    users.insert(30, "c".to_string()).unwrap();
    users.insert(10, "a".to_string()).unwrap();
    users.insert(20, "b".to_string()).unwrap();
    users.insert(20, "again".to_string()).unwrap_err();
    let mut ids = users.all_ids();
    ids.sort();
    assert_eq!(ids, vec![10, 20, 30]);
}

#[test]
fn clear_forgets_everyone() {
    let mut users = Users::new();
    users.insert(1, "alice".to_string()).unwrap();
    users.insert(2, "bob".to_string()).unwrap();
    users.clear();
    assert!(users.is_empty());
    assert!(users.all_ids().is_empty());
    assert_eq!(users.get(1), None);
}

#[test]
fn extreme_identifiers_are_ordinary_keys() {
    let mut users = Users::new();
    users.insert(0, "zero".to_string()).unwrap();
    users.insert(u64::MAX, "max".to_string()).unwrap();
    users.insert(5, String::new()).unwrap();
    assert_eq!(users.get(0), Some(&"zero".to_string()));
    assert_eq!(users.get(u64::MAX), Some(&"max".to_string()));
    assert_eq!(users.get(5), Some(&String::new()));
    assert_eq!(users.len(), 3);
}
