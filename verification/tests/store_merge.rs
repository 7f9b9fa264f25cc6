use botan_core::events::User;
use botan_core::store::PresenceStore;

fn snapshot(id: &[u8], name: &[u8], status: &[u8]) -> User {
    User {
        id: id.to_vec(),
        username: None,
        display_name: name.to_vec(),
        bio: b"".to_vec(),
        status: status.to_vec(),
        status_description: b"".to_vec(),
    }
}

#[test]
fn insert_then_lookup_returns_written_values() {
    let mut store = PresenceStore::new();
    let rec = store.upsert_user(&snapshot(b"usr_1", b"Ann", b"active"), 1000);
    assert_eq!(rec.id, b"usr_1".to_vec());
    assert_eq!(rec.display_name, b"Ann".to_vec());
    assert_eq!(rec.created_at, 1000);
    let found = store.find_user(b"usr_1").unwrap();
    assert_eq!(found.display_name, b"Ann".to_vec());
    assert_eq!(found.status, b"active".to_vec());
    assert_eq!(store.len(), 1);
}

#[test]
fn upsert_same_id_replaces_tracked_fields_and_keeps_one_row() {
    let mut store = PresenceStore::new();
    store.upsert_user(&snapshot(b"usr_1", b"Ann", b"active"), 1000);
    let mut second = snapshot(b"usr_1", b"Annie", b"busy");
    second.username = Some(b"annie".to_vec());
    second.bio = b"hello".to_vec();
    second.status_description = b"afk".to_vec();
    let rec = store.upsert_user(&second, 2000);
    assert_eq!(store.len(), 1);
    assert_eq!(rec.display_name, b"Annie".to_vec());
    let found = store.find_user(b"usr_1").unwrap();
    assert_eq!(found.display_name, b"Annie".to_vec());
    assert_eq!(found.username, Some(b"annie".to_vec()));
    assert_eq!(found.bio, b"hello".to_vec());
    assert_eq!(found.status, b"busy".to_vec());
    assert_eq!(found.status_description, b"afk".to_vec());
}

#[test]
fn conflict_path_leaves_other_columns_untouched() {
    let mut store = PresenceStore::new();
    store.upsert_user(&snapshot(b"usr_1", b"Ann", b"active"), 1000);
    store.upsert_user(&snapshot(b"usr_1", b"Annie", b"busy"), 2000);
    let found = store.find_user(b"usr_1").unwrap();
    assert_eq!(found.created_at, 1000);
    assert_eq!(found.updated_at, 1000);
}

#[test]
fn different_ids_keep_separate_rows() {
    let mut store = PresenceStore::new();
    store.upsert_user(&snapshot(b"usr_1", b"Ann", b"active"), 1);
    store.upsert_user(&snapshot(b"usr_2", b"Bob", b"offline"), 2);
    store.upsert_user(&snapshot(b"usr_1", b"Ann2", b"ask me"), 3);
    assert_eq!(store.len(), 2);
    assert_eq!(store.find_user(b"usr_2").unwrap().display_name, b"Bob".to_vec());
    assert_eq!(store.find_user(b"usr_1").unwrap().display_name, b"Ann2".to_vec());
    assert!(store.find_user(b"usr_3").is_none());
}
