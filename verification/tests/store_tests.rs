use lockbox::boxes::create_box;
use lockbox::errors::ErrorKind;
use lockbox::invitations::handle_invitation;
use lockbox::model::Invitation;
use lockbox::store::MemoryStore;

const NOW: i64 = 1_700_000_000;
const HOUR: i64 = 3600;

fn invitation(id: &str, code: &str) -> Invitation {
    Invitation {
        id: id.to_string(),
        invite_code: code.to_string(),
        invited_name: "Test User".to_string(),
        box_id: "box-123".to_string(),
        creator_id: "creator-id".to_string(),
        created_at: NOW,
        expires_at: NOW + 48 * HOUR,
        opened: false,
        linked_user_id: None,
        is_lead_guardian: false,
    }
}

#[test]
fn test_store_box_round_trip() {
    let mut store = MemoryStore::new();
    let b = create_box(
        "Vault".to_string(),
        "desc".to_string(),
        "u1".to_string(),
        None,
        NOW,
    );
    let id = b.id.clone();
    store.put_box(b);
    let read = store.get_box(&id).unwrap();
    assert_eq!(read.name, "Vault");
    assert_eq!(read.version, 0);

    let missing = store.get_box(&"nope".to_string()).unwrap_err();
    assert_eq!(missing.kind, ErrorKind::NotFound);

    store.delete_box(&id).unwrap();
    assert_eq!(store.get_box(&id).unwrap_err().kind, ErrorKind::NotFound);
}

#[test]
fn test_store_update_box_bumps_version() {
    let mut store = MemoryStore::new();
    let b = create_box(
        "Vault".to_string(),
        "desc".to_string(),
        "u1".to_string(),
        None,
        NOW,
    );
    let id = b.id.clone();
    store.put_box(b);

    let mut read = store.get_box(&id).unwrap();
    read.name = "Renamed".to_string();
    store.update_box(read).unwrap();

    let after = store.get_box(&id).unwrap();
    assert_eq!(after.name, "Renamed");
    assert_eq!(after.version, 1);
}

#[test]
fn test_store_update_box_detects_conflict() {
    let mut store = MemoryStore::new();
    let b = create_box(
        "Vault".to_string(),
        "desc".to_string(),
        "u1".to_string(),
        None,
        NOW,
    );
    let id = b.id.clone();
    store.put_box(b);

    let first_read = store.get_box(&id).unwrap();
    let second_read = store.get_box(&id).unwrap();

    let mut first_write = first_read;
    first_write.name = "First".to_string();
    store.update_box(first_write).unwrap();

    let mut second_write = second_read;
    second_write.name = "Second".to_string();
    let err = store.update_box(second_write).unwrap_err();
    assert_eq!(err.kind, ErrorKind::Conflict);

    let stored = store.get_box(&id).unwrap();
    assert_eq!(stored.name, "First");
}

#[test]
fn test_store_redemption_race_has_one_winner() {
    let mut store = MemoryStore::new();
    store.put_invitation(invitation("inv-1", "RACECODE"));

    // Two callers each read the unopened invitation before either commits.
    let read_one = store.get_invitation_by_code(&"RACECODE".to_string());
    let read_two = store.get_invitation_by_code(&"RACECODE".to_string());

    let (first, _) = handle_invitation(read_one, "user-one".to_string(), NOW).unwrap();
    let (second, _) = handle_invitation(read_two, "user-two".to_string(), NOW).unwrap();

    store.commit_redemption(first).unwrap();
    let err = store.commit_redemption(second).unwrap_err();
    assert_eq!(err.kind, ErrorKind::Forbidden);

    let stored = store.get_invitation(&"inv-1".to_string()).unwrap();
    assert!(stored.opened);
    assert_eq!(stored.linked_user_id, Some("user-one".to_string()));
}

#[test]
fn test_store_invitation_code_lookup() {
    let mut store = MemoryStore::new();
    store.put_invitation(invitation("inv-1", "AAAA1111"));
    store.put_invitation(invitation("inv-2", "BBBB2222"));

    let found = store.get_invitation_by_code(&"BBBB2222".to_string()).unwrap();
    assert_eq!(found.id, "inv-2");
    assert!(store.get_invitation_by_code(&"MISSING0".to_string()).is_none());

    let err = store
        .update_invitation(invitation("inv-9", "CCCC3333"))
        .unwrap_err();
    assert_eq!(err.kind, ErrorKind::NotFound);
}

#[test]
fn test_store_put_replaces_by_id() {
    let mut store = MemoryStore::new();
    store.put_invitation(invitation("inv-1", "AAAA1111"));
    let mut changed = invitation("inv-1", "ZZZZ9999");
    changed.invited_name = "Renamed".to_string();
    store.put_invitation(changed);

    assert_eq!(store.invitations.len(), 1);
    let stored = store.get_invitation(&"inv-1".to_string()).unwrap();
    assert_eq!(stored.invite_code, "ZZZZ9999");
    assert_eq!(stored.invited_name, "Renamed");
}
