use lockbox::errors::ErrorKind;
use lockbox::invitations::{
    create_invitation, generate_invite_code, handle_invitation, invitations_by_creator,
    refresh_invitation, view_invitation,
};
use lockbox::model::{CreateInvitationRequest, Invitation};

const NOW: i64 = 1_700_000_000;
const HOUR: i64 = 3600;

fn seed_invitation(code: &str, creator: &str, created_at: i64, expires_at: i64) -> Invitation {
    Invitation {
        id: "5f2c7c2e-0000-4000-8000-000000000001".to_string(),
        invite_code: code.to_string(),
        invited_name: "Test User".to_string(),
        box_id: "box-123".to_string(),
        creator_id: creator.to_string(),
        created_at,
        expires_at,
        opened: false,
        linked_user_id: None,
        is_lead_guardian: false,
    }
}

#[test]
fn test_create_invitation() {
    let req = CreateInvitationRequest {
        invited_name: "Test User".to_string(),
        box_id: "box-123".to_string(),
        is_lead_guardian: false,
    };
    let (inv, ev) = create_invitation("test-user-id".to_string(), req, NOW);
    assert_eq!(inv.invite_code.len(), 8);
    assert!(inv.invite_code.chars().all(|c| c.is_ascii_uppercase()));
    assert_eq!(inv.invited_name, "Test User");
    assert_eq!(inv.box_id, "box-123");
    assert_eq!(inv.creator_id, "test-user-id");
    assert!(!inv.opened);
    assert!(inv.linked_user_id.is_none());
    assert_eq!(inv.created_at, NOW);
    assert_eq!(inv.expires_at, NOW + 48 * HOUR);
    assert_eq!(ev.event_type, "invitation_created");
    assert_eq!(ev.invitation_id, inv.id);
    assert_eq!(ev.box_id, "box-123");
    assert_eq!(ev.invite_code, inv.invite_code);
    assert_eq!(ev.timestamp, NOW);
}

#[test]
fn test_handle_invitation() {
    let inv = seed_invitation("TESTCODE", "creator-id", NOW, NOW + 2 * HOUR);
    let (updated, ev) = handle_invitation(Some(inv), "user-456".to_string(), NOW).unwrap();
    assert!(updated.opened);
    assert_eq!(updated.linked_user_id, Some("user-456".to_string()));
    assert_eq!(updated.box_id, "box-123");
    assert_eq!(ev.event_type, "invitation_viewed");
    assert_eq!(ev.box_id, "box-123");
    assert_eq!(ev.user_id, Some("user-456".to_string()));
    assert_eq!(ev.invite_code, "TESTCODE");
}

#[test]
fn test_handle_invitation_expired_code() {
    let inv = seed_invitation("EXPIRED", "creator-id", NOW - 2 * HOUR, NOW - HOUR);
    let err = handle_invitation(Some(inv), "user-456".to_string(), NOW).unwrap_err();
    assert_eq!(err.kind, ErrorKind::Gone);
}

#[test]
fn test_handle_invitation_invalid_code() {
    let err = handle_invitation(None, "user-456".to_string(), NOW).unwrap_err();
    assert_eq!(err.kind, ErrorKind::NotFound);
}

#[test]
fn test_refresh_invitation() {
    let inv = seed_invitation("OLDCODE1", "test-user-id", NOW - 5 * HOUR, NOW + HOUR);
    let refreshed = refresh_invitation(inv, &"test-user-id".to_string(), NOW).unwrap();
    assert_ne!(refreshed.invite_code, "OLDCODE1");
    assert_eq!(refreshed.invite_code.len(), 8);
    assert_eq!(refreshed.expires_at, NOW + 48 * HOUR);
    assert_eq!(refreshed.box_id, "box-123");
    assert_eq!(refreshed.invited_name, "Test User");
    assert_eq!(refreshed.creator_id, "test-user-id");
    assert!(!refreshed.opened);
    assert!(refreshed.linked_user_id.is_none());
}

#[test]
fn test_refresh_invitation_invalid_id() {
    let inv = seed_invitation("CODE1234", "owner-id", NOW, NOW + 2 * HOUR);
    let err = refresh_invitation(inv, &"other-user-id".to_string(), NOW).unwrap_err();
    assert_eq!(err.kind, ErrorKind::Forbidden);
}

#[test]
fn test_refresh_opened_invitation_fails() {
    let mut inv = seed_invitation("USEDCODE", "creator-id", NOW, NOW + 2 * HOUR);
    inv.opened = true;
    inv.linked_user_id = Some("someone".to_string());
    let err = refresh_invitation(inv, &"creator-id".to_string(), NOW).unwrap_err();
    assert_eq!(err.kind, ErrorKind::BadRequest);
}

#[test]
fn test_get_my_invitations() {
    let invs = vec![
        seed_invitation("CODEAAAA", "test-user-id", NOW, NOW + 48 * HOUR),
        seed_invitation("CODEBBBB", "test-user-id", NOW, NOW + 48 * HOUR),
        seed_invitation("CODECCCC", "other-user-id", NOW, NOW + 48 * HOUR),
    ];
    let mine = invitations_by_creator(&invs, &"test-user-id".to_string());
    assert_eq!(mine.len(), 2);
    for inv in &mine {
        assert_eq!(inv.creator_id, "test-user-id");
    }
}

#[test]
fn test_get_my_invitations_empty() {
    let invs: Vec<Invitation> = Vec::new();
    let mine = invitations_by_creator(&invs, &"test-user-id".to_string());
    assert!(mine.is_empty());
}

#[test]
fn test_view_invitation_by_code_success() {
    let inv = seed_invitation("VIEWCODE", "creator-view-id", NOW, NOW + 48 * HOUR);
    let viewed = view_invitation(Some(inv), NOW).unwrap();
    assert_eq!(viewed.invite_code, "VIEWCODE");
    assert_eq!(viewed.creator_id, "creator-view-id");
    assert!(!viewed.opened);
    assert!(viewed.linked_user_id.is_none());
}

#[test]
fn test_view_invitation_by_code_not_found() {
    let err = view_invitation(None, NOW).unwrap_err();
    assert_eq!(err.kind, ErrorKind::NotFound);
}

#[test]
fn test_view_invitation_by_code_expired() {
    let inv = seed_invitation("EXPIRED2", "creator-expired-id", NOW - 50 * HOUR, NOW - 2 * HOUR);
    let err = view_invitation(Some(inv), NOW).unwrap_err();
    assert_eq!(err.kind, ErrorKind::Gone);
}

#[test]
fn test_view_invitation_does_not_consume_code() {
    let inv = seed_invitation("NOCONSUM", "creator-noconsum-id", NOW, NOW + 48 * HOUR);
    let viewed = view_invitation(Some(inv.clone()), NOW).unwrap();
    assert!(!viewed.opened);
    assert!(viewed.linked_user_id.is_none());
    assert_eq!(viewed.expires_at, inv.expires_at);
    let viewed_again = view_invitation(Some(viewed), NOW).unwrap();
    assert!(!viewed_again.opened);
    assert!(viewed_again.linked_user_id.is_none());
}

#[test]
fn test_concurrent_code_redemption_second_fails() {
    let inv = seed_invitation("CONCUR01", "creator-concurrent-id", NOW, NOW + 48 * HOUR);
    let (after_first, _) = handle_invitation(Some(inv), "user-first".to_string(), NOW).unwrap();
    assert_eq!(after_first.linked_user_id, Some("user-first".to_string()));
    let err =
        handle_invitation(Some(after_first.clone()), "user-second".to_string(), NOW).unwrap_err();
    assert_eq!(err.kind, ErrorKind::Forbidden);
    assert!(after_first.opened);
    assert_eq!(after_first.linked_user_id, Some("user-first".to_string()));
}

#[test]
fn test_invitation_expires_at_exact_48_hour_mark() {
    let inv = seed_invitation("EXACT48H", "creator-48h", NOW - 48 * HOUR, NOW);
    let err = handle_invitation(Some(inv), "user-exact".to_string(), NOW).unwrap_err();
    assert_eq!(err.kind, ErrorKind::Gone);
}

#[test]
fn test_invitation_just_before_expiry() {
    let inv = seed_invitation("JUSTBEFR", "creator-before", NOW, NOW + 60);
    let result = handle_invitation(Some(inv), "user-before".to_string(), NOW);
    assert!(result.is_ok());
}

#[test]
fn test_refresh_resets_expiry_correctly() {
    let inv = seed_invitation("RESETEXP", "creator-reset", NOW - 47 * HOUR, NOW + HOUR);
    let refreshed = refresh_invitation(inv, &"creator-reset".to_string(), NOW).unwrap();
    assert_eq!(refreshed.expires_at, NOW + 48 * HOUR);
    assert_eq!(refreshed.created_at, NOW - 47 * HOUR);
}

#[test]
fn test_expiry_persists_across_view_operations() {
    let expires = NOW + 24 * HOUR;
    let inv = seed_invitation("VIEWPERS", "creator-persist", NOW, expires);
    let viewed = view_invitation(Some(inv), NOW).unwrap();
    assert_eq!(viewed.expires_at, expires);
}

#[test]
fn test_code_uniqueness_small_batch() {
    let mut codes = std::collections::HashSet::new();
    for _ in 0..100 {
        let code = generate_invite_code();
        assert_eq!(code.len(), 8);
        assert!(code.chars().all(|c| c.is_ascii_uppercase()));
        assert!(codes.insert(code.clone()), "Found duplicate code: {}", code);
    }
    assert_eq!(codes.len(), 100);
}

#[test]
fn test_code_uniqueness_medium_batch() {
    let mut codes = std::collections::HashSet::new();
    for i in 0..1000 {
        let code = generate_invite_code();
        if !codes.insert(code.clone()) {
            panic!("Found duplicate code at iteration {}: {}", i, code);
        }
    }
    assert_eq!(codes.len(), 1000);
}

#[test]
fn test_code_alphabet_distribution() {
    let mut char_counts: std::collections::HashMap<char, usize> = std::collections::HashMap::new();
    for _ in 0..200 {
        let code = generate_invite_code();
        for ch in code.chars() {
            *char_counts.entry(ch).or_insert(0) += 1;
        }
    }
    let letters_used = char_counts.len();
    assert!(
        letters_used >= 20,
        "Expected at least 20 different letters, got {}",
        letters_used
    );
}

#[test]
fn test_invitation_window_is_48_hours_after_create_and_refresh() {
    let req = CreateInvitationRequest {
        invited_name: "Friend".to_string(),
        box_id: "box-9".to_string(),
        is_lead_guardian: true,
    };
    let (inv, _) = create_invitation("u1".to_string(), req, NOW);
    assert_eq!(inv.expires_at - inv.created_at, 48 * HOUR);
    let later = NOW + 40 * HOUR;
    let refreshed = refresh_invitation(inv, &"u1".to_string(), later).unwrap();
    assert_eq!(refreshed.expires_at, later + 48 * HOUR);
}

#[test]
fn test_code_collision_probability_calculation() {
    // 26^8 possible codes.
    let alphabet_size = 26u64;
    let code_length = 8u64;
    let total_combinations = alphabet_size.pow(code_length as u32);
    assert_eq!(total_combinations, 208_827_064_576);

    // At an expected population of 150,000 active invitations the
    // birthday-bound collision probability stays below ten percent.
    let expected_invitations = 150_000u64;
    let collision_probability =
        (expected_invitations as f64).powi(2) / (2.0 * total_combinations as f64);
    assert!(collision_probability < 0.1);
}
