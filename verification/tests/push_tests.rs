use lockbox::errors::{status_code, ErrorKind};
use lockbox::model::{BoxLockedEvent, GuardianStatus, PushToken, RegisterPushTokenRequest};
use lockbox::notify::plan_lock_notification;
use lockbox::push::{
    build_push_messages, count_non_ok_tickets, register_push_token, shard_notification_body,
    shard_notification_messages, shard_reminder_body, shard_reminder_messages, ExpoPushResponse,
    ExpoPushTicket,
};

const NOW: i64 = 1_700_000_000;

fn token(user: &str) -> PushToken {
    PushToken {
        user_id: user.to_string(),
        push_token: format!("ExponentPushToken[{}]", user),
        platform: "ios".to_string(),
        updated_at: NOW,
    }
}

fn lock_event(guardian_ids: &[&str]) -> BoxLockedEvent {
    BoxLockedEvent {
        event_type: "box_locked".to_string(),
        box_id: "box-1".to_string(),
        box_name: "Vault".to_string(),
        owner_name: Some("Ada".to_string()),
        guardian_ids: guardian_ids.iter().map(|s| s.to_string()).collect(),
        timestamp: NOW,
    }
}

#[test]
fn test_register_push_token() {
    let req = RegisterPushTokenRequest {
        push_token: "ExponentPushToken[abc123]".to_string(),
        platform: "ios".to_string(),
    };
    let t = register_push_token("u1".to_string(), req, NOW).unwrap();
    assert_eq!(t.user_id, "u1");
    assert_eq!(t.push_token, "ExponentPushToken[abc123]");
    assert_eq!(t.platform, "ios");
    assert_eq!(t.updated_at, NOW);

    let android = RegisterPushTokenRequest {
        push_token: "ExponentPushToken[xyz]".to_string(),
        platform: "android".to_string(),
    };
    assert!(register_push_token("u2".to_string(), android, NOW).is_ok());
}

#[test]
fn test_register_push_token_rejects_bad_platform() {
    let req = RegisterPushTokenRequest {
        push_token: "ExponentPushToken[abc123]".to_string(),
        platform: "web".to_string(),
    };
    let err = register_push_token("u1".to_string(), req, NOW).unwrap_err();
    assert_eq!(err.kind, ErrorKind::BadRequest);
}

#[test]
fn test_register_push_token_rejects_bad_prefix() {
    let req = RegisterPushTokenRequest {
        push_token: "NotAnExpoToken".to_string(),
        platform: "ios".to_string(),
    };
    let err = register_push_token("u1".to_string(), req, NOW).unwrap_err();
    assert_eq!(err.kind, ErrorKind::BadRequest);
}

#[test]
fn test_build_push_messages_fields() {
    let tokens = vec![token("u1"), token("u2")];
    let msgs = build_push_messages(&tokens, "Title", "Body", None);
    assert_eq!(msgs.len(), 2);
    for (m, t) in msgs.iter().zip(&tokens) {
        assert_eq!(m.to, t.push_token);
        assert_eq!(m.title, "Title");
        assert_eq!(m.body, "Body");
        assert!(m.data.is_none());
        assert_eq!(m.sound.as_deref(), Some("default"));
        assert_eq!(m.badge, Some(1));
        assert_eq!(m.content_available, Some(true));
    }
    let none = build_push_messages(&Vec::new(), "Title", "Body", None);
    assert!(none.is_empty());
}

#[test]
fn test_shard_notification_wording() {
    let body = shard_notification_body("Ada", "Vault");
    assert_eq!(
        body,
        "Ada has entrusted you with a key shard for \"Vault\". Tap to accept and secure it."
    );
}

#[test]
fn test_reminder_wording_tiers() {
    assert_eq!(
        shard_reminder_body("Ada", "Vault", 1),
        "You still need to accept the key shard from Ada for \"Vault\". Tap to secure it now."
    );
    assert_eq!(
        shard_reminder_body("Ada", "Vault", 2),
        "Important: Ada is counting on you. Please accept the key shard for \"Vault\"."
    );
    assert_eq!(
        shard_reminder_body("Ada", "Vault", 3),
        "Final reminder: Accept the key shard from Ada for \"Vault\" to complete your guardian setup."
    );
    assert_eq!(shard_reminder_body("Ada", "Vault", 7), shard_reminder_body("Ada", "Vault", 3));
}

#[test]
fn test_shard_notification_messages_payload() {
    let tokens = vec![token("u1")];
    let msgs = shard_notification_messages(&tokens, "Vault", "Ada", "box-1");
    assert_eq!(msgs.len(), 1);
    assert_eq!(msgs[0].title, "Action Required: Accept Key Shard");
    let data = msgs[0].data.as_ref().unwrap();
    assert_eq!(data.kind, "shard_received");
    assert_eq!(data.box_id, "box-1");
    assert_eq!(data.box_name, "Vault");
    assert_eq!(data.owner_name, "Ada");
    assert!(data.reminder_number.is_none());
}

#[test]
fn test_shard_reminder_messages_payload() {
    let tokens = vec![token("u1")];
    let msgs = shard_reminder_messages(&tokens, "Vault", "Ada", "box-1", 2);
    assert_eq!(msgs.len(), 1);
    assert_eq!(msgs[0].title, "Reminder: Accept Your Key Shard");
    let data = msgs[0].data.as_ref().unwrap();
    assert_eq!(data.kind, "shard_reminder");
    assert_eq!(data.reminder_number, Some(2));
}

#[test]
fn test_plan_lock_notification_cases() {
    let tokens = vec![token("g1")];

    let mut wrong_kind = lock_event(&["g1"]);
    wrong_kind.event_type = "box_unlocked".to_string();
    assert!(plan_lock_notification(&wrong_kind, &tokens).is_none());

    let no_guardians = lock_event(&[]);
    assert!(plan_lock_notification(&no_guardians, &tokens).is_none());

    let ok_event = lock_event(&["g1"]);
    assert!(plan_lock_notification(&ok_event, &Vec::new()).is_none());

    let msgs = plan_lock_notification(&ok_event, &tokens).unwrap();
    assert_eq!(msgs.len(), 1);
    assert_eq!(msgs[0].to, "ExponentPushToken[g1]");
    assert!(msgs[0].body.contains("Ada"));

    let mut anonymous = lock_event(&["g1"]);
    anonymous.owner_name = None;
    let msgs = plan_lock_notification(&anonymous, &tokens).unwrap();
    assert!(msgs[0].body.starts_with("Someone has entrusted you"));
}

#[test]
fn test_count_non_ok_tickets() {
    let resp = ExpoPushResponse {
        data: vec![
            ExpoPushTicket {
                status: "ok".to_string(),
                id: Some("t1".to_string()),
                message: None,
            },
            ExpoPushTicket {
                status: "error".to_string(),
                id: None,
                message: Some("DeviceNotRegistered".to_string()),
            },
            ExpoPushTicket {
                status: "ok".to_string(),
                id: Some("t3".to_string()),
                message: None,
            },
        ],
    };
    assert_eq!(count_non_ok_tickets(&resp), 1);
}

#[test]
fn test_status_codes() {
    assert_eq!(status_code(ErrorKind::BadRequest), 400);
    assert_eq!(status_code(ErrorKind::Unauthorized), 401);
    assert_eq!(status_code(ErrorKind::Forbidden), 403);
    assert_eq!(status_code(ErrorKind::NotFound), 404);
    assert_eq!(status_code(ErrorKind::Conflict), 409);
    assert_eq!(status_code(ErrorKind::Gone), 410);
    assert_eq!(status_code(ErrorKind::Internal), 500);
}

#[test]
fn test_guardian_status_labels() {
    assert_eq!(GuardianStatus::Invited.label(), "invited");
    assert_eq!(GuardianStatus::Accepted.label(), "accepted");
    assert_eq!(GuardianStatus::Declined.label(), "declined");
    assert_eq!(GuardianStatus::Rejected.label(), "rejected");
}
