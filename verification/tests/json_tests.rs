use lockbox::json::{box_locked_event_json, invitation_event_json};
use lockbox::model::{BoxLockedEvent, InvitationEvent};

fn lock_event() -> BoxLockedEvent {
    BoxLockedEvent {
        event_type: "box_locked".to_string(),
        box_id: "box-1".to_string(),
        box_name: "Vault".to_string(),
        owner_name: Some("Ada".to_string()),
        guardian_ids: vec!["g1".to_string(), "g2".to_string()],
        timestamp: 1_700_000_000,
    }
}

#[test]
fn test_box_locked_event_json_exact() {
    let json = box_locked_event_json(&lock_event(), "2023-11-14T22:13:20+00:00");
    assert_eq!(
        json,
        "{\"event_type\":\"box_locked\",\"box_id\":\"box-1\",\"box_name\":\"Vault\",\
         \"owner_name\":\"Ada\",\"guardian_ids\":[\"g1\",\"g2\"],\
         \"timestamp\":\"2023-11-14T22:13:20+00:00\"}"
    );
}

#[test]
fn test_box_locked_event_json_null_owner_and_empty_ids() {
    let mut ev = lock_event();
    ev.owner_name = None;
    ev.guardian_ids = vec![];
    let json = box_locked_event_json(&ev, "t");
    assert!(json.contains("\"owner_name\":null"));
    assert!(json.contains("\"guardian_ids\":[]"));
}

#[test]
fn test_event_json_escapes_special_characters() {
    let mut ev = lock_event();
    ev.box_name = "A \"quoted\" name\\with\nnewline\tand\rcontrol\u{1}".to_string();
    let json = box_locked_event_json(&ev, "t");
    let parsed: serde_json::Value = serde_json::from_str(&json).expect("output must parse");
    assert_eq!(
        parsed["box_name"].as_str().unwrap(),
        "A \"quoted\" name\\with\nnewline\tand\rcontrol\u{1}"
    );
}

#[test]
fn test_event_json_round_trips_through_parser() {
    let json = box_locked_event_json(&lock_event(), "2023-11-14T22:13:20+00:00");
    let parsed: serde_json::Value = serde_json::from_str(&json).unwrap();
    assert_eq!(parsed["event_type"], "box_locked");
    assert_eq!(parsed["box_id"], "box-1");
    assert_eq!(parsed["guardian_ids"][0], "g1");
    assert_eq!(parsed["guardian_ids"][1], "g2");
    assert_eq!(parsed["timestamp"], "2023-11-14T22:13:20+00:00");
}

#[test]
fn test_invitation_event_json_exact() {
    let ev = InvitationEvent {
        event_type: "invitation_viewed".to_string(),
        invitation_id: "inv-1".to_string(),
        box_id: "box-1".to_string(),
        user_id: Some("u2".to_string()),
        invite_code: "ABCDEFGH".to_string(),
        invited_name: None,
        is_lead_guardian: true,
        timestamp: 1_700_000_000,
    };
    let json = invitation_event_json(&ev, "2023-11-14T22:13:20+00:00");
    assert_eq!(
        json,
        "{\"event_type\":\"invitation_viewed\",\"invitation_id\":\"inv-1\",\
         \"box_id\":\"box-1\",\"user_id\":\"u2\",\"invite_code\":\"ABCDEFGH\",\
         \"invited_name\":null,\"is_lead_guardian\":true,\
         \"timestamp\":\"2023-11-14T22:13:20+00:00\"}"
    );
    let parsed: serde_json::Value = serde_json::from_str(&json).unwrap();
    assert_eq!(parsed["is_lead_guardian"], true);
    assert!(parsed["invited_name"].is_null());
}
