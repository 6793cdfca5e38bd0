use lockbox::model::{BoxRecord, Guardian, GuardianStatus};
use lockbox::reminder::{determine_reminder_number, plan_box_reminders};

const NOW: i64 = 1_700_000_000;
const HOUR: i64 = 3600;

fn guardian(id: &str) -> Guardian {
    Guardian {
        id: id.to_string(),
        name: format!("Guardian {}", id),
        status: GuardianStatus::Accepted,
        lead_guardian: false,
        added_at: NOW,
        invitation_id: format!("inv-{}", id),
        encrypted_shard: Some("cipher".to_string()),
        shard_hash: None,
        shard_fetched_at: None,
        shard_accepted_at: None,
        lock_data_received_at: None,
    }
}

fn locked_box_at(locked_at: Option<i64>, guardians: Vec<Guardian>) -> BoxRecord {
    BoxRecord {
        id: "box-1".to_string(),
        name: "Vault".to_string(),
        description: "".to_string(),
        owner_id: "u1".to_string(),
        owner_name: Some("Owner".to_string()),
        is_locked: true,
        locked_at,
        created_at: NOW - 200 * HOUR,
        updated_at: NOW - 200 * HOUR,
        version: 3,
        unlock_instructions: None,
        unlock_request: None,
        documents: vec![],
        guardians,
        shard_threshold: Some(1),
        total_shards: None,
        shards_fetched: Some(0),
        shards_deleted_at: None,
    }
}

#[test]
fn test_determine_reminder_number() {
    // Too early
    assert_eq!(determine_reminder_number(0), 0);
    assert_eq!(determine_reminder_number(12), 0);
    assert_eq!(determine_reminder_number(23), 0);

    // Reminder 1 window (24-30 hours)
    assert_eq!(determine_reminder_number(24), 1);
    assert_eq!(determine_reminder_number(27), 1);
    assert_eq!(determine_reminder_number(29), 1);

    // Between reminder 1 and 2
    assert_eq!(determine_reminder_number(30), 0);
    assert_eq!(determine_reminder_number(48), 0);
    assert_eq!(determine_reminder_number(71), 0);

    // Reminder 2 window (72-78 hours)
    assert_eq!(determine_reminder_number(72), 2);
    assert_eq!(determine_reminder_number(75), 2);
    assert_eq!(determine_reminder_number(77), 2);

    // Between reminder 2 and 3
    assert_eq!(determine_reminder_number(78), 0);
    assert_eq!(determine_reminder_number(120), 0);
    assert_eq!(determine_reminder_number(167), 0);

    // Reminder 3 window (168-174 hours)
    assert_eq!(determine_reminder_number(168), 3);
    assert_eq!(determine_reminder_number(171), 3);
    assert_eq!(determine_reminder_number(173), 3);

    // After all reminders
    assert_eq!(determine_reminder_number(174), 0);
    assert_eq!(determine_reminder_number(200), 0);
}

#[test]
fn test_reminder_window_boundaries() {
    let hours = [0, 23, 24, 29, 30, 71, 72, 77, 78, 167, 168, 173, 174, 200];
    let expected = [0, 0, 1, 1, 0, 0, 2, 2, 0, 0, 3, 3, 0, 0];
    for (h, e) in hours.iter().zip(expected) {
        assert_eq!(determine_reminder_number(*h), e, "at {} hours", h);
    }
}

#[test]
fn test_sweep_emits_first_reminder() {
    let locked_at = NOW - 25 * HOUR;
    let mut accepted = guardian("g2");
    accepted.shard_accepted_at = Some(NOW - HOUR);
    let b = locked_box_at(
        Some(locked_at),
        vec![guardian("g1"), accepted, guardian("g3")],
    );
    let plan = plan_box_reminders(&b, NOW);
    let ids: Vec<&str> = plan.iter().map(|e| e.guardian_id.as_str()).collect();
    assert_eq!(ids, vec!["g1", "g3"]);
    assert!(plan.iter().all(|e| e.reminder_number == 1));
}

#[test]
fn test_sweep_uses_lock_data_received_at_when_set() {
    let locked_at = NOW - 200 * HOUR;
    let mut g = guardian("g1");
    g.lock_data_received_at = Some(NOW - 73 * HOUR);
    let b = locked_box_at(Some(locked_at), vec![g]);
    let plan = plan_box_reminders(&b, NOW);
    assert_eq!(plan.len(), 1);
    assert_eq!(plan[0].reminder_number, 2);
}

#[test]
fn test_sweep_skips_box_without_lock_timestamp() {
    let b = locked_box_at(None, vec![guardian("g1")]);
    let plan = plan_box_reminders(&b, NOW);
    assert!(plan.is_empty());
}

#[test]
fn test_sweep_outside_windows_is_quiet() {
    let b = locked_box_at(Some(NOW - 50 * HOUR), vec![guardian("g1"), guardian("g2")]);
    let plan = plan_box_reminders(&b, NOW);
    assert!(plan.is_empty());
}
