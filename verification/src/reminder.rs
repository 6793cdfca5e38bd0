//! The reminder sweep: maps the time elapsed since a guardian received
//! its shard to a tiered reminder number, and plans one sweep over a
//! locked box.
//!
//! The sweep runs on a six-hour cadence, so each reminder fires only
//! within a six-hour window; a sweep missed across a whole window skips
//! that reminder rather than double-firing later.

use vstd::prelude::*;

use crate::model::{BoxRecord, Guardian};

verus! {

/// Hours after which the first reminder is due.
pub const REMINDER_1_HOURS: i64 = 24;

/// Hours after which the second reminder is due.
pub const REMINDER_2_HOURS: i64 = 72;

/// Hours after which the third reminder is due.
pub const REMINDER_3_HOURS: i64 = 168;

/// Hours of grace before any reminder fires.
pub const GRACE_PERIOD_HOURS: i64 = 1;

/// The reminder due after `hours` elapsed hours: each reminder only
/// within its six-hour window, zero in the grace period and between
/// windows.
pub open spec fn spec_reminder_number(hours: int) -> u32 {
    if hours < GRACE_PERIOD_HOURS {
        0
    } else if REMINDER_1_HOURS <= hours < REMINDER_1_HOURS + 6 {
        1
    } else if REMINDER_2_HOURS <= hours < REMINDER_2_HOURS + 6 {
        2
    } else if REMINDER_3_HOURS <= hours < REMINDER_3_HOURS + 6 {
        3
    } else {
        0
    }
}

/// Which reminder to send, given the hours elapsed since the shard was
/// handed to the guardian; zero when none is due.
pub fn determine_reminder_number(hours_since_shard: i64) -> (r: u32)
    ensures
        r == spec_reminder_number(hours_since_shard as int),
{
    if hours_since_shard < GRACE_PERIOD_HOURS {
        return 0;
    }
    if hours_since_shard >= REMINDER_1_HOURS && hours_since_shard < REMINDER_1_HOURS + 6 {
        return 1;
    }
    if hours_since_shard >= REMINDER_2_HOURS && hours_since_shard < REMINDER_2_HOURS + 6 {
        return 2;
    }
    if hours_since_shard >= REMINDER_3_HOURS && hours_since_shard < REMINDER_3_HOURS + 6 {
        return 3;
    }
    0
}

/// One planned reminder: which guardian, and which reminder number.
#[derive(Debug)]
pub struct ReminderEntry {
    pub guardian_id: String,
    pub reminder_number: u32,
}

/// The reminder due for one guardian of a box locked at `locked_at`:
/// none once the guardian has accepted; otherwise the elapsed time runs
/// from `lock_data_received_at` when set, else from `locked_at`.
pub open spec fn guardian_reminder(g: Guardian, locked_at: i64, now: i64) -> u32 {
    if g.shard_accepted_at is Some {
        0
    } else {
        let t0 = match g.lock_data_received_at {
            Some(t) => t,
            None => locked_at,
        };
        if now < t0 {
            0
        } else {
            spec_reminder_number((now - t0) / 3600)
        }
    }
}

/// The reminders due across a guardian list, in guardian order, zeroes
/// dropped.
pub open spec fn planned_reminders(gs: Seq<Guardian>, locked_at: i64, now: i64) -> Seq<
    ReminderEntry,
>
    decreases gs.len(),
{
    if gs.len() == 0 {
        Seq::empty()
    } else {
        let rest = planned_reminders(gs.drop_last(), locked_at, now);
        let n = guardian_reminder(gs.last(), locked_at, now);
        if n != 0 {
            rest.push(ReminderEntry { guardian_id: gs.last().id, reminder_number: n })
        } else {
            rest
        }
    }
}

/// All of a box's reminder-relevant timestamps are non-negative.
pub open spec fn reminder_times_ok(b: BoxRecord) -> bool {
    &&& match b.locked_at {
        Some(t) => 0 <= t,
        None => true,
    }
    &&& forall|i: int|
        0 <= i < b.guardians@.len() ==> match (#[trigger] b.guardians@[i]).lock_data_received_at {
            Some(t) => 0 <= t,
            None => true,
        }
}

/// Plans one reminder sweep over a locked box at time `now`: one entry
/// per guardian that has not accepted and stands in a reminder window.
/// A box without a lock timestamp yields no reminders. Read-only: the
/// record is not changed.
pub fn plan_box_reminders(b: &BoxRecord, now: i64) -> (r: Vec<ReminderEntry>)
    requires
        0 <= now,
        reminder_times_ok(*b),
    ensures
        match b.locked_at {
            Some(la) => r@ == planned_reminders(b.guardians@, la, now),
            None => r@.len() == 0,
        },
{
    let locked_at = match b.locked_at {
        Some(t) => t,
        None => {
            return Vec::new();
        },
    };
    let mut r: Vec<ReminderEntry> = Vec::new();
    let mut i: usize = 0;
    while i < b.guardians.len()
        invariant
            0 <= now,
            reminder_times_ok(*b),
            b.locked_at == Some(locked_at),
            i <= b.guardians.len(),
            r@ =~= planned_reminders(b.guardians@.take(i as int), locked_at, now),
        decreases b.guardians.len() - i,
    {
        proof {
            assert(b.guardians@.take(i + 1).drop_last() =~= b.guardians@.take(i as int));
            assert(b.guardians@.take(i + 1).last() == b.guardians@[i as int]);
        }
        let g = &b.guardians[i];
        if g.shard_accepted_at.is_none() {
            let t0 = match g.lock_data_received_at {
                Some(t) => t,
                None => locked_at,
            };
            if now >= t0 {
                let hours: i64 = (now - t0) / 3600;
                let n = determine_reminder_number(hours);
                if n != 0 {
                    r.push(ReminderEntry { guardian_id: g.id.clone(), reminder_number: n });
                }
            }
        }
        i = i + 1;
    }
    proof {
        assert(b.guardians@.take(b.guardians@.len() as int) =~= b.guardians@);
    }
    r
}

} // verus!
