//! The notification worker's decision: turn a consumed lock event and the
//! push tokens resolved for its guardians into the batch to send, or into
//! nothing.
//!
//! The rim parses the bus message, looks the tokens up, performs the send
//! and logs failures; per-record failures never stop a batch of records.

use vstd::prelude::*;

use crate::model::{BoxLockedEvent, PushToken};
use crate::push::{message_ok, shard_notification_messages, spec_shard_body, ExpoPushMessage};

verus! {

/// The owner name a notification displays: the recorded one, or a
/// placeholder when none was recorded.
pub open spec fn spec_display_owner(owner_name: Option<String>) -> Seq<char> {
    match owner_name {
        Some(n) => n@,
        None => "Someone"@,
    }
}

/// Plans the push batch for one lock event: nothing unless the event is
/// a lock event, names at least one guardian, and at least one of them
/// has a registered token; otherwise one shard notification per token.
pub fn plan_lock_notification(event: &BoxLockedEvent, tokens: &Vec<PushToken>) -> (r: Option<
    Vec<ExpoPushMessage>,
>)
    ensures
        event.event_type@ != "box_locked"@ || event.guardian_ids@.len() == 0 || tokens@.len() == 0
            ==> r is None,
        event.event_type@ == "box_locked"@ && event.guardian_ids@.len() > 0 && tokens@.len() > 0
            ==> match r {
            Some(msgs) => {
                &&& msgs@.len() == tokens@.len()
                &&& forall|i: int|
                    0 <= i < msgs@.len() ==> {
                        &&& message_ok(
                            #[trigger] msgs@[i],
                            tokens@[i],
                            "Action Required: Accept Key Shard"@,
                            spec_shard_body(
                                spec_display_owner(event.owner_name),
                                event.box_name@,
                            ),
                            msgs@[i].data,
                        )
                        &&& match msgs@[i].data {
                            Some(d) => {
                                &&& d.kind@ == "shard_received"@
                                &&& d.box_id@ == event.box_id@
                                &&& d.box_name@ == event.box_name@
                                &&& d.owner_name@ == spec_display_owner(event.owner_name)
                                &&& d.reminder_number is None
                            },
                            None => false,
                        }
                    }
            },
            None => false,
        },
{
    if !(event.event_type == String::from_str("box_locked")) {
        return None;
    }
    if event.guardian_ids.len() == 0 {
        return None;
    }
    if tokens.len() == 0 {
        return None;
    }
    let msgs = match &event.owner_name {
        Some(n) => shard_notification_messages(
            tokens,
            event.box_name.as_str(),
            n.as_str(),
            event.box_id.as_str(),
        ),
        None => shard_notification_messages(
            tokens,
            event.box_name.as_str(),
            "Someone",
            event.box_id.as_str(),
        ),
    };
    Some(msgs)
}

} // verus!
