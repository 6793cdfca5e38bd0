//! Push notifications: message batches for the push gateway, the wording
//! of the shard and reminder notifications, ticket triage, and push-token
//! registration.

use vstd::prelude::*;

use crate::errors::{Error, ErrorKind};
use crate::model::{PushToken, RegisterPushTokenRequest};
use crate::text::{starts_with_bytes, str_starts_with};

verus! {

use vstd::string::StringSliceAdditionalSpecFns;
use vstd::utf8::encode_utf8;

/// The structured payload attached to a push notification; the rim
/// serialises it for the wire.
#[derive(Debug)]
pub struct PushData {
    pub kind: String,
    pub box_id: String,
    pub box_name: String,
    pub owner_name: String,
    pub reminder_number: Option<u32>,
}

impl Clone for PushData {
    fn clone(&self) -> (r: Self)
        ensures
            r == *self,
    {
        PushData {
            kind: self.kind.clone(),
            box_id: self.box_id.clone(),
            box_name: self.box_name.clone(),
            owner_name: self.owner_name.clone(),
            reminder_number: self.reminder_number,
        }
    }
}

/// Clones an optional payload, preserving the value exactly.
fn clone_opt_data(o: &Option<PushData>) -> (r: Option<PushData>)
    ensures
        r == *o,
{
    match o {
        Some(d) => Some(d.clone()),
        None => None,
    }
}

/// One message for the push gateway: the opaque recipient token, the
/// wording, and the delivery options the service always sets.
#[derive(Debug)]
pub struct ExpoPushMessage {
    pub to: String,
    pub title: String,
    pub body: String,
    pub data: Option<PushData>,
    pub sound: Option<String>,
    pub badge: Option<u32>,
    pub content_available: Option<bool>,
}

/// One per-recipient ticket of the push gateway's answer.
#[derive(Debug)]
pub struct ExpoPushTicket {
    pub status: String,
    pub id: Option<String>,
    pub message: Option<String>,
}

/// The push gateway's answer: one ticket per message sent.
#[derive(Debug)]
pub struct ExpoPushResponse {
    pub data: Vec<ExpoPushTicket>,
}

/// What every message of a batch promises: the recipient's token, the
/// common wording and payload, default sound, badge one, and background
/// delivery enabled.
pub open spec fn message_ok(
    m: ExpoPushMessage,
    token: PushToken,
    title: Seq<char>,
    body: Seq<char>,
    data: Option<PushData>,
) -> bool {
    &&& m.to == token.push_token
    &&& m.title@ == title
    &&& m.body@ == body
    &&& m.data == data
    &&& match m.sound {
        Some(s) => s@ == "default"@,
        None => false,
    }
    &&& m.badge == Some(1u32)
    &&& m.content_available == Some(true)
}

/// Builds one batch of messages, one per recipient token, all with the
/// same wording and payload. An empty token list gives an empty batch.
pub fn build_push_messages(
    tokens: &Vec<PushToken>,
    title: &str,
    body: &str,
    data: Option<PushData>,
) -> (r: Vec<ExpoPushMessage>)
    ensures
        r@.len() == tokens@.len(),
        forall|i: int|
            0 <= i < r@.len() ==> message_ok(#[trigger] r@[i], tokens@[i], title@, body@, data),
{
    let mut r: Vec<ExpoPushMessage> = Vec::new();
    let mut i: usize = 0;
    while i < tokens.len()
        invariant
            i <= tokens.len(),
            r@.len() == i,
            forall|k: int|
                0 <= k < i ==> message_ok(#[trigger] r@[k], tokens@[k], title@, body@, data),
        decreases tokens.len() - i,
    {
        r.push(
            ExpoPushMessage {
                to: tokens[i].push_token.clone(),
                title: title.to_owned(),
                body: body.to_owned(),
                data: clone_opt_data(&data),
                sound: Some(String::from_str("default")),
                badge: Some(1),
                content_available: Some(true),
            },
        );
        i = i + 1;
    }
    r
}

/// The wording of the initial shard notification.
pub open spec fn spec_shard_body(owner_name: Seq<char>, box_name: Seq<char>) -> Seq<char> {
    owner_name + " has entrusted you with a key shard for \""@ + box_name
        + "\". Tap to accept and secure it."@
}

/// Builds the body of the initial shard notification.
pub fn shard_notification_body(owner_name: &str, box_name: &str) -> (r: String)
    ensures
        r@ == spec_shard_body(owner_name@, box_name@),
{
    let mut s = owner_name.to_owned();
    s.append(" has entrusted you with a key shard for \"");
    s.append(box_name);
    s.append("\". Tap to accept and secure it.");
    s
}

/// The wording of a reminder, tiered by reminder number: one, two, and
/// three or more each read differently.
pub open spec fn spec_reminder_body(
    owner_name: Seq<char>,
    box_name: Seq<char>,
    reminder_number: u32,
) -> Seq<char> {
    if reminder_number == 1 {
        "You still need to accept the key shard from "@ + owner_name + " for \""@ + box_name
            + "\". Tap to secure it now."@
    } else if reminder_number == 2 {
        "Important: "@ + owner_name + " is counting on you. Please accept the key shard for \""@
            + box_name + "\"."@
    } else {
        "Final reminder: Accept the key shard from "@ + owner_name + " for \""@ + box_name
            + "\" to complete your guardian setup."@
    }
}

/// Builds the body of a reminder notification.
pub fn shard_reminder_body(owner_name: &str, box_name: &str, reminder_number: u32) -> (r: String)
    ensures
        r@ == spec_reminder_body(owner_name@, box_name@, reminder_number),
{
    if reminder_number == 1 {
        let mut s = String::from_str("You still need to accept the key shard from ");
        s.append(owner_name);
        s.append(" for \"");
        s.append(box_name);
        s.append("\". Tap to secure it now.");
        s
    } else if reminder_number == 2 {
        let mut s = String::from_str("Important: ");
        s.append(owner_name);
        s.append(" is counting on you. Please accept the key shard for \"");
        s.append(box_name);
        s.append("\".");
        s
    } else {
        let mut s = String::from_str("Final reminder: Accept the key shard from ");
        s.append(owner_name);
        s.append(" for \"");
        s.append(box_name);
        s.append("\" to complete your guardian setup.");
        s
    }
}

/// Builds the batch for the initial shard notification: fixed title, the
/// shard wording, and a payload naming the box.
pub fn shard_notification_messages(
    tokens: &Vec<PushToken>,
    box_name: &str,
    owner_name: &str,
    box_id: &str,
) -> (r: Vec<ExpoPushMessage>)
    ensures
        r@.len() == tokens@.len(),
        forall|i: int|
            0 <= i < r@.len() ==> {
                &&& message_ok(
                    #[trigger] r@[i],
                    tokens@[i],
                    "Action Required: Accept Key Shard"@,
                    spec_shard_body(owner_name@, box_name@),
                    r@[i].data,
                )
                &&& match r@[i].data {
                    Some(d) => {
                        &&& d.kind@ == "shard_received"@
                        &&& d.box_id@ == box_id@
                        &&& d.box_name@ == box_name@
                        &&& d.owner_name@ == owner_name@
                        &&& d.reminder_number is None
                    },
                    None => false,
                }
            },
{
    let body = shard_notification_body(owner_name, box_name);
    let data = PushData {
        kind: String::from_str("shard_received"),
        box_id: box_id.to_owned(),
        box_name: box_name.to_owned(),
        owner_name: owner_name.to_owned(),
        reminder_number: None,
    };
    build_push_messages(tokens, "Action Required: Accept Key Shard", body.as_str(), Some(data))
}

/// Builds the batch for a reminder notification: fixed title, the tiered
/// wording, and a payload naming the box and the reminder number.
pub fn shard_reminder_messages(
    tokens: &Vec<PushToken>,
    box_name: &str,
    owner_name: &str,
    box_id: &str,
    reminder_number: u32,
) -> (r: Vec<ExpoPushMessage>)
    ensures
        r@.len() == tokens@.len(),
        forall|i: int|
            0 <= i < r@.len() ==> {
                &&& message_ok(
                    #[trigger] r@[i],
                    tokens@[i],
                    "Reminder: Accept Your Key Shard"@,
                    spec_reminder_body(owner_name@, box_name@, reminder_number),
                    r@[i].data,
                )
                &&& match r@[i].data {
                    Some(d) => {
                        &&& d.kind@ == "shard_reminder"@
                        &&& d.box_id@ == box_id@
                        &&& d.box_name@ == box_name@
                        &&& d.owner_name@ == owner_name@
                        &&& d.reminder_number == Some(reminder_number)
                    },
                    None => false,
                }
            },
{
    let body = shard_reminder_body(owner_name, box_name, reminder_number);
    let data = PushData {
        kind: String::from_str("shard_reminder"),
        box_id: box_id.to_owned(),
        box_name: box_name.to_owned(),
        owner_name: owner_name.to_owned(),
        reminder_number: Some(reminder_number),
    };
    build_push_messages(tokens, "Reminder: Accept Your Key Shard", body.as_str(), Some(data))
}

/// How many tickets of a batch do not report "ok".
pub open spec fn spec_non_ok_tickets(ts: Seq<ExpoPushTicket>) -> int
    decreases ts.len(),
{
    if ts.len() == 0 {
        0
    } else {
        spec_non_ok_tickets(ts.drop_last()) + if ts.last().status@ == "ok"@ {
            0int
        } else {
            1int
        }
    }
}

/// Counts the tickets whose status is not "ok"; such tickets are logged
/// by the rim but never fail the batch.
pub fn count_non_ok_tickets(resp: &ExpoPushResponse) -> (r: usize)
    ensures
        r == spec_non_ok_tickets(resp.data@),
{
    let mut c: usize = 0;
    let mut i: usize = 0;
    let ok = String::from_str("ok");
    while i < resp.data.len()
        invariant
            i <= resp.data.len(),
            c <= i,
            ok@ == "ok"@,
            c == spec_non_ok_tickets(resp.data@.take(i as int)),
        decreases resp.data.len() - i,
    {
        proof {
            assert(resp.data@.take(i + 1).drop_last() =~= resp.data@.take(i as int));
            assert(resp.data@.take(i + 1).last() == resp.data@[i as int]);
        }
        if !(resp.data[i].status == ok) {
            c = c + 1;
        }
        i = i + 1;
    }
    proof {
        assert(resp.data@.take(resp.data@.len() as int) =~= resp.data@);
    }
    c
}

/// The literal prefix every registered push token must carry.
pub open spec fn spec_token_prefix() -> Seq<char> {
    "ExponentPushToken["@
}

/// A registrable request: a known platform and a token bearing the push
/// gateway's prefix.
pub open spec fn register_ok(req: RegisterPushTokenRequest) -> bool {
    &&& (req.platform@ == "ios"@ || req.platform@ == "android"@)
    &&& starts_with_bytes(encode_utf8(req.push_token@), encode_utf8(spec_token_prefix()))
}

/// Validates and records a push registration: the platform must be `ios`
/// or `android` and the token must carry the push gateway's prefix; both
/// are checked before anything is written.
pub fn register_push_token(user_id: String, req: RegisterPushTokenRequest, now: i64) -> (r: Result<
    PushToken,
    Error,
>)
    ensures
        !register_ok(req) ==> (r matches Err(e) && e.kind == ErrorKind::BadRequest),
        register_ok(req) ==> (r matches Ok(t) && t.user_id == user_id && t.push_token
            == req.push_token && t.platform == req.platform && t.updated_at == now),
{
    let ios = String::from_str("ios");
    let android = String::from_str("android");
    if !(req.platform == ios) && !(req.platform == android) {
        return Err(
            Error::new(
                ErrorKind::BadRequest,
                String::from_str("Invalid platform. Must be 'ios' or 'android'"),
            ),
        );
    }
    if !str_starts_with(req.push_token.as_str(), "ExponentPushToken[") {
        return Err(
            Error::new(
                ErrorKind::BadRequest,
                String::from_str("Invalid push token format. Expected Expo push token."),
            ),
        );
    }
    Ok(
        PushToken {
            user_id,
            push_token: req.push_token,
            platform: req.platform,
            updated_at: now,
        },
    )
}

} // verus!
