//! Invitation lifecycle: code generation, creation, read-only viewing,
//! single-use redemption, refresh, and listing by creator.

use vstd::prelude::*;

use crate::errors::{Error, ErrorKind};
use crate::ids::{fresh_uuid_bytes, fresh_uuid_string};
use crate::model::{invitation_wf, CreateInvitationRequest, Invitation, InvitationEvent};
use crate::text::push_char;

verus! {

/// A well-formed invite code: exactly eight letters drawn from A-Z.
pub open spec fn code_wf(s: Seq<char>) -> bool {
    s.len() == 8 && forall|i: int| 0 <= i < s.len() ==> 65 <= (#[trigger] s[i]) as int <= 90
}

/// Maps a byte below 234 to one of the 26 capital letters; bytes below
/// that bound keep the letters uniformly distributed.
fn code_letter(b: u8) -> (c: char)
    ensures
        65 <= c as int <= 90,
{
    let v: u8 = 65 + b % 26;
    v as char
}

/// Draws a fresh invite code: eight uniform random letters A-Z, taken
/// from the identifier entropy source by rejection sampling. The bytes
/// carrying the identifier's fixed version and variant nibbles are
/// skipped, as is any byte at or above the largest multiple of 26 below
/// 256. A bounded number of draws covers the eight letters beyond any
/// realistic doubt; the tail loop keeps the function total by accepting
/// one slightly biased letter per further draw.
pub fn generate_invite_code() -> (r: String)
    ensures
        code_wf(r@),
{
    let mut code = String::new();
    let mut count: usize = 0;
    let mut rounds: usize = 0;
    while count < 8 && rounds < 32
        invariant
            count <= 8,
            code@.len() == count,
            forall|i: int| 0 <= i < count ==> 65 <= (#[trigger] code@[i]) as int <= 90,
        decreases 32 - rounds,
    {
        let bytes = fresh_uuid_bytes();
        let mut i: usize = 0;
        while i < 16 && count < 8
            invariant
                bytes@.len() == 16,
                i <= 16,
                count <= 8,
                code@.len() == count,
                forall|k: int| 0 <= k < count ==> 65 <= (#[trigger] code@[k]) as int <= 90,
            decreases 16 - i,
        {
            let bv = bytes[i];
            if i != 6 && i != 8 && bv < 234 {
                push_char(&mut code, code_letter(bv));
                count = count + 1;
            }
            i = i + 1;
        }
        rounds = rounds + 1;
    }
    while count < 8
        invariant
            count <= 8,
            code@.len() == count,
            forall|i: int| 0 <= i < count ==> 65 <= (#[trigger] code@[i]) as int <= 90,
        decreases 8 - count,
    {
        let bytes = fresh_uuid_bytes();
        push_char(&mut code, code_letter(bytes[0]));
        count = count + 1;
    }
    code
}

/// The invitation once `caller` has redeemed it: marked opened and linked
/// to the caller, everything else untouched.
pub open spec fn redeemed_invitation(inv: Invitation, caller: String) -> Invitation {
    Invitation { opened: true, linked_user_id: Some(caller), ..inv }
}

/// The outcome of redeeming `inv` as `caller` at time `now`: expiry is
/// checked first, then single use.
pub open spec fn handle_outcome(inv: Invitation, caller: String, now: i64) -> Result<
    Invitation,
    ErrorKind,
> {
    if inv.expires_at <= now {
        Err(ErrorKind::Gone)
    } else if inv.opened {
        Err(ErrorKind::Forbidden)
    } else {
        Ok(redeemed_invitation(inv, caller))
    }
}

/// Redeems an invite code: the single-use, terminal transition. The
/// looked-up invitation (or its absence) is handed in; on success the
/// updated invitation is returned beside the event to publish. The store
/// write behind this must be conditional on `opened` still being false,
/// so that of two racing redemptions exactly one commits.
pub fn handle_invitation(found: Option<Invitation>, caller_id: String, now: i64) -> (r: Result<
    (Invitation, InvitationEvent),
    Error,
>)
    ensures
        found is None ==> (r matches Err(e) && e.kind == ErrorKind::NotFound),
        match found {
            Some(inv) => match handle_outcome(inv, caller_id, now) {
                Ok(ni) => r matches Ok((out, ev)) && out == ni && invitation_wf(out)
                    && ev.event_type@ == "invitation_viewed"@ && ev.invitation_id == inv.id
                    && ev.box_id == inv.box_id && ev.user_id == Some(caller_id) && ev.invite_code
                    == inv.invite_code && ev.invited_name is None && ev.is_lead_guardian
                    == inv.is_lead_guardian && ev.timestamp == now,
                Err(k) => r matches Err(e) && e.kind == k,
            },
            None => true,
        },
{
    let inv = match found {
        None => {
            return Err(Error::new(ErrorKind::NotFound, String::from_str("Invitation not found")));
        },
        Some(inv) => inv,
    };
    if inv.expires_at <= now {
        return Err(Error::new(ErrorKind::Gone, String::from_str("Invitation has expired")));
    }
    if inv.opened {
        return Err(
            Error::new(ErrorKind::Forbidden, String::from_str("Invitation has already been used")),
        );
    }
    let ev = InvitationEvent {
        event_type: String::from_str("invitation_viewed"),
        invitation_id: inv.id.clone(),
        box_id: inv.box_id.clone(),
        user_id: Some(caller_id.clone()),
        invite_code: inv.invite_code.clone(),
        invited_name: None,
        is_lead_guardian: inv.is_lead_guardian,
        timestamp: now,
    };
    let mut inv = inv;
    inv.opened = true;
    inv.linked_user_id = Some(caller_id);
    Ok((inv, ev))
}

/// Views an invitation by code without consuming it: the looked-up
/// invitation is returned unchanged when it exists and has not expired.
pub fn view_invitation(found: Option<Invitation>, now: i64) -> (r: Result<Invitation, Error>)
    ensures
        found is None ==> (r matches Err(e) && e.kind == ErrorKind::NotFound),
        match found {
            Some(inv) => if inv.expires_at <= now {
                r matches Err(e) && e.kind == ErrorKind::Gone
            } else {
                r matches Ok(out) && out == inv
            },
            None => true,
        },
{
    match found {
        None => Err(Error::new(ErrorKind::NotFound, String::from_str("Invitation not found"))),
        Some(inv) => {
            if inv.expires_at <= now {
                Err(Error::new(ErrorKind::Gone, String::from_str("Invitation has expired")))
            } else {
                Ok(inv)
            }
        },
    }
}

/// Seconds in the 48-hour redemption window granted at creation and at
/// every refresh.
pub open spec fn spec_invite_window() -> int {
    172800
}

/// Creates a fresh invitation for `creator_id`: a new identifier, a new
/// eight-letter code, a 48-hour expiry window from `now`, and the
/// creation event to publish.
pub fn create_invitation(creator_id: String, req: CreateInvitationRequest, now: i64) -> (r: (
    Invitation,
    InvitationEvent,
))
    requires
        now + spec_invite_window() <= i64::MAX,
    ensures
        r.0.id@.len() == 36,
        code_wf(r.0.invite_code@),
        r.0.invited_name == req.invited_name,
        r.0.box_id == req.box_id,
        r.0.creator_id == creator_id,
        r.0.created_at == now,
        r.0.expires_at == now + spec_invite_window(),
        !r.0.opened,
        r.0.linked_user_id is None,
        r.0.is_lead_guardian == req.is_lead_guardian,
        invitation_wf(r.0),
        r.1.event_type@ == "invitation_created"@,
        r.1.invitation_id == r.0.id,
        r.1.box_id == r.0.box_id,
        r.1.user_id is None,
        r.1.invite_code == r.0.invite_code,
        r.1.invited_name == Some(r.0.invited_name),
        r.1.is_lead_guardian == req.is_lead_guardian,
        r.1.timestamp == now,
{
    let id = fresh_uuid_string();
    let invite_code = generate_invite_code();
    let inv = Invitation {
        id,
        invite_code,
        invited_name: req.invited_name,
        box_id: req.box_id,
        creator_id,
        created_at: now,
        expires_at: now + 172800,
        opened: false,
        linked_user_id: None,
        is_lead_guardian: req.is_lead_guardian,
    };
    let ev = InvitationEvent {
        event_type: String::from_str("invitation_created"),
        invitation_id: inv.id.clone(),
        box_id: inv.box_id.clone(),
        user_id: None,
        invite_code: inv.invite_code.clone(),
        invited_name: Some(inv.invited_name.clone()),
        is_lead_guardian: inv.is_lead_guardian,
        timestamp: now,
    };
    (inv, ev)
}

/// Refreshes an invitation: only its creator may, and only while it is
/// unredeemed. A new random code is drawn and the 48-hour window restarts
/// at `now`; the redemption state is untouched.
pub fn refresh_invitation(inv: Invitation, caller_id: &String, now: i64) -> (r: Result<
    Invitation,
    Error,
>)
    requires
        now + spec_invite_window() <= i64::MAX,
    ensures
        inv.creator_id@ != caller_id@ ==> (r matches Err(e) && e.kind == ErrorKind::Forbidden),
        inv.creator_id@ == caller_id@ && inv.opened ==> (r matches Err(e) && e.kind
            == ErrorKind::BadRequest),
        inv.creator_id@ == caller_id@ && !inv.opened ==> (r matches Ok(ni) && code_wf(
            ni.invite_code@,
        ) && ni.expires_at == now + spec_invite_window() && ni.id == inv.id && ni.invited_name
            == inv.invited_name && ni.box_id == inv.box_id && ni.creator_id == inv.creator_id
            && ni.created_at == inv.created_at && ni.opened == inv.opened && ni.linked_user_id
            == inv.linked_user_id && ni.is_lead_guardian == inv.is_lead_guardian),
{
    if inv.creator_id != *caller_id {
        return Err(
            Error::new(
                ErrorKind::Forbidden,
                String::from_str("Only the creator may refresh this invitation"),
            ),
        );
    }
    if inv.opened {
        return Err(
            Error::new(
                ErrorKind::BadRequest,
                String::from_str("Cannot refresh an invitation that has already been used"),
            ),
        );
    }
    let mut inv = inv;
    inv.invite_code = generate_invite_code();
    inv.expires_at = now + 172800;
    Ok(inv)
}

/// The invitations of `s` created by `uid`, in order.
pub open spec fn created_by(s: Seq<Invitation>, uid: Seq<char>) -> Seq<Invitation>
    decreases s.len(),
{
    if s.len() == 0 {
        Seq::empty()
    } else {
        let rest = created_by(s.drop_last(), uid);
        if s.last().creator_id@ == uid {
            rest.push(s.last())
        } else {
            rest
        }
    }
}

/// Lists the invitations whose creator is `creator_id`, in their given
/// order; mirrors the store's creator index.
pub fn invitations_by_creator(invs: &Vec<Invitation>, creator_id: &String) -> (r: Vec<Invitation>)
    ensures
        r@ == created_by(invs@, creator_id@),
{
    let mut r: Vec<Invitation> = Vec::new();
    let mut i: usize = 0;
    while i < invs.len()
        invariant
            i <= invs.len(),
            r@ =~= created_by(invs@.take(i as int), creator_id@),
        decreases invs.len() - i,
    {
        proof {
            assert(invs@.take(i + 1).drop_last() =~= invs@.take(i as int));
            assert(invs@.take(i + 1).last() == invs@[i as int]);
        }
        if invs[i].creator_id == *creator_id {
            r.push(invs[i].clone());
        }
        i = i + 1;
    }
    proof {
        assert(invs@.take(invs@.len() as int) =~= invs@);
    }
    r
}

} // verus!
