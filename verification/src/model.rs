//! The data model: boxes, guardians, documents, invitations and push
//! tokens, together with the well-formedness predicates the operations
//! preserve.
//!
//! Timestamps are kept as non-negative seconds since the Unix epoch; the
//! unverified rim converts them to and from the wire's RFC 3339 strings.

use vstd::prelude::*;

verus! {

/// Where a guardian stands in the invitation lifecycle.
#[derive(Clone, Copy, Debug, PartialEq, Eq, Structural)]
pub enum GuardianStatus {
    Invited,
    Accepted,
    Declined,
    Rejected,
}

impl GuardianStatus {
    /// The wire spelling of this status.
    pub open spec fn spec_label(self) -> Seq<char> {
        match self {
            GuardianStatus::Invited => "invited"@,
            GuardianStatus::Accepted => "accepted"@,
            GuardianStatus::Declined => "declined"@,
            GuardianStatus::Rejected => "rejected"@,
        }
    }

    /// Returns the wire spelling of this status.
    pub fn label(&self) -> (r: String)
        ensures
            r@ == self.spec_label(),
    {
        match self {
            GuardianStatus::Invited => String::from_str("invited"),
            GuardianStatus::Accepted => String::from_str("accepted"),
            GuardianStatus::Declined => String::from_str("declined"),
            GuardianStatus::Rejected => String::from_str("rejected"),
        }
    }
}

/// A user designated to receive one shard of a box's unlock key.
///
/// `id` stays empty until the guardian's invitation is viewed; until then
/// `invitation_id` identifies the slot. `encrypted_shard` is present only
/// between the lock transition and the guardian's acknowledgement.
#[derive(Debug)]
pub struct Guardian {
    pub id: String,
    pub name: String,
    pub status: GuardianStatus,
    pub lead_guardian: bool,
    pub added_at: i64,
    pub invitation_id: String,
    pub encrypted_shard: Option<String>,
    pub shard_hash: Option<String>,
    pub shard_fetched_at: Option<i64>,
    pub shard_accepted_at: Option<i64>,
    pub lock_data_received_at: Option<i64>,
}

/// A document entry: an id plus metadata the server does not interpret.
#[derive(Debug)]
pub struct Document {
    pub id: String,
    pub data: String,
}

/// The authoritative record of one escrow box.
#[derive(Debug)]
pub struct BoxRecord {
    pub id: String,
    pub name: String,
    pub description: String,
    pub owner_id: String,
    pub owner_name: Option<String>,
    pub is_locked: bool,
    pub locked_at: Option<i64>,
    pub created_at: i64,
    pub updated_at: i64,
    pub version: u64,
    pub unlock_instructions: Option<String>,
    pub unlock_request: Option<String>,
    pub documents: Vec<Document>,
    pub guardians: Vec<Guardian>,
    pub shard_threshold: Option<usize>,
    pub total_shards: Option<usize>,
    pub shards_fetched: Option<usize>,
    pub shards_deleted_at: Option<i64>,
}

/// A single-use, time-bounded invite code binding a box to a guardian
/// identity.
#[derive(Debug)]
pub struct Invitation {
    pub id: String,
    pub invite_code: String,
    pub invited_name: String,
    pub box_id: String,
    pub creator_id: String,
    pub created_at: i64,
    pub expires_at: i64,
    pub opened: bool,
    pub linked_user_id: Option<String>,
    pub is_lead_guardian: bool,
}

/// A registered push destination for one user.
#[derive(Debug)]
pub struct PushToken {
    pub user_id: String,
    pub push_token: String,
    pub platform: String,
    pub updated_at: i64,
}

/// One entry of a lock request: the shard material for one guardian.
#[derive(Debug)]
pub struct ShardInput {
    pub guardian_id: String,
    pub shard: String,
    pub shard_hash: String,
}

/// The event published when a box is locked.
#[derive(Debug)]
pub struct BoxLockedEvent {
    pub event_type: String,
    pub box_id: String,
    pub box_name: String,
    pub owner_name: Option<String>,
    pub guardian_ids: Vec<String>,
    pub timestamp: i64,
}

/// The event published when an invitation is redeemed.
#[derive(Debug)]
pub struct InvitationEvent {
    pub event_type: String,
    pub invitation_id: String,
    pub box_id: String,
    pub user_id: Option<String>,
    pub invite_code: String,
    pub invited_name: Option<String>,
    pub is_lead_guardian: bool,
    pub timestamp: i64,
}

/// A patch to an optional field that distinguishes "set to this value"
/// from "clear the field"; absence of the whole patch means "leave as is".
#[derive(Debug)]
pub enum OptionalField {
    Value(String),
    Null,
}

/// The owner's update request for a box.
#[derive(Debug)]
pub struct UpdateBoxRequest {
    pub name: Option<String>,
    pub description: Option<String>,
    pub unlock_instructions: Option<OptionalField>,
    pub is_locked: Option<bool>,
}

/// Request body for creating an invitation.
#[derive(Debug)]
pub struct CreateInvitationRequest {
    pub invited_name: String,
    pub box_id: String,
    pub is_lead_guardian: bool,
}

/// Request body for redeeming an invite code.
#[derive(Debug)]
pub struct ConnectToUserRequest {
    pub invite_code: String,
}

/// Request body for registering a push token.
#[derive(Debug)]
pub struct RegisterPushTokenRequest {
    pub push_token: String,
    pub platform: String,
}

/// Clones an optional string, preserving the value exactly.
pub fn clone_opt_string(o: &Option<String>) -> (r: Option<String>)
    ensures
        r == *o,
{
    match o {
        Some(s) => Some(s.clone()),
        None => None,
    }
}

impl Clone for Guardian {
    fn clone(&self) -> (r: Self)
        ensures
            r == *self,
    {
        Guardian {
            id: self.id.clone(),
            name: self.name.clone(),
            status: self.status,
            lead_guardian: self.lead_guardian,
            added_at: self.added_at,
            invitation_id: self.invitation_id.clone(),
            encrypted_shard: clone_opt_string(&self.encrypted_shard),
            shard_hash: clone_opt_string(&self.shard_hash),
            shard_fetched_at: self.shard_fetched_at,
            shard_accepted_at: self.shard_accepted_at,
            lock_data_received_at: self.lock_data_received_at,
        }
    }
}

impl Clone for Document {
    fn clone(&self) -> (r: Self)
        ensures
            r == *self,
    {
        Document { id: self.id.clone(), data: self.data.clone() }
    }
}

impl Clone for Invitation {
    fn clone(&self) -> (r: Self)
        ensures
            r == *self,
    {
        Invitation {
            id: self.id.clone(),
            invite_code: self.invite_code.clone(),
            invited_name: self.invited_name.clone(),
            box_id: self.box_id.clone(),
            creator_id: self.creator_id.clone(),
            created_at: self.created_at,
            expires_at: self.expires_at,
            opened: self.opened,
            linked_user_id: clone_opt_string(&self.linked_user_id),
            is_lead_guardian: self.is_lead_guardian,
        }
    }
}

impl Clone for PushToken {
    fn clone(&self) -> (r: Self)
        ensures
            r == *self,
    {
        PushToken {
            user_id: self.user_id.clone(),
            push_token: self.push_token.clone(),
            platform: self.platform.clone(),
            updated_at: self.updated_at,
        }
    }
}

impl Clone for ShardInput {
    fn clone(&self) -> (r: Self)
        ensures
            r == *self,
    {
        ShardInput {
            guardian_id: self.guardian_id.clone(),
            shard: self.shard.clone(),
            shard_hash: self.shard_hash.clone(),
        }
    }
}

/// Record equality for boxes, stated field by field; the two vectors are
/// compared by their contents.
pub open spec fn box_like(a: BoxRecord, b: BoxRecord) -> bool {
    &&& a.id == b.id
    &&& a.name == b.name
    &&& a.description == b.description
    &&& a.owner_id == b.owner_id
    &&& a.owner_name == b.owner_name
    &&& a.is_locked == b.is_locked
    &&& a.locked_at == b.locked_at
    &&& a.created_at == b.created_at
    &&& a.updated_at == b.updated_at
    &&& a.version == b.version
    &&& a.unlock_instructions == b.unlock_instructions
    &&& a.unlock_request == b.unlock_request
    &&& a.documents@ == b.documents@
    &&& a.guardians@ == b.guardians@
    &&& a.shard_threshold == b.shard_threshold
    &&& a.total_shards == b.total_shards
    &&& a.shards_fetched == b.shards_fetched
    &&& a.shards_deleted_at == b.shards_deleted_at
}

/// Clones a document list, preserving the contents exactly.
pub fn clone_documents(ds: &Vec<Document>) -> (r: Vec<Document>)
    ensures
        r@ == ds@,
{
    let mut r: Vec<Document> = Vec::new();
    let mut i: usize = 0;
    while i < ds.len()
        invariant
            i <= ds.len(),
            r@ =~= ds@.take(i as int),
        decreases ds.len() - i,
    {
        r.push(ds[i].clone());
        proof {
            assert(r@ =~= ds@.take(i + 1 as int));
        }
        i = i + 1;
    }
    proof {
        assert(r@ =~= ds@);
    }
    r
}

/// Clones a guardian list, preserving the contents exactly.
pub fn clone_guardians(gs: &Vec<Guardian>) -> (r: Vec<Guardian>)
    ensures
        r@ == gs@,
{
    let mut r: Vec<Guardian> = Vec::new();
    let mut i: usize = 0;
    while i < gs.len()
        invariant
            i <= gs.len(),
            r@ =~= gs@.take(i as int),
        decreases gs.len() - i,
    {
        r.push(gs[i].clone());
        proof {
            assert(r@ =~= gs@.take(i + 1 as int));
        }
        i = i + 1;
    }
    proof {
        assert(r@ =~= gs@);
    }
    r
}

impl Clone for BoxRecord {
    fn clone(&self) -> (r: Self)
        ensures
            box_like(r, *self),
    {
        let documents = clone_documents(&self.documents);
        let guardians = clone_guardians(&self.guardians);
        BoxRecord {
            id: self.id.clone(),
            name: self.name.clone(),
            description: self.description.clone(),
            owner_id: self.owner_id.clone(),
            owner_name: clone_opt_string(&self.owner_name),
            is_locked: self.is_locked,
            locked_at: self.locked_at,
            created_at: self.created_at,
            updated_at: self.updated_at,
            version: self.version,
            unlock_instructions: clone_opt_string(&self.unlock_instructions),
            unlock_request: clone_opt_string(&self.unlock_request),
            documents,
            guardians,
            shard_threshold: self.shard_threshold,
            total_shards: self.total_shards,
            shards_fetched: self.shards_fetched,
            shards_deleted_at: self.shards_deleted_at,
        }
    }
}

/// Equality of two box records on every field but the guardian list.
pub open spec fn same_box_except_guardians(a: BoxRecord, b: BoxRecord) -> bool {
    &&& a.id == b.id
    &&& a.name == b.name
    &&& a.description == b.description
    &&& a.owner_id == b.owner_id
    &&& a.owner_name == b.owner_name
    &&& a.is_locked == b.is_locked
    &&& a.locked_at == b.locked_at
    &&& a.created_at == b.created_at
    &&& a.updated_at == b.updated_at
    &&& a.version == b.version
    &&& a.unlock_instructions == b.unlock_instructions
    &&& a.unlock_request == b.unlock_request
    &&& a.documents@ == b.documents@
    &&& a.shard_threshold == b.shard_threshold
    &&& a.total_shards == b.total_shards
    &&& a.shards_fetched == b.shards_fetched
    &&& a.shards_deleted_at == b.shards_deleted_at
}

/// Shard custody for one guardian of a locked box: the server holds the
/// ciphertext exactly until the guardian has fetched it.
pub open spec fn shard_custody_ok(g: Guardian) -> bool {
    (g.encrypted_shard is None) <==> (g.shard_fetched_at is Some)
}

/// How many guardians have fetched their shard.
pub open spec fn count_fetched(gs: Seq<Guardian>) -> int
    decreases gs.len(),
{
    if gs.len() == 0 {
        0
    } else {
        count_fetched(gs.drop_last()) + if gs.last().shard_fetched_at is Some {
            1int
        } else {
            0int
        }
    }
}

/// Well-formedness of a locked box: the lock timestamp and shard counters
/// are set and consistent, every guardian's custody state is two-valued,
/// and the deletion marker is present exactly when all shards are fetched.
/// Boxes that are not locked are unconstrained.
pub open spec fn locked_wf(b: BoxRecord) -> bool {
    b.is_locked ==> {
        &&& b.locked_at is Some
        &&& b.guardians@.len() >= 1
        &&& b.total_shards == Some(b.guardians@.len() as usize)
        &&& match b.shard_threshold {
            Some(t) => 1 <= t <= b.guardians@.len(),
            None => false,
        }
        &&& b.shards_fetched == Some(count_fetched(b.guardians@) as usize)
        &&& forall|i: int|
            0 <= i < b.guardians@.len() ==> shard_custody_ok(#[trigger] b.guardians@[i])
        &&& (b.shards_deleted_at is Some <==> count_fetched(b.guardians@) == b.guardians@.len())
    }
}

/// Well-formedness of an invitation: once redeemed it is linked to a user.
pub open spec fn invitation_wf(inv: Invitation) -> bool {
    inv.opened ==> inv.linked_user_id is Some
}

/// The count of fetched shards never exceeds the number of guardians, and
/// it reaches that number only when every guardian has fetched.
pub proof fn lemma_count_fetched_bounds(gs: Seq<Guardian>)
    ensures
        0 <= count_fetched(gs) <= gs.len(),
        count_fetched(gs) == gs.len() ==> forall|i: int|
            0 <= i < gs.len() ==> (#[trigger] gs[i].shard_fetched_at) is Some,
    decreases gs.len(),
{
    if gs.len() > 0 {
        lemma_count_fetched_bounds(gs.drop_last());
        assert(forall|i: int| 0 <= i < gs.len() - 1 ==> gs[i] == gs.drop_last()[i]);
    }
}

} // verus!
