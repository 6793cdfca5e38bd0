//! Owner and guardian operations on a box record.
//!
//! Every operation is a pure function from the stored record (plus the
//! caller identity and the current time) to either an updated record and a
//! response, or a failure kind. The unverified rim reads the record from
//! the store, calls the operation, and writes the result back under an
//! optimistic version check.

use vstd::prelude::*;

use crate::errors::{Error, ErrorKind};
use crate::model::{
    count_fetched, lemma_count_fetched_bounds, locked_wf, shard_custody_ok, BoxLockedEvent,
    BoxRecord, Document, Guardian, OptionalField, ShardInput, UpdateBoxRequest,
};

verus! {

/// `i` is the position of the first guardian whose id equals `uid`.
pub open spec fn is_first_guardian(gs: Seq<Guardian>, uid: Seq<char>, i: int) -> bool {
    &&& 0 <= i < gs.len()
    &&& gs[i].id@ == uid
    &&& forall|k: int| 0 <= k < i ==> (#[trigger] gs[k].id@) != uid
}

/// Some guardian of the sequence has id `uid`.
pub open spec fn has_guardian(gs: Seq<Guardian>, uid: Seq<char>) -> bool {
    exists|i: int| 0 <= i < gs.len() && (#[trigger] gs[i].id@) == uid
}

/// Finds the first guardian whose id equals `user_id`.
fn find_guardian(gs: &Vec<Guardian>, user_id: &String) -> (r: Option<usize>)
    ensures
        match r {
            Some(i) => is_first_guardian(gs@, user_id@, i as int),
            None => !has_guardian(gs@, user_id@),
        },
{
    let mut i: usize = 0;
    while i < gs.len()
        invariant
            i <= gs.len(),
            forall|k: int| 0 <= k < i ==> (#[trigger] gs@[k].id@) != user_id@,
        decreases gs.len() - i,
    {
        if gs[i].id == *user_id {
            return Some(i);
        }
        i = i + 1;
    }
    None
}

/// What a guardian receives when fetching a shard.
#[derive(Debug)]
pub struct FetchShardResponse {
    pub encrypted_shard: String,
    pub shard_hash: Option<String>,
    pub shard_fetched_at: Option<i64>,
    pub shard_threshold: usize,
    pub total_shards: usize,
}

/// The outcome owed to the first matching guardian (at position `i`) of a
/// locked box when fetching a shard.
pub open spec fn fetch_shard_outcome(
    b: BoxRecord,
    i: int,
    r: Result<FetchShardResponse, Error>,
) -> bool {
    let g = b.guardians@[i];
    match g.encrypted_shard {
        Some(shard) => match r {
            Ok(resp) => {
                &&& resp.encrypted_shard == shard
                &&& resp.shard_hash == g.shard_hash
                &&& resp.shard_fetched_at == g.shard_fetched_at
                &&& resp.total_shards == b.guardians@.len()
                &&& match b.shard_threshold {
                    Some(t) => resp.shard_threshold == t,
                    None => resp.shard_threshold == b.guardians@.len(),
                }
            },
            Err(_) => false,
        },
        None => match r {
            Ok(_) => false,
            Err(e) => e.kind == if g.shard_fetched_at is Some {
                ErrorKind::BadRequest
            } else {
                ErrorKind::NotFound
            },
        },
    }
}

/// A guardian of a locked box fetches its shard. Read-only: the record is
/// not changed. Fails with `BadRequest` on an unlocked box, `Unauthorized`
/// for a caller who is no guardian, `BadRequest` when the shard was
/// already fetched and removed, and `NotFound` when no shard was ever
/// stored for this guardian.
pub fn fetch_guardian_shard(b: &BoxRecord, user_id: &String) -> (r: Result<
    FetchShardResponse,
    Error,
>)
    ensures
        !b.is_locked ==> (r matches Err(e) && e.kind == ErrorKind::BadRequest),
        b.is_locked && !has_guardian(b.guardians@, user_id@) ==> (r matches Err(e) && e.kind
            == ErrorKind::Unauthorized),
        b.is_locked && has_guardian(b.guardians@, user_id@) ==> exists|i: int|
            is_first_guardian(b.guardians@, user_id@, i) && fetch_shard_outcome(*b, i, r),
{
    if !b.is_locked {
        return Err(
            Error::new(
                ErrorKind::BadRequest,
                String::from_str("Shard fetch is only available for locked boxes."),
            ),
        );
    }
    let found = find_guardian(&b.guardians, user_id);
    match found {
        None => Err(
            Error::new(
                ErrorKind::Unauthorized,
                String::from_str("You are not a guardian for this box."),
            ),
        ),
        Some(i) => {
            let g = &b.guardians[i];
            let total: usize = b.guardians.len();
            let threshold: usize = match b.shard_threshold {
                Some(t) => t,
                None => total,
            };
            let out: Result<FetchShardResponse, Error> = match &g.encrypted_shard {
                None => {
                    if g.shard_fetched_at.is_some() {
                        Err(
                            Error::new(
                                ErrorKind::BadRequest,
                                String::from_str(
                                    "Shard already fetched and removed from server storage.",
                                ),
                            ),
                        )
                    } else {
                        Err(
                            Error::new(
                                ErrorKind::NotFound,
                                String::from_str("Shard not available for this guardian."),
                            ),
                        )
                    }
                },
                Some(shard) => Ok(
                    FetchShardResponse {
                        encrypted_shard: shard.clone(),
                        shard_hash: crate::model::clone_opt_string(&g.shard_hash),
                        shard_fetched_at: g.shard_fetched_at,
                        shard_threshold: threshold,
                        total_shards: total,
                    },
                ),
            };
            proof {
                assert(is_first_guardian(b.guardians@, user_id@, i as int) && fetch_shard_outcome(
                    *b,
                    i as int,
                    out,
                ));
            }
            out
        },
    }
}

/// Returns the full record to its owner; anyone else is refused.
pub fn get_box(b: &BoxRecord, user_id: &String) -> (r: Result<BoxRecord, Error>)
    ensures
        b.owner_id@ == user_id@ ==> (r matches Ok(out) && crate::model::box_like(out, *b)),
        b.owner_id@ != user_id@ ==> (r matches Err(e) && e.kind == ErrorKind::Unauthorized),
{
    if b.owner_id == *user_id {
        Ok(b.clone())
    } else {
        Err(
            Error::new(
                ErrorKind::Unauthorized,
                String::from_str("You don't have permission to view this box"),
            ),
        )
    }
}

/// Checks that the caller may delete the box; the actual removal is the
/// store's move.
pub fn delete_box(b: &BoxRecord, user_id: &String) -> (r: Result<(), Error>)
    ensures
        b.owner_id@ == user_id@ ==> r is Ok,
        b.owner_id@ != user_id@ ==> (r matches Err(e) && e.kind == ErrorKind::Unauthorized),
{
    if b.owner_id == *user_id {
        Ok(())
    } else {
        Err(
            Error::new(
                ErrorKind::Unauthorized,
                String::from_str("You don't have permission to delete this box"),
            ),
        )
    }
}

/// The subsequence of `s` whose owner is `uid`, in order.
pub open spec fn owned_boxes(s: Seq<BoxRecord>, uid: Seq<char>) -> Seq<BoxRecord>
    decreases s.len(),
{
    if s.len() == 0 {
        Seq::empty()
    } else {
        let rest = owned_boxes(s.drop_last(), uid);
        if s.last().owner_id@ == uid {
            rest.push(s.last())
        } else {
            rest
        }
    }
}

/// The subsequence of `s` where some guardian has id `uid`, in order.
pub open spec fn guardian_boxes(s: Seq<BoxRecord>, uid: Seq<char>) -> Seq<BoxRecord>
    decreases s.len(),
{
    if s.len() == 0 {
        Seq::empty()
    } else {
        let rest = guardian_boxes(s.drop_last(), uid);
        if has_guardian(s.last().guardians@, uid) {
            rest.push(s.last())
        } else {
            rest
        }
    }
}

/// The boxes of `boxes` whose owner is `user_id`, in their given order;
/// mirrors the store's owner index.
pub fn boxes_owned_by<'a>(boxes: &'a Vec<BoxRecord>, user_id: &String) -> (r: Vec<&'a BoxRecord>)
    ensures
        r@.len() == owned_boxes(boxes@, user_id@).len(),
        forall|j: int| 0 <= j < r@.len() ==> *r@[j] == owned_boxes(boxes@, user_id@)[j],
{
    let mut r: Vec<&'a BoxRecord> = Vec::new();
    let mut i: usize = 0;
    while i < boxes.len()
        invariant
            i <= boxes.len(),
            r@.len() == owned_boxes(boxes@.take(i as int), user_id@).len(),
            forall|j: int|
                0 <= j < r@.len() ==> *r@[j] == owned_boxes(boxes@.take(i as int), user_id@)[j],
        decreases boxes.len() - i,
    {
        proof {
            assert(boxes@.take(i + 1).drop_last() =~= boxes@.take(i as int));
            assert(boxes@.take(i + 1).last() == boxes@[i as int]);
        }
        if boxes[i].owner_id == *user_id {
            r.push(&boxes[i]);
        }
        i = i + 1;
    }
    proof {
        assert(boxes@.take(boxes@.len() as int) =~= boxes@);
    }
    r
}

/// The boxes of `boxes` where some guardian has id `user_id`, in their
/// given order; mirrors the store's guardian index.
pub fn boxes_for_guardian<'a>(boxes: &'a Vec<BoxRecord>, user_id: &String) -> (r: Vec<
    &'a BoxRecord,
>)
    ensures
        r@.len() == guardian_boxes(boxes@, user_id@).len(),
        forall|j: int| 0 <= j < r@.len() ==> *r@[j] == guardian_boxes(boxes@, user_id@)[j],
{
    let mut r: Vec<&'a BoxRecord> = Vec::new();
    let mut i: usize = 0;
    while i < boxes.len()
        invariant
            i <= boxes.len(),
            r@.len() == guardian_boxes(boxes@.take(i as int), user_id@).len(),
            forall|j: int|
                0 <= j < r@.len() ==> *r@[j] == guardian_boxes(boxes@.take(i as int), user_id@)[j],
        decreases boxes.len() - i,
    {
        proof {
            assert(boxes@.take(i + 1).drop_last() =~= boxes@.take(i as int));
            assert(boxes@.take(i + 1).last() == boxes@[i as int]);
        }
        if find_guardian(&boxes[i].guardians, user_id).is_some() {
            r.push(&boxes[i]);
        }
        i = i + 1;
    }
    proof {
        assert(boxes@.take(boxes@.len() as int) =~= boxes@);
    }
    r
}


/// Equality of two box records on every field except the guardian list
/// and the shard counters.
pub open spec fn same_but_shards(a: BoxRecord, b: BoxRecord) -> bool {
    &&& a.id == b.id
    &&& a.name == b.name
    &&& a.description == b.description
    &&& a.owner_id == b.owner_id
    &&& a.owner_name == b.owner_name
    &&& a.is_locked == b.is_locked
    &&& a.locked_at == b.locked_at
    &&& a.created_at == b.created_at
    &&& a.updated_at == b.updated_at
    &&& a.version == b.version
    &&& a.unlock_instructions == b.unlock_instructions
    &&& a.unlock_request == b.unlock_request
    &&& a.documents@ == b.documents@
    &&& a.shard_threshold == b.shard_threshold
}

/// Replacing a guardian with one of the same fetched-state leaves the
/// fetched count unchanged.
pub proof fn lemma_count_fetched_update(gs: Seq<Guardian>, i: int, g: Guardian)
    requires
        0 <= i < gs.len(),
        g.shard_fetched_at is Some <==> gs[i].shard_fetched_at is Some,
    ensures
        count_fetched(gs.update(i, g)) == count_fetched(gs),
    decreases gs.len(),
{
    if i == gs.len() - 1 {
        assert(gs.update(i, g).drop_last() =~= gs.drop_last());
    } else {
        assert(gs.update(i, g).drop_last() =~= gs.drop_last().update(i, g));
        lemma_count_fetched_update(gs.drop_last(), i, g);
    }
}

/// Counts the guardians that have fetched their shard.
pub fn count_fetched_guardians(gs: &Vec<Guardian>) -> (r: usize)
    ensures
        r == count_fetched(gs@),
{
    let mut c: usize = 0;
    let mut i: usize = 0;
    while i < gs.len()
        invariant
            i <= gs.len(),
            c <= i,
            c == count_fetched(gs@.take(i as int)),
        decreases gs.len() - i,
    {
        proof {
            assert(gs@.take(i + 1).drop_last() =~= gs@.take(i as int));
            assert(gs@.take(i + 1).last() == gs@[i as int]);
        }
        if gs[i].shard_fetched_at.is_some() {
            c = c + 1;
        }
        i = i + 1;
    }
    proof {
        assert(gs@.take(gs@.len() as int) =~= gs@);
    }
    c
}

/// What a guardian's acknowledgement reports back.
#[derive(Debug)]
pub struct AckResponse {
    pub shard_fetched_at: i64,
    pub total_shards: usize,
    pub shards_fetched: usize,
}

/// The guardian at position `i` after acknowledging at time `now`: the
/// server's copy of the shard is dropped, the fetch time recorded.
pub open spec fn acked_guardian(g: Guardian, now: i64) -> Guardian {
    Guardian {
        id: g.id,
        name: g.name,
        status: g.status,
        lead_guardian: g.lead_guardian,
        added_at: g.added_at,
        invitation_id: g.invitation_id,
        encrypted_shard: None,
        shard_hash: g.shard_hash,
        shard_fetched_at: Some(now),
        shard_accepted_at: g.shard_accepted_at,
        lock_data_received_at: g.lock_data_received_at,
    }
}

/// The outcome owed to the first matching guardian (at position `i`) of a
/// locked box when acknowledging a shard at time `now`.
pub open spec fn ack_outcome(
    b: BoxRecord,
    i: int,
    now: i64,
    r: Result<(Option<BoxRecord>, AckResponse), Error>,
) -> bool {
    let g = b.guardians@[i];
    if g.shard_fetched_at is Some && g.encrypted_shard is None {
        match r {
            Ok((w, resp)) => {
                &&& w is None
                &&& match g.shard_fetched_at {
                    Some(t) => resp.shard_fetched_at == t,
                    None => false,
                }
                &&& resp.total_shards == b.guardians@.len()
                &&& resp.shards_fetched == match b.shards_fetched {
                    Some(c) => c,
                    None => 0usize,
                }
            },
            Err(_) => false,
        }
    } else if g.encrypted_shard is None {
        r matches Err(e) && e.kind == ErrorKind::BadRequest
    } else {
        match r {
            Ok((w, resp)) => match w {
                Some(nb) => {
                    &&& same_but_shards(nb, b)
                    &&& nb.guardians@ == b.guardians@.update(i, acked_guardian(g, now))
                    &&& nb.shards_fetched == Some(count_fetched(nb.guardians@) as usize)
                    &&& nb.total_shards == Some(b.guardians@.len() as usize)
                    &&& nb.shards_deleted_at == if count_fetched(nb.guardians@)
                        == nb.guardians@.len() {
                        Some(now)
                    } else {
                        b.shards_deleted_at
                    }
                    &&& resp.shard_fetched_at == now
                    &&& resp.total_shards == b.guardians@.len()
                    &&& resp.shards_fetched == count_fetched(nb.guardians@)
                },
                None => false,
            },
            Err(_) => false,
        }
    }
}

/// A guardian of a locked box acknowledges receipt of its shard: the
/// server deletes its copy of the ciphertext, records the fetch time and
/// recomputes the shard counters. Acknowledging twice is idempotent and
/// reports the first fetch time without a further store write.
pub fn acknowledge_guardian_shard(b: BoxRecord, user_id: &String, now: i64) -> (r: Result<
    (Option<BoxRecord>, AckResponse),
    Error,
>)
    requires
        locked_wf(b),
    ensures
        !b.is_locked ==> (r matches Err(e) && e.kind == ErrorKind::BadRequest),
        b.is_locked && !has_guardian(b.guardians@, user_id@) ==> (r matches Err(e) && e.kind
            == ErrorKind::Unauthorized),
        b.is_locked && has_guardian(b.guardians@, user_id@) ==> exists|i: int|
            is_first_guardian(b.guardians@, user_id@, i) && ack_outcome(b, i, now, r),
        match r {
            Ok((w, _)) => match w {
                Some(nb) => locked_wf(nb),
                None => true,
            },
            Err(_) => true,
        },
{
    if !b.is_locked {
        return Err(
            Error::new(
                ErrorKind::BadRequest,
                String::from_str("Shard acknowledgement is only available for locked boxes."),
            ),
        );
    }
    let found = find_guardian(&b.guardians, user_id);
    let idx = match found {
        None => {
            return Err(
                Error::new(
                    ErrorKind::Unauthorized,
                    String::from_str("You are not a guardian for this box."),
                ),
            );
        },
        Some(i) => i,
    };
    let mut b = b;
    let ghost old_b = b;
    let total: usize = b.guardians.len();
    if b.guardians[idx].shard_fetched_at.is_some() && b.guardians[idx].encrypted_shard.is_none() {
        let fetched_at = match b.guardians[idx].shard_fetched_at {
            Some(t) => t,
            None => 0,
        };
        let shards_fetched = match b.shards_fetched {
            Some(c) => c,
            None => 0,
        };
        let out: Result<(Option<BoxRecord>, AckResponse), Error> = Ok(
            (None, AckResponse { shard_fetched_at: fetched_at, total_shards: total, shards_fetched }),
        );
        proof {
            assert(is_first_guardian(old_b.guardians@, user_id@, idx as int) && ack_outcome(
                old_b,
                idx as int,
                now,
                out,
            ));
        }
        return out;
    }
    if b.guardians[idx].encrypted_shard.is_none() {
        let out: Result<(Option<BoxRecord>, AckResponse), Error> = Err(
            Error::new(ErrorKind::BadRequest, String::from_str("Shard not available to acknowledge.")),
        );
        proof {
            assert(is_first_guardian(old_b.guardians@, user_id@, idx as int) && ack_outcome(
                old_b,
                idx as int,
                now,
                out,
            ));
        }
        return out;
    }
    let mut g = b.guardians[idx].clone();
    g.shard_fetched_at = Some(now);
    g.encrypted_shard = None;
    b.guardians[idx] = g;
    let fetched_count = count_fetched_guardians(&b.guardians);
    b.shards_fetched = Some(fetched_count);
    b.total_shards = Some(total);
    if fetched_count == total {
        b.shards_deleted_at = Some(now);
    }
    proof {
        lemma_count_fetched_bounds(old_b.guardians@);
        if fetched_count < total {
            assert(old_b.shards_deleted_at is None);
        }
    }
    let resp = AckResponse {
        shard_fetched_at: now,
        total_shards: total,
        shards_fetched: fetched_count,
    };
    let out: Result<(Option<BoxRecord>, AckResponse), Error> = Ok((Some(b), resp));
    proof {
        assert(is_first_guardian(old_b.guardians@, user_id@, idx as int) && ack_outcome(
            old_b,
            idx as int,
            now,
            out,
        ));
    }
    out
}


/// What a guardian's record-only acceptance reports back.
#[derive(Debug)]
pub struct AcceptResponse {
    pub shard_accepted_at: i64,
    pub box_id: String,
    pub box_name: String,
}

/// The guardian at position `i` after accepting at time `now`.
pub open spec fn accepted_guardian(g: Guardian, now: i64) -> Guardian {
    Guardian {
        id: g.id,
        name: g.name,
        status: g.status,
        lead_guardian: g.lead_guardian,
        added_at: g.added_at,
        invitation_id: g.invitation_id,
        encrypted_shard: g.encrypted_shard,
        shard_hash: g.shard_hash,
        shard_fetched_at: g.shard_fetched_at,
        shard_accepted_at: Some(now),
        lock_data_received_at: g.lock_data_received_at,
    }
}

/// The outcome owed to the first matching guardian (at position `i`) of a
/// locked box when accepting a shard at time `now`.
pub open spec fn accept_outcome(
    b: BoxRecord,
    i: int,
    now: i64,
    r: Result<(Option<BoxRecord>, AcceptResponse), Error>,
) -> bool {
    let g = b.guardians@[i];
    match r {
        Ok((w, resp)) => {
            &&& resp.box_id == b.id
            &&& resp.box_name == b.name
            &&& match g.shard_accepted_at {
                Some(t) => w is None && resp.shard_accepted_at == t,
                None => {
                    &&& resp.shard_accepted_at == now
                    &&& match w {
                        Some(nb) => {
                            &&& nb.guardians@ == b.guardians@.update(
                                i,
                                accepted_guardian(g, now),
                            )
                            &&& nb.updated_at == now
                            &&& nb.id == b.id
                            &&& nb.name == b.name
                            &&& nb.description == b.description
                            &&& nb.owner_id == b.owner_id
                            &&& nb.owner_name == b.owner_name
                            &&& nb.is_locked == b.is_locked
                            &&& nb.locked_at == b.locked_at
                            &&& nb.created_at == b.created_at
                            &&& nb.version == b.version
                            &&& nb.unlock_instructions == b.unlock_instructions
                            &&& nb.unlock_request == b.unlock_request
                            &&& nb.documents@ == b.documents@
                            &&& nb.shard_threshold == b.shard_threshold
                            &&& nb.total_shards == b.total_shards
                            &&& nb.shards_fetched == b.shards_fetched
                            &&& nb.shards_deleted_at == b.shards_deleted_at
                        },
                        None => false,
                    }
                },
            }
        },
        Err(_) => false,
    }
}

/// A guardian of a locked box confirms it has stored its shard, which
/// stops the reminder pipeline. Idempotent: a second acceptance reports
/// the first acceptance time without a further store write.
pub fn accept_guardian_shard(b: BoxRecord, user_id: &String, now: i64) -> (r: Result<
    (Option<BoxRecord>, AcceptResponse),
    Error,
>)
    requires
        locked_wf(b),
    ensures
        !b.is_locked ==> (r matches Err(e) && e.kind == ErrorKind::BadRequest),
        b.is_locked && !has_guardian(b.guardians@, user_id@) ==> (r matches Err(e) && e.kind
            == ErrorKind::Unauthorized),
        b.is_locked && has_guardian(b.guardians@, user_id@) ==> exists|i: int|
            is_first_guardian(b.guardians@, user_id@, i) && accept_outcome(b, i, now, r),
        match r {
            Ok((w, _)) => match w {
                Some(nb) => locked_wf(nb),
                None => true,
            },
            Err(_) => true,
        },
{
    if !b.is_locked {
        return Err(
            Error::new(
                ErrorKind::BadRequest,
                String::from_str("Shard acceptance is only available for locked boxes."),
            ),
        );
    }
    let found = find_guardian(&b.guardians, user_id);
    let idx = match found {
        None => {
            return Err(
                Error::new(
                    ErrorKind::Unauthorized,
                    String::from_str("You are not a guardian for this box."),
                ),
            );
        },
        Some(i) => i,
    };
    let mut b = b;
    let ghost old_b = b;
    if let Some(t) = b.guardians[idx].shard_accepted_at {
        let out: Result<(Option<BoxRecord>, AcceptResponse), Error> = Ok(
            (
                None,
                AcceptResponse {
                    shard_accepted_at: t,
                    box_id: b.id.clone(),
                    box_name: b.name.clone(),
                },
            ),
        );
        proof {
            assert(is_first_guardian(old_b.guardians@, user_id@, idx as int) && accept_outcome(
                old_b,
                idx as int,
                now,
                out,
            ));
        }
        return out;
    }
    let mut g = b.guardians[idx].clone();
    g.shard_accepted_at = Some(now);
    b.guardians[idx] = g;
    b.updated_at = now;
    let resp = AcceptResponse {
        shard_accepted_at: now,
        box_id: b.id.clone(),
        box_name: b.name.clone(),
    };
    proof {
        lemma_count_fetched_update(
            old_b.guardians@,
            idx as int,
            accepted_guardian(old_b.guardians@[idx as int], now),
        );
    }
    let out: Result<(Option<BoxRecord>, AcceptResponse), Error> = Ok((Some(b), resp));
    proof {
        assert(is_first_guardian(old_b.guardians@, user_id@, idx as int) && accept_outcome(
            old_b,
            idx as int,
            now,
            out,
        ));
    }
    out
}

/// True when the update request touches a field a locked box keeps
/// immutable.
pub open spec fn has_other_updates(p: UpdateBoxRequest) -> bool {
    p.name is Some || p.description is Some || p.unlock_instructions is Some
}

/// The record after an accepted owner update.
pub open spec fn applied_update(b: BoxRecord, p: UpdateBoxRequest) -> BoxRecord {
    BoxRecord {
        name: match p.name {
            Some(n) => n,
            None => b.name,
        },
        description: match p.description {
            Some(d) => d,
            None => b.description,
        },
        unlock_instructions: match p.unlock_instructions {
            Some(OptionalField::Value(v)) => Some(v),
            Some(OptionalField::Null) => None,
            None => b.unlock_instructions,
        },
        ..b
    }
}

/// The owner edits name, description or unlock instructions, or clears
/// the lock flag of a box that is not locked (a no-op). A locked box is
/// immutable: any edit, and any attempt to unlock, is refused. Locking
/// through this operation is refused as well; the dedicated lock
/// transition is the only way to lock a box.
pub fn update_box(b: BoxRecord, user_id: &String, payload: UpdateBoxRequest) -> (r: Result<
    BoxRecord,
    Error,
>)
    ensures
        b.owner_id@ != user_id@ ==> (r matches Err(e) && e.kind == ErrorKind::Unauthorized),
        b.owner_id@ == user_id@ && b.is_locked && has_other_updates(payload) ==> (r matches
            Err(e) && e.kind == ErrorKind::BadRequest),
        b.owner_id@ == user_id@ && !(b.is_locked && has_other_updates(payload))
            && payload.is_locked == Some(true) ==> (r matches Err(e) && e.kind
            == ErrorKind::BadRequest),
        b.owner_id@ == user_id@ && !(b.is_locked && has_other_updates(payload))
            && payload.is_locked == Some(false) && b.is_locked ==> (r matches Err(e) && e.kind
            == ErrorKind::BadRequest),
        b.owner_id@ == user_id@ && !(b.is_locked && has_other_updates(payload)) && (
        payload.is_locked is None || (payload.is_locked == Some(false) && !b.is_locked)) ==> (r
            matches Ok(nb) && nb == applied_update(b, payload)),
        match r {
            Ok(nb) => locked_wf(b) ==> locked_wf(nb),
            Err(_) => true,
        },
{
    if b.owner_id != *user_id {
        return Err(
            Error::new(
                ErrorKind::Unauthorized,
                String::from_str("You don't have permission to update this box"),
            ),
        );
    }
    let has_other = payload.name.is_some() || payload.description.is_some()
        || payload.unlock_instructions.is_some();
    if b.is_locked && has_other {
        return Err(
            Error::new(
                ErrorKind::BadRequest,
                String::from_str("Cannot modify a locked box. Locked boxes are immutable."),
            ),
        );
    }
    match payload.is_locked {
        Some(true) => {
            return Err(
                Error::new(
                    ErrorKind::BadRequest,
                    String::from_str("Locking is only available through the lock operation."),
                ),
            );
        },
        Some(false) => {
            if b.is_locked {
                return Err(
                    Error::new(
                        ErrorKind::BadRequest,
                        String::from_str("Cannot unlock a locked box. Locked boxes are immutable."),
                    ),
                );
            }
        },
        None => {},
    }
    let mut b = b;
    if let Some(name) = payload.name {
        b.name = name;
    }
    if let Some(description) = payload.description {
        b.description = description;
    }
    if let Some(field) = payload.unlock_instructions {
        match field {
            OptionalField::Value(v) => {
                b.unlock_instructions = Some(v);
            },
            OptionalField::Null => {
                b.unlock_instructions = None;
            },
        }
    }
    Ok(b)
}


/// Equality of two box records on every field except the guardian list.
pub open spec fn same_but_guardians(a: BoxRecord, b: BoxRecord) -> bool {
    &&& same_but_shards(a, b)
    &&& a.total_shards == b.total_shards
    &&& a.shards_fetched == b.shards_fetched
    &&& a.shards_deleted_at == b.shards_deleted_at
}

/// Equality of two box records on every field except the document list.
pub open spec fn same_but_documents(a: BoxRecord, b: BoxRecord) -> bool {
    &&& a.id == b.id
    &&& a.name == b.name
    &&& a.description == b.description
    &&& a.owner_id == b.owner_id
    &&& a.owner_name == b.owner_name
    &&& a.is_locked == b.is_locked
    &&& a.locked_at == b.locked_at
    &&& a.created_at == b.created_at
    &&& a.updated_at == b.updated_at
    &&& a.version == b.version
    &&& a.unlock_instructions == b.unlock_instructions
    &&& a.unlock_request == b.unlock_request
    &&& a.guardians@ == b.guardians@
    &&& a.shard_threshold == b.shard_threshold
    &&& a.total_shards == b.total_shards
    &&& a.shards_fetched == b.shards_fetched
    &&& a.shards_deleted_at == b.shards_deleted_at
}

/// `i` is the position of the first document whose id equals `did`.
pub open spec fn is_first_document(ds: Seq<Document>, did: Seq<char>, i: int) -> bool {
    &&& 0 <= i < ds.len()
    &&& ds[i].id@ == did
    &&& forall|k: int| 0 <= k < i ==> (#[trigger] ds[k].id@) != did
}

/// Some document of the sequence has id `did`.
pub open spec fn has_document(ds: Seq<Document>, did: Seq<char>) -> bool {
    exists|i: int| 0 <= i < ds.len() && (#[trigger] ds[i].id@) == did
}

/// Finds the first document whose id equals `document_id`.
fn find_document(ds: &Vec<Document>, document_id: &String) -> (r: Option<usize>)
    ensures
        match r {
            Some(i) => is_first_document(ds@, document_id@, i as int),
            None => !has_document(ds@, document_id@),
        },
{
    let mut i: usize = 0;
    while i < ds.len()
        invariant
            i <= ds.len(),
            forall|k: int| 0 <= k < i ==> (#[trigger] ds@[k].id@) != document_id@,
        decreases ds.len() - i,
    {
        if ds[i].id == *document_id {
            return Some(i);
        }
        i = i + 1;
    }
    None
}

/// The owner replaces the guardian with the same id, or appends a new
/// one. Refused on a locked box.
pub fn update_or_add_guardian(b: BoxRecord, owner_id: &String, guardian: Guardian) -> (r: Result<
    BoxRecord,
    Error,
>)
    ensures
        b.owner_id@ != owner_id@ ==> (r matches Err(e) && e.kind == ErrorKind::Unauthorized),
        b.owner_id@ == owner_id@ && b.is_locked ==> (r matches Err(e) && e.kind
            == ErrorKind::BadRequest),
        b.owner_id@ == owner_id@ && !b.is_locked && has_guardian(b.guardians@, guardian.id@)
            ==> exists|i: int|
            is_first_guardian(b.guardians@, guardian.id@, i) && (r matches Ok(nb)
                && same_but_guardians(nb, b) && nb.guardians@ == b.guardians@.update(i, guardian)),
        b.owner_id@ == owner_id@ && !b.is_locked && !has_guardian(b.guardians@, guardian.id@) ==> (
        r matches Ok(nb) && same_but_guardians(nb, b) && nb.guardians@ == b.guardians@.push(
            guardian,
        )),
{
    if b.owner_id != *owner_id {
        return Err(
            Error::new(
                ErrorKind::Unauthorized,
                String::from_str("You don't have permission to update this box"),
            ),
        );
    }
    if b.is_locked {
        return Err(
            Error::new(
                ErrorKind::BadRequest,
                String::from_str(
                    "Cannot modify guardians of a locked box. Locked boxes are immutable.",
                ),
            ),
        );
    }
    let mut b = b;
    match find_guardian(&b.guardians, &guardian.id) {
        Some(i) => {
            b.guardians[i] = guardian;
        },
        None => {
            b.guardians.push(guardian);
        },
    }
    Ok(b)
}

/// The owner replaces the document with the same id, or appends a new
/// one. Refused on a locked box.
pub fn update_or_add_document(b: BoxRecord, owner_id: &String, document: Document) -> (r: Result<
    BoxRecord,
    Error,
>)
    ensures
        b.owner_id@ != owner_id@ ==> (r matches Err(e) && e.kind == ErrorKind::Unauthorized),
        b.owner_id@ == owner_id@ && b.is_locked ==> (r matches Err(e) && e.kind
            == ErrorKind::BadRequest),
        b.owner_id@ == owner_id@ && !b.is_locked && has_document(b.documents@, document.id@)
            ==> exists|i: int|
            is_first_document(b.documents@, document.id@, i) && (r matches Ok(nb)
                && same_but_documents(nb, b) && nb.documents@ == b.documents@.update(i, document)),
        b.owner_id@ == owner_id@ && !b.is_locked && !has_document(b.documents@, document.id@) ==> (
        r matches Ok(nb) && same_but_documents(nb, b) && nb.documents@ == b.documents@.push(
            document,
        )),
{
    if b.owner_id != *owner_id {
        return Err(
            Error::new(
                ErrorKind::Unauthorized,
                String::from_str("You don't have permission to update this box"),
            ),
        );
    }
    if b.is_locked {
        return Err(
            Error::new(
                ErrorKind::BadRequest,
                String::from_str(
                    "Cannot modify documents of a locked box. Locked boxes are immutable.",
                ),
            ),
        );
    }
    let mut b = b;
    match find_document(&b.documents, &document.id) {
        Some(i) => {
            b.documents[i] = document;
        },
        None => {
            b.documents.push(document);
        },
    }
    Ok(b)
}

/// The owner removes the document with the given id. Refused on a locked
/// box; `NotFound` when no document has the id.
pub fn delete_document_from_box(b: BoxRecord, owner_id: &String, document_id: &String) -> (r:
    Result<BoxRecord, Error>)
    ensures
        b.owner_id@ != owner_id@ ==> (r matches Err(e) && e.kind == ErrorKind::Unauthorized),
        b.owner_id@ == owner_id@ && b.is_locked ==> (r matches Err(e) && e.kind
            == ErrorKind::BadRequest),
        b.owner_id@ == owner_id@ && !b.is_locked && !has_document(b.documents@, document_id@) ==> (
        r matches Err(e) && e.kind == ErrorKind::NotFound),
        b.owner_id@ == owner_id@ && !b.is_locked && has_document(b.documents@, document_id@)
            ==> exists|i: int|
            is_first_document(b.documents@, document_id@, i) && (r matches Ok(nb)
                && same_but_documents(nb, b) && nb.documents@ == b.documents@.remove(i)),
{
    if b.owner_id != *owner_id {
        return Err(
            Error::new(
                ErrorKind::Unauthorized,
                String::from_str("You don't have permission to delete documents from this box"),
            ),
        );
    }
    if b.is_locked {
        return Err(
            Error::new(
                ErrorKind::BadRequest,
                String::from_str(
                    "Cannot delete documents from a locked box. Locked boxes are immutable.",
                ),
            ),
        );
    }
    let mut b = b;
    match find_document(&b.documents, document_id) {
        Some(i) => {
            b.documents.remove(i);
            Ok(b)
        },
        None => Err(
            Error::new(ErrorKind::NotFound, String::from_str("Document not found in box")),
        ),
    }
}

/// `i` is the position of the first guardian matched by id or by
/// invitation id; an invited guardian has an empty id until the
/// invitation is viewed, so the invitation id is accepted as a fallback
/// key.
pub open spec fn is_first_guardian_key(gs: Seq<Guardian>, key: Seq<char>, i: int) -> bool {
    &&& 0 <= i < gs.len()
    &&& (gs[i].id@ == key || gs[i].invitation_id@ == key)
    &&& forall|k: int|
        0 <= k < i ==> (#[trigger] gs[k].id@) != key && gs[k].invitation_id@ != key
}

/// Some guardian of the sequence is matched by `key` as id or invitation
/// id.
pub open spec fn has_guardian_key(gs: Seq<Guardian>, key: Seq<char>) -> bool {
    exists|i: int|
        0 <= i < gs.len() && ((#[trigger] gs[i].id@) == key || gs[i].invitation_id@ == key)
}

/// The owner removes the guardian matched by id or invitation id and
/// receives the removed entry back. Refused on a locked box; `NotFound`
/// when nothing matches.
pub fn delete_guardian_from_box(b: BoxRecord, owner_id: &String, guardian_id: &String) -> (r:
    Result<(BoxRecord, Guardian), Error>)
    ensures
        b.owner_id@ != owner_id@ ==> (r matches Err(e) && e.kind == ErrorKind::Unauthorized),
        b.owner_id@ == owner_id@ && b.is_locked ==> (r matches Err(e) && e.kind
            == ErrorKind::BadRequest),
        b.owner_id@ == owner_id@ && !b.is_locked && !has_guardian_key(b.guardians@, guardian_id@)
            ==> (r matches Err(e) && e.kind == ErrorKind::NotFound),
        b.owner_id@ == owner_id@ && !b.is_locked && has_guardian_key(b.guardians@, guardian_id@)
            ==> exists|i: int|
            is_first_guardian_key(b.guardians@, guardian_id@, i) && (r matches Ok((nb, removed))
                && same_but_guardians(nb, b) && nb.guardians@ == b.guardians@.remove(i) && removed
                == b.guardians@[i]),
{
    if b.owner_id != *owner_id {
        return Err(
            Error::new(
                ErrorKind::Unauthorized,
                String::from_str("You don't have permission to delete guardians from this box"),
            ),
        );
    }
    if b.is_locked {
        return Err(
            Error::new(
                ErrorKind::BadRequest,
                String::from_str(
                    "Cannot delete guardians from a locked box. Locked boxes are immutable.",
                ),
            ),
        );
    }
    let mut b = b;
    let ghost b0 = b;
    match find_guardian_key(&b.guardians, guardian_id) {
        Some(i) => {
            let removed = b.guardians.remove(i);
            let out: Result<(BoxRecord, Guardian), Error> = Ok((b, removed));
            proof {
                assert(is_first_guardian_key(b0.guardians@, guardian_id@, i as int));
            }
            out
        },
        None => Err(
            Error::new(ErrorKind::NotFound, String::from_str("Guardian not found in box")),
        ),
    }
}

/// Finds the first guardian matched by id or by invitation id.
fn find_guardian_key(gs: &Vec<Guardian>, key: &String) -> (r: Option<usize>)
    ensures
        match r {
            Some(i) => is_first_guardian_key(gs@, key@, i as int),
            None => !has_guardian_key(gs@, key@),
        },
{
    let mut i: usize = 0;
    while i < gs.len()
        invariant
            i <= gs.len(),
            forall|k: int| #![all_triggers]
                0 <= k < i ==> gs@[k].id@ != key@ && gs@[k].invitation_id@ != key@,
        decreases gs.len() - i,
    {
        if gs[i].id == *key || gs[i].invitation_id == *key {
            return Some(i);
        }
        i = i + 1;
    }
    None
}


/// What the owner receives after a guardian upsert or removal: the
/// touched guardian, the full guardian list, and the record's update
/// time.
#[derive(Debug)]
pub struct GuardianUpdateResponse {
    pub id: String,
    pub name: String,
    pub status: String,
    pub lead_guardian: bool,
    pub added_at: i64,
    pub invitation_id: String,
    pub all_guardians: Vec<Guardian>,
    pub updated_at: i64,
}

/// The response fields owed for guardian `g` of box `b`.
pub open spec fn guardian_response_ok(g: Guardian, b: BoxRecord, resp: GuardianUpdateResponse) -> bool {
    &&& resp.id == g.id
    &&& resp.name == g.name
    &&& resp.status@ == g.status.spec_label()
    &&& resp.lead_guardian == g.lead_guardian
    &&& resp.added_at == g.added_at
    &&& resp.invitation_id == g.invitation_id
    &&& resp.all_guardians@ == b.guardians@
    &&& resp.updated_at == b.updated_at
}

/// Builds the guardian response from an already-updated box; `Internal`
/// when the guardian is unexpectedly absent.
pub fn guardian_update_response(b: &BoxRecord, guardian_id: &String) -> (r: Result<
    GuardianUpdateResponse,
    Error,
>)
    ensures
        !has_guardian(b.guardians@, guardian_id@) ==> (r matches Err(e) && e.kind
            == ErrorKind::Internal),
        has_guardian(b.guardians@, guardian_id@) ==> exists|i: int|
            is_first_guardian(b.guardians@, guardian_id@, i) && (r matches Ok(resp)
                && guardian_response_ok(b.guardians@[i], *b, resp)),
{
    match find_guardian(&b.guardians, guardian_id) {
        None => Err(
            Error::new(
                ErrorKind::Internal,
                String::from_str("Updated guardian not found in response"),
            ),
        ),
        Some(i) => {
            let g = &b.guardians[i];
            let out: Result<GuardianUpdateResponse, Error> = Ok(
                GuardianUpdateResponse {
                    id: g.id.clone(),
                    name: g.name.clone(),
                    status: g.status.label(),
                    lead_guardian: g.lead_guardian,
                    added_at: g.added_at,
                    invitation_id: g.invitation_id.clone(),
                    all_guardians: crate::model::clone_guardians(&b.guardians),
                    updated_at: b.updated_at,
                },
            );
            proof {
                assert(is_first_guardian(b.guardians@, guardian_id@, i as int));
            }
            out
        },
    }
}

/// The owner upserts one guardian and receives the updated record for the
/// store together with the response for the wire.
pub fn update_guardian(b: BoxRecord, user_id: &String, guardian: Guardian) -> (r: Result<
    (BoxRecord, GuardianUpdateResponse),
    Error,
>)
    ensures
        b.owner_id@ != user_id@ ==> (r matches Err(e) && e.kind == ErrorKind::Unauthorized),
        b.owner_id@ == user_id@ && b.is_locked ==> (r matches Err(e) && e.kind
            == ErrorKind::BadRequest),
        b.owner_id@ == user_id@ && !b.is_locked ==> match r {
            Ok((nb, resp)) => {
                &&& same_but_guardians(nb, b)
                &&& has_guardian(nb.guardians@, guardian.id@)
                &&& exists|i: int|
                    is_first_guardian(nb.guardians@, guardian.id@, i) && guardian_response_ok(
                        nb.guardians@[i],
                        nb,
                        resp,
                    )
            },
            Err(e) => e.kind == ErrorKind::Internal,
        },
{
    let guardian_id = guardian.id.clone();
    let ghost b0 = b;
    let nb = match update_or_add_guardian(b, user_id, guardian) {
        Ok(nb) => nb,
        Err(e) => {
            return Err(e);
        },
    };
    proof {
        if has_guardian(b0.guardians@, guardian_id@) {
            let i = choose|i: int| is_first_guardian(b0.guardians@, guardian_id@, i);
            assert(nb.guardians@[i].id@ == guardian_id@);
        } else {
            assert(nb.guardians@[nb.guardians@.len() - 1].id@ == guardian_id@);
        }
    }
    match guardian_update_response(&nb, &guardian_id) {
        Ok(resp) => Ok((nb, resp)),
        Err(e) => Err(e),
    }
}

/// What the owner receives after a document upsert or removal: the full
/// document list and the record's update time.
#[derive(Debug)]
pub struct DocumentUpdateResponse {
    pub documents: Vec<Document>,
    pub updated_at: i64,
}

/// The owner upserts one document and receives the updated record for the
/// store together with the response for the wire.
pub fn update_document(b: BoxRecord, user_id: &String, document: Document) -> (r: Result<
    (BoxRecord, DocumentUpdateResponse),
    Error,
>)
    ensures
        b.owner_id@ != user_id@ ==> (r matches Err(e) && e.kind == ErrorKind::Unauthorized),
        b.owner_id@ == user_id@ && b.is_locked ==> (r matches Err(e) && e.kind
            == ErrorKind::BadRequest),
        b.owner_id@ == user_id@ && !b.is_locked ==> (r matches Ok((nb, resp))
            && same_but_documents(nb, b) && resp.documents@ == nb.documents@ && resp.updated_at
            == nb.updated_at && (has_document(b.documents@, document.id@) ==> exists|i: int|
            is_first_document(b.documents@, document.id@, i) && nb.documents@
                == b.documents@.update(i, document)) && (!has_document(b.documents@, document.id@)
            ==> nb.documents@ == b.documents@.push(document))),
{
    let nb = match update_or_add_document(b, user_id, document) {
        Ok(nb) => nb,
        Err(e) => {
            return Err(e);
        },
    };
    let resp = DocumentUpdateResponse {
        documents: crate::model::clone_documents(&nb.documents),
        updated_at: nb.updated_at,
    };
    Ok((nb, resp))
}

/// The owner deletes one document and receives the updated record for the
/// store together with the response listing the remaining documents.
pub fn delete_document(b: BoxRecord, user_id: &String, document_id: &String) -> (r: Result<
    (BoxRecord, DocumentUpdateResponse),
    Error,
>)
    ensures
        b.owner_id@ != user_id@ ==> (r matches Err(e) && e.kind == ErrorKind::Unauthorized),
        b.owner_id@ == user_id@ && b.is_locked ==> (r matches Err(e) && e.kind
            == ErrorKind::BadRequest),
        b.owner_id@ == user_id@ && !b.is_locked && !has_document(b.documents@, document_id@) ==> (
        r matches Err(e) && e.kind == ErrorKind::NotFound),
        b.owner_id@ == user_id@ && !b.is_locked && has_document(b.documents@, document_id@)
            ==> exists|i: int|
            is_first_document(b.documents@, document_id@, i) && (r matches Ok((nb, resp))
                && same_but_documents(nb, b) && nb.documents@ == b.documents@.remove(i)
                && resp.documents@ == nb.documents@ && resp.updated_at == nb.updated_at),
{
    let nb = match delete_document_from_box(b, user_id, document_id) {
        Ok(nb) => nb,
        Err(e) => {
            return Err(e);
        },
    };
    let resp = DocumentUpdateResponse {
        documents: crate::model::clone_documents(&nb.documents),
        updated_at: nb.updated_at,
    };
    Ok((nb, resp))
}

/// The owner deletes one guardian (matched by id or invitation id) and
/// receives the updated record for the store together with the response
/// describing the removed guardian and those remaining.
pub fn delete_guardian(b: BoxRecord, user_id: &String, guardian_id: &String) -> (r: Result<
    (BoxRecord, GuardianUpdateResponse),
    Error,
>)
    ensures
        b.owner_id@ != user_id@ ==> (r matches Err(e) && e.kind == ErrorKind::Unauthorized),
        b.owner_id@ == user_id@ && b.is_locked ==> (r matches Err(e) && e.kind
            == ErrorKind::BadRequest),
        b.owner_id@ == user_id@ && !b.is_locked && !has_guardian_key(b.guardians@, guardian_id@)
            ==> (r matches Err(e) && e.kind == ErrorKind::NotFound),
        b.owner_id@ == user_id@ && !b.is_locked && has_guardian_key(b.guardians@, guardian_id@)
            ==> exists|i: int|
            is_first_guardian_key(b.guardians@, guardian_id@, i) && (r matches Ok((nb, resp))
                && same_but_guardians(nb, b) && nb.guardians@ == b.guardians@.remove(i)
                && guardian_response_ok(b.guardians@[i], nb, resp)),
{
    let (nb, removed) = match delete_guardian_from_box(b, user_id, guardian_id) {
        Ok(p) => p,
        Err(e) => {
            return Err(e);
        },
    };
    let resp = GuardianUpdateResponse {
        id: removed.id,
        name: removed.name,
        status: removed.status.label(),
        lead_guardian: removed.lead_guardian,
        added_at: removed.added_at,
        invitation_id: removed.invitation_id,
        all_guardians: crate::model::clone_guardians(&nb.guardians),
        updated_at: nb.updated_at,
    };
    Ok((nb, resp))
}


/// Creates a new, unlocked box for the caller, with a fresh identifier
/// and empty document and guardian lists.
pub fn create_box(
    name: String,
    description: String,
    owner_id: String,
    owner_name: Option<String>,
    now: i64,
) -> (r: BoxRecord)
    ensures
        r.id@.len() == 36,
        r.name == name,
        r.description == description,
        r.owner_id == owner_id,
        r.owner_name == owner_name,
        !r.is_locked,
        r.locked_at is None,
        r.created_at == now,
        r.updated_at == now,
        r.version == 0,
        r.unlock_instructions is None,
        r.unlock_request is None,
        r.documents@.len() == 0,
        r.guardians@.len() == 0,
        r.shard_threshold is None,
        r.total_shards is None,
        r.shards_fetched is None,
        r.shards_deleted_at is None,
        locked_wf(r),
{
    BoxRecord {
        id: crate::ids::fresh_uuid_string(),
        name,
        description,
        owner_id,
        owner_name,
        is_locked: false,
        locked_at: None,
        created_at: now,
        updated_at: now,
        version: 0,
        unlock_instructions: None,
        unlock_request: None,
        documents: Vec::new(),
        guardians: Vec::new(),
        shard_threshold: None,
        total_shards: None,
        shards_fetched: None,
        shards_deleted_at: None,
    }
}

/// `j` is the position of the first shard entry for guardian id `gid`.
pub open spec fn is_first_shard(shards: Seq<ShardInput>, gid: Seq<char>, j: int) -> bool {
    &&& 0 <= j < shards.len()
    &&& shards[j].guardian_id@ == gid
    &&& forall|k: int| 0 <= k < j ==> (#[trigger] shards[k].guardian_id@) != gid
}

/// Some shard entry is keyed by guardian id `gid`.
pub open spec fn has_shard_for(shards: Seq<ShardInput>, gid: Seq<char>) -> bool {
    exists|j: int| 0 <= j < shards.len() && (#[trigger] shards[j].guardian_id@) == gid
}

/// Every guardian of the sequence has a shard entry keyed by its id.
pub open spec fn all_guardians_covered(gs: Seq<Guardian>, shards: Seq<ShardInput>) -> bool {
    forall|i: int| 0 <= i < gs.len() ==> has_shard_for(shards, (#[trigger] gs[i]).id@)
}

/// The guardian `g` once the lock transition has handed it the shard
/// material `s`.
pub open spec fn locked_guardian(g: Guardian, s: ShardInput) -> Guardian {
    Guardian {
        id: g.id,
        name: g.name,
        status: g.status,
        lead_guardian: g.lead_guardian,
        added_at: g.added_at,
        invitation_id: g.invitation_id,
        encrypted_shard: Some(s.shard),
        shard_hash: Some(s.shard_hash),
        shard_fetched_at: None,
        shard_accepted_at: g.shard_accepted_at,
        lock_data_received_at: g.lock_data_received_at,
    }
}

/// Finds the first shard entry keyed by `gid`.
fn find_shard(shards: &Vec<ShardInput>, gid: &String) -> (r: Option<usize>)
    ensures
        match r {
            Some(j) => is_first_shard(shards@, gid@, j as int),
            None => !has_shard_for(shards@, gid@),
        },
{
    let mut j: usize = 0;
    while j < shards.len()
        invariant
            j <= shards.len(),
            forall|k: int| 0 <= k < j ==> (#[trigger] shards@[k].guardian_id@) != gid@,
        decreases shards.len() - j,
    {
        if shards[j].guardian_id == *gid {
            return Some(j);
        }
        j = j + 1;
    }
    None
}

/// A sequence of guardians none of whom has fetched counts zero fetches.
proof fn lemma_count_fetched_zero(gs: Seq<Guardian>)
    requires
        forall|i: int| 0 <= i < gs.len() ==> (#[trigger] gs[i].shard_fetched_at) is None,
    ensures
        count_fetched(gs) == 0,
    decreases gs.len(),
{
    if gs.len() > 0 {
        assert(forall|i: int|
            0 <= i < gs.len() - 1 ==> (#[trigger] gs.drop_last()[i]) == gs[i]);
        lemma_count_fetched_zero(gs.drop_last());
    }
}

/// The ids of the guardians whose id is not empty, in order.
pub open spec fn nonempty_guardian_ids(gs: Seq<Guardian>) -> Seq<Seq<char>>
    decreases gs.len(),
{
    if gs.len() == 0 {
        Seq::empty()
    } else {
        let rest = nonempty_guardian_ids(gs.drop_last());
        if gs.last().id@.len() > 0 {
            rest.push(gs.last().id@)
        } else {
            rest
        }
    }
}

/// The fields the lock transition promises of the updated record.
pub open spec fn locked_box_ok(
    b: BoxRecord,
    shards: Seq<ShardInput>,
    shard_threshold: usize,
    now: i64,
    nb: BoxRecord,
) -> bool {
    &&& nb.is_locked
    &&& nb.locked_at == Some(now)
    &&& nb.updated_at == now
    &&& nb.shard_threshold == Some(shard_threshold)
    &&& nb.total_shards == Some(b.guardians@.len() as usize)
    &&& nb.shards_fetched == Some(0usize)
    &&& nb.shards_deleted_at is None
    &&& nb.guardians@.len() == b.guardians@.len()
    &&& forall|i: int|
        0 <= i < b.guardians@.len() ==> exists|j: int|
            is_first_shard(shards, (#[trigger] b.guardians@[i]).id@, j) && nb.guardians@[i]
                == locked_guardian(b.guardians@[i], shards[j])
    &&& nb.id == b.id
    &&& nb.name == b.name
    &&& nb.description == b.description
    &&& nb.owner_id == b.owner_id
    &&& nb.owner_name == b.owner_name
    &&& nb.created_at == b.created_at
    &&& nb.version == b.version
    &&& nb.unlock_instructions == b.unlock_instructions
    &&& nb.unlock_request == b.unlock_request
    &&& nb.documents@ == b.documents@
}

/// The fields the lock transition promises of the published event.
pub open spec fn lock_event_ok(b: BoxRecord, now: i64, ev: BoxLockedEvent) -> bool {
    &&& ev.event_type@ == "box_locked"@
    &&& ev.box_id == b.id
    &&& ev.box_name == b.name
    &&& ev.owner_name == b.owner_name
    &&& ev.guardian_ids.deep_view() == nonempty_guardian_ids(b.guardians@)
    &&& ev.timestamp == now
}

/// The one-way lock transition. The owner hands in one shard per
/// guardian plus the unlock threshold; on success the record becomes
/// locked and immutable, every guardian holds its ciphertext with the
/// fetch clock reset, the shard counters start at zero, and the event to
/// publish is returned beside the record. Checked in order: ownership,
/// not already locked, shard count equals guardian count, threshold
/// within bounds, and a shard present for every guardian.
pub fn lock_box(
    b: BoxRecord,
    user_id: &String,
    shards: &Vec<ShardInput>,
    shard_threshold: usize,
    now: i64,
) -> (r: Result<(BoxRecord, BoxLockedEvent), Error>)
    ensures
        b.owner_id@ != user_id@ ==> (r matches Err(e) && e.kind == ErrorKind::Unauthorized),
        b.owner_id@ == user_id@ && b.is_locked ==> (r matches Err(e) && e.kind
            == ErrorKind::BadRequest),
        b.owner_id@ == user_id@ && !b.is_locked && shards@.len() != b.guardians@.len() ==> (r
            matches Err(e) && e.kind == ErrorKind::BadRequest),
        b.owner_id@ == user_id@ && !b.is_locked && shards@.len() == b.guardians@.len() && !(1
            <= shard_threshold <= shards@.len()) ==> (r matches Err(e) && e.kind
            == ErrorKind::BadRequest),
        b.owner_id@ == user_id@ && !b.is_locked && shards@.len() == b.guardians@.len() && 1
            <= shard_threshold <= shards@.len() && !all_guardians_covered(b.guardians@, shards@)
            ==> (r matches Err(e) && e.kind == ErrorKind::BadRequest),
        b.owner_id@ == user_id@ && !b.is_locked && shards@.len() == b.guardians@.len() && 1
            <= shard_threshold <= shards@.len() && all_guardians_covered(b.guardians@, shards@)
            ==> (r matches Ok((nb, ev)) && locked_box_ok(b, shards@, shard_threshold, now, nb)
            && lock_event_ok(b, now, ev) && locked_wf(nb)),
{
    if b.owner_id != *user_id {
        return Err(
            Error::new(
                ErrorKind::Unauthorized,
                String::from_str("You don't have permission to lock this box"),
            ),
        );
    }
    if b.is_locked {
        return Err(
            Error::new(
                ErrorKind::BadRequest,
                String::from_str("Cannot lock an already locked box."),
            ),
        );
    }
    if shards.len() != b.guardians.len() {
        return Err(
            Error::new(
                ErrorKind::BadRequest,
                String::from_str("Shard count must match the number of guardians."),
            ),
        );
    }
    if shard_threshold < 1 || shard_threshold > shards.len() {
        return Err(
            Error::new(
                ErrorKind::BadRequest,
                String::from_str("Shard threshold must be between 1 and the number of guardians."),
            ),
        );
    }
    let mut new_guardians: Vec<Guardian> = Vec::new();
    let mut i: usize = 0;
    while i < b.guardians.len()
        invariant
            b.owner_id@ == user_id@,
            !b.is_locked,
            shards@.len() == b.guardians@.len(),
            1 <= shard_threshold <= shards@.len(),
            i <= b.guardians.len(),
            new_guardians@.len() == i,
            forall|k: int|
                0 <= k < i ==> exists|j: int|
                    is_first_shard(shards@, (#[trigger] b.guardians@[k]).id@, j)
                        && new_guardians@[k] == locked_guardian(b.guardians@[k], shards@[j]),
        decreases b.guardians.len() - i,
    {
        match find_shard(shards, &b.guardians[i].id) {
            None => {
                let msg = String::from_str("Missing shard for guardian ").concat(
                    b.guardians[i].id.as_str(),
                );
                proof {
                    assert(!has_shard_for(shards@, b.guardians@[i as int].id@));
                }
                return Err(Error::new(ErrorKind::BadRequest, msg));
            },
            Some(j) => {
                let mut g = b.guardians[i].clone();
                g.encrypted_shard = Some(shards[j].shard.clone());
                g.shard_hash = Some(shards[j].shard_hash.clone());
                g.shard_fetched_at = None;
                new_guardians.push(g);
                proof {
                    assert(is_first_shard(shards@, b.guardians@[i as int].id@, j as int)
                        && new_guardians@[i as int] == locked_guardian(
                        b.guardians@[i as int],
                        shards@[j as int],
                    ));
                }
            },
        }
        i = i + 1;
    }
    let mut guardian_ids: Vec<String> = Vec::new();
    let mut k: usize = 0;
    while k < b.guardians.len()
        invariant
            k <= b.guardians.len(),
            guardian_ids.deep_view() =~= nonempty_guardian_ids(b.guardians@.take(k as int)),
        decreases b.guardians.len() - k,
    {
        proof {
            assert(b.guardians@.take(k + 1).drop_last() =~= b.guardians@.take(k as int));
            assert(b.guardians@.take(k + 1).last() == b.guardians@[k as int]);
        }
        if !b.guardians[k].id.as_str().is_empty() {
            guardian_ids.push(b.guardians[k].id.clone());
            proof {
                assert(guardian_ids.deep_view() =~= nonempty_guardian_ids(
                    b.guardians@.take(k + 1),
                ));
            }
        }
        k = k + 1;
    }
    proof {
        assert(b.guardians@.take(b.guardians@.len() as int) =~= b.guardians@);
    }
    let ev = BoxLockedEvent {
        event_type: String::from_str("box_locked"),
        box_id: b.id.clone(),
        box_name: b.name.clone(),
        owner_name: crate::model::clone_opt_string(&b.owner_name),
        guardian_ids,
        timestamp: now,
    };
    let ghost b0 = b;
    let total: usize = b.guardians.len();
    let mut b = b;
    b.guardians = new_guardians;
    b.is_locked = true;
    b.locked_at = Some(now);
    b.updated_at = now;
    b.shard_threshold = Some(shard_threshold);
    b.total_shards = Some(total);
    b.shards_fetched = Some(0);
    b.shards_deleted_at = None;
    proof {
        assert forall|ii: int|
            0 <= ii < b.guardians@.len() implies (#[trigger] b.guardians@[ii].shard_fetched_at)
            is None && shard_custody_ok(b.guardians@[ii]) by {
            let j = choose|j: int|
                is_first_shard(shards@, b0.guardians@[ii].id@, j) && b.guardians@[ii]
                    == locked_guardian(b0.guardians@[ii], shards@[j]);
            assert(b.guardians@[ii] == locked_guardian(b0.guardians@[ii], shards@[j]));
        }
        lemma_count_fetched_zero(b.guardians@);
        assert forall|ii: int|
            0 <= ii < b0.guardians@.len() implies has_shard_for(
            shards@,
            (#[trigger] b0.guardians@[ii]).id@,
        ) by {
            let j = choose|j: int|
                is_first_shard(shards@, b0.guardians@[ii].id@, j) && b.guardians@[ii]
                    == locked_guardian(b0.guardians@[ii], shards@[j]);
            assert(0 <= j < shards@.len() && shards@[j].guardian_id@ == b0.guardians@[ii].id@);
        }
    }
    Ok((b, ev))
}


/// A guardian as shown to caller `uid`: other guardians' opaque shard
/// bytes are withheld.
pub open spec fn sanitized_guardian(g: Guardian, uid: Seq<char>) -> Guardian {
    if g.id@ == uid {
        g
    } else {
        Guardian { encrypted_shard: None, ..g }
    }
}

/// The restricted projection of a box for one of its guardians: the full
/// record, with every other guardian's encrypted shard withheld. Refused
/// for a caller who is no guardian of the box.
pub fn guardian_box_view(b: &BoxRecord, user_id: &String) -> (r: Result<BoxRecord, Error>)
    ensures
        !has_guardian(b.guardians@, user_id@) ==> (r matches Err(e) && e.kind
            == ErrorKind::Unauthorized),
        has_guardian(b.guardians@, user_id@) ==> match r {
            Ok(out) => {
                &&& crate::model::same_box_except_guardians(out, *b)
                &&& out.guardians@.len() == b.guardians@.len()
                &&& forall|i: int|
                    0 <= i < b.guardians@.len() ==> out.guardians@[i] == sanitized_guardian(
                        #[trigger] b.guardians@[i],
                        user_id@,
                    )
            },
            Err(_) => false,
        },
{
    if find_guardian(&b.guardians, user_id).is_none() {
        return Err(
            Error::new(
                ErrorKind::Unauthorized,
                String::from_str("You are not a guardian for this box."),
            ),
        );
    }
    let mut out = b.clone();
    let mut gs: Vec<Guardian> = Vec::new();
    let mut i: usize = 0;
    while i < b.guardians.len()
        invariant
            i <= b.guardians.len(),
            gs@.len() == i,
            forall|k: int|
                0 <= k < i ==> gs@[k] == sanitized_guardian(
                    #[trigger] b.guardians@[k],
                    user_id@,
                ),
        decreases b.guardians.len() - i,
    {
        let mut g = b.guardians[i].clone();
        if !(g.id == *user_id) {
            g.encrypted_shard = None;
        }
        gs.push(g);
        i = i + 1;
    }
    out.guardians = gs;
    Ok(out)
}

} // verus!
