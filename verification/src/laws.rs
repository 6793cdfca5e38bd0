//! The cross-cutting laws of the escrow lifecycle, stated over the same
//! specification functions the operations' contracts use.

use vstd::prelude::*;

use crate::boxes::{ack_outcome, acked_guardian, is_first_guardian, AckResponse};
use crate::errors::{Error, ErrorKind};
use crate::invitations::handle_outcome;
use crate::model::{count_fetched, locked_wf, shard_custody_ok, BoxRecord, Invitation};

verus! {

/// A locked, well-formed box keeps shard custody two-valued for every
/// guardian — the server holds the ciphertext exactly until the guardian
/// has fetched it — and its counters honest: `shards_fetched` counts the
/// guardians that have fetched, `total_shards` counts the guardians, and
/// the deletion marker is set exactly when every shard has been fetched.
pub proof fn lemma_locked_box_custody(b: BoxRecord)
    requires
        b.is_locked,
        locked_wf(b),
    ensures
        forall|i: int|
            0 <= i < b.guardians@.len()
                ==> ((#[trigger] b.guardians@[i].encrypted_shard) is None <==> b.guardians@[
            i].shard_fetched_at is Some),
        b.shards_fetched == Some(count_fetched(b.guardians@) as usize),
        b.total_shards == Some(b.guardians@.len() as usize),
        b.shards_deleted_at is Some <==> count_fetched(b.guardians@) == b.guardians@.len(),
{
    assert(forall|i: int|
        0 <= i < b.guardians@.len() ==> shard_custody_ok(#[trigger] b.guardians@[i]));
}

/// A redeemed invitation is terminal: redeeming it again fails for every
/// caller and at every time, so its linked user can never be reassigned.
pub proof fn lemma_opened_invitation_is_terminal(inv: Invitation, caller: String, now: i64)
    requires
        inv.opened,
    ensures
        handle_outcome(inv, caller, now) is Err,
{
}

/// Redemption succeeds at most once: when one caller's redemption goes
/// through, the invitation comes out opened and linked to that caller,
/// and any later redemption by any caller at any time fails — with
/// `Forbidden` while the window is still open — leaving the link as it
/// was.
pub proof fn lemma_redemption_single_use(
    inv: Invitation,
    first_caller: String,
    now: i64,
    second_caller: String,
    later: i64,
)
    requires
        handle_outcome(inv, first_caller, now) is Ok,
    ensures
        !inv.opened,
        match handle_outcome(inv, first_caller, now) {
            Ok(ni) => {
                &&& ni.opened
                &&& ni.linked_user_id == Some(first_caller)
                &&& handle_outcome(ni, second_caller, later) is Err
                &&& later < ni.expires_at ==> (handle_outcome(ni, second_caller, later) matches
                    Err(k) && k == ErrorKind::Forbidden)
            },
            Err(_) => false,
        },
{
}

/// Acknowledging a shard twice yields the same fetch timestamp: after a
/// successful acknowledgement, the same guardian's next acknowledgement
/// reports the recorded time back and asks for no store write.
pub proof fn lemma_acknowledge_idempotent(
    b: BoxRecord,
    uid: Seq<char>,
    i: int,
    now: i64,
    nb: BoxRecord,
    resp: AckResponse,
    later: i64,
    r2: Result<(Option<BoxRecord>, AckResponse), Error>,
)
    requires
        is_first_guardian(b.guardians@, uid, i),
        ack_outcome(b, i, now, Ok((Some(nb), resp))),
        ack_outcome(nb, i, later, r2),
    ensures
        is_first_guardian(nb.guardians@, uid, i),
        r2 matches Ok((w, resp2)) && w is None && resp2.shard_fetched_at == resp.shard_fetched_at,
{
    assert(nb.guardians@ == b.guardians@.update(
        i,
        acked_guardian(b.guardians@[i], now),
    ));
    assert(forall|k: int|
        0 <= k < nb.guardians@.len() && k != i ==> (#[trigger] nb.guardians@[k]).id
            == b.guardians@[k].id);
    assert(nb.guardians@[i].id == b.guardians@[i].id);
}

} // verus!
