//! Properties of the distributor that relate several operations or hold in every state.
use crate::engine::{claimant_count, has_receipt, sol_claimed, token_claimed, Distributor};
use crate::error::DistributorError;
use crate::state::Pubkey;
use vstd::prelude::*;

verus! {

/// A claim pays out at most once: once a claim has succeeded, the same claim
/// on the resulting state is refused, and while the vault still covers the
/// amounts it is refused as a double claim.
pub proof fn lemma_claim_exactly_once(
    pre: &Distributor,
    post: &Distributor,
    claimant: Pubkey,
    epoch_id: u64,
    amount_sol: u64,
    amount_token: u64,
    proof: Seq<[u8; 32]>,
    now: i64,
)
    requires
        pre.wf(),
        pre.claim_error(claimant@, epoch_id, amount_sol, amount_token, proof) is None,
        pre.claim_applied(post, claimant, epoch_id, amount_sol, amount_token, now),
    ensures
        post.claim_error(claimant@, epoch_id, amount_sol, amount_token, proof) is Some,
        post.vault.sol_balance >= amount_sol && post.vault.token_balance >= amount_token
            ==> post.claim_error(claimant@, epoch_id, amount_sol, amount_token, proof) == Some(
            DistributorError::AlreadyClaimed,
        ),
{
    let n = pre.receipts@.len() as int;
    assert(post.receipts@[n].epoch_id == epoch_id);
    assert(has_receipt(post.receipts@, epoch_id, claimant@));
    assert(post.epoch_at(epoch_id).merkle_root == pre.epoch_at(epoch_id).merkle_root);
}

/// In every state, each published epoch's claimed totals are the sums of the
/// amounts on its receipts, and its claimant count is the number of them.
pub proof fn lemma_epoch_totals_match_receipts(d: &Distributor, epoch_id: u64)
    requires
        d.wf(),
        d.epoch_exists(epoch_id),
    ensures
        d.epoch_at(epoch_id).claimed_sol == sol_claimed(d.receipts@, epoch_id),
        d.epoch_at(epoch_id).claimed_token == token_claimed(d.receipts@, epoch_id),
        d.epoch_at(epoch_id).num_claimants == claimant_count(d.receipts@, epoch_id),
{
    assert(d.epochs@[epoch_id - 1].epoch_id == epoch_id);
}

/// A successful claim adds its amounts to its epoch's claimed totals and one
/// to its claimant count, and leaves every other epoch as it was.
pub proof fn lemma_claim_adds_to_epoch(
    pre: &Distributor,
    post: &Distributor,
    claimant: Pubkey,
    epoch_id: u64,
    amount_sol: u64,
    amount_token: u64,
    now: i64,
    other: u64,
)
    requires
        pre.wf(),
        pre.epoch_exists(epoch_id),
        pre.claim_applied(post, claimant, epoch_id, amount_sol, amount_token, now),
        post.wf(),
    ensures
        post.epoch_at(epoch_id).claimed_sol == pre.epoch_at(epoch_id).claimed_sol + amount_sol,
        post.epoch_at(epoch_id).claimed_token == pre.epoch_at(epoch_id).claimed_token
            + amount_token,
        post.epoch_at(epoch_id).num_claimants == pre.epoch_at(epoch_id).num_claimants + 1,
        pre.epoch_exists(other) && other != epoch_id ==> post.epoch_at(other) == pre.epoch_at(
            other,
        ),
{
    lemma_epoch_totals_match_receipts(pre, epoch_id);
    lemma_epoch_totals_match_receipts(post, epoch_id);
    assert(post.receipts@.drop_last() =~= pre.receipts@);
}

/// While the distributor is paused, every claim and every publication is
/// refused as paused.
pub proof fn lemma_paused_refuses(
    d: &Distributor,
    claimant: Seq<u8>,
    epoch_id: u64,
    amount_sol: u64,
    amount_token: u64,
    proof: Seq<[u8; 32]>,
    caller: Seq<u8>,
    start_slot: u64,
    end_slot: u64,
)
    requires
        d.state.paused,
    ensures
        d.claim_error(claimant, epoch_id, amount_sol, amount_token, proof) == Some(
            DistributorError::Paused,
        ),
        d.publish_error(caller, epoch_id, start_slot, end_slot) == Some(DistributorError::Paused),
{
}

/// Publication is strictly sequential: it can succeed only for the epoch after
/// the current one, and an authorized caller on an unpaused distributor who
/// names any other epoch is refused as out of sequence.
pub proof fn lemma_publish_sequential(
    d: &Distributor,
    caller: Seq<u8>,
    epoch_id: u64,
    start_slot: u64,
    end_slot: u64,
)
    ensures
        d.publish_error(caller, epoch_id, start_slot, end_slot) is None ==> epoch_id
            == d.state.current_epoch + 1,
        !d.state.paused && (caller == d.state.keeper@ || caller == d.state.admin@) && epoch_id
            != d.state.current_epoch + 1 ==> d.publish_error(caller, epoch_id, start_slot, end_slot)
            == Some(DistributorError::InvalidEpochSequence),
{
}

} // verus!
