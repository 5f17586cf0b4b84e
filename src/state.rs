//! The records kept by the distributor.
use vstd::prelude::*;

verus! {

/// A 32-byte identity of a wallet or an authority.
#[derive(Debug, Clone, Copy)]
pub struct Pubkey {
    pub bytes: [u8; 32],
}

impl View for Pubkey {
    type V = Seq<u8>;

    open spec fn view(&self) -> Seq<u8> {
        self.bytes@
    }
}

impl Pubkey {
    /// The identity with the given bytes.
    pub fn new(bytes: [u8; 32]) -> (r: Pubkey)
        ensures
            r@ == bytes@,
    {
        Pubkey { bytes }
    }

    /// Whether two identities hold the same bytes.
    pub fn same_as(&self, other: &Pubkey) -> (r: bool)
        ensures
            r == (self@ == other@),
    {
        crate::merkle::digest_eq(&self.bytes, &other.bytes)
    }
}

/// The global configuration and running totals of the distributor.
#[derive(Debug, Clone, Copy)]
pub struct DistributorState {
    /// Full configuration authority.
    pub admin: Pubkey,
    /// May publish epochs, besides the admin.
    pub keeper: Pubkey,
    /// The id of the last published epoch, 0 before the first.
    pub current_epoch: u64,
    /// Native currency paid out over all epochs.
    pub total_sol_distributed: u64,
    /// Tokens paid out over all epochs.
    pub total_token_distributed: u64,
    /// While set, claims and publications are refused.
    pub paused: bool,
}

/// One published epoch: its Merkle root, declared totals and running claimed totals.
#[derive(Debug, Clone, Copy)]
pub struct EpochState {
    pub epoch_id: u64,
    pub merkle_root: [u8; 32],
    pub total_rewards_sol: u64,
    pub total_rewards_token: u64,
    pub claimed_sol: u64,
    pub claimed_token: u64,
    pub start_slot: u64,
    pub end_slot: u64,
    pub publish_time: i64,
    pub num_claimants: u32,
}

/// The permanent record that a wallet has claimed for an epoch.
#[derive(Debug, Clone, Copy)]
pub struct ClaimReceipt {
    pub wallet: Pubkey,
    pub epoch_id: u64,
    pub amount_sol: u64,
    pub amount_token: u64,
    pub claimed_at: i64,
}

} // verus!
