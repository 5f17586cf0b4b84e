//! The distribution engine: epoch registry, claim ledger, vault and authorization.
use crate::error::DistributorError;
use crate::merkle::{compute_leaf, fold_proof, leaf_of, verify_proof};
use crate::state::{ClaimReceipt, DistributorState, EpochState, Pubkey};
use crate::vault::{Asset, VaultAccount};
use vstd::prelude::*;

verus! {

/// Native currency paid by the receipts of one epoch.
pub open spec fn sol_claimed(receipts: Seq<ClaimReceipt>, epoch_id: u64) -> int
    decreases receipts.len(),
{
    if receipts.len() == 0 {
        0
    } else {
        sol_claimed(receipts.drop_last(), epoch_id) + if receipts.last().epoch_id == epoch_id {
            receipts.last().amount_sol as int
        } else {
            0
        }
    }
}

/// Tokens paid by the receipts of one epoch.
pub open spec fn token_claimed(receipts: Seq<ClaimReceipt>, epoch_id: u64) -> int
    decreases receipts.len(),
{
    if receipts.len() == 0 {
        0
    } else {
        token_claimed(receipts.drop_last(), epoch_id) + if receipts.last().epoch_id == epoch_id {
            receipts.last().amount_token as int
        } else {
            0
        }
    }
}

/// The number of receipts of one epoch.
pub open spec fn claimant_count(receipts: Seq<ClaimReceipt>, epoch_id: u64) -> int
    decreases receipts.len(),
{
    if receipts.len() == 0 {
        0
    } else {
        claimant_count(receipts.drop_last(), epoch_id) + if receipts.last().epoch_id == epoch_id {
            1int
        } else {
            0
        }
    }
}

/// Native currency paid by all receipts.
pub open spec fn sol_paid(receipts: Seq<ClaimReceipt>) -> int
    decreases receipts.len(),
{
    if receipts.len() == 0 {
        0
    } else {
        sol_paid(receipts.drop_last()) + receipts.last().amount_sol
    }
}

/// Tokens paid by all receipts.
pub open spec fn token_paid(receipts: Seq<ClaimReceipt>) -> int
    decreases receipts.len(),
{
    if receipts.len() == 0 {
        0
    } else {
        token_paid(receipts.drop_last()) + receipts.last().amount_token
    }
}

/// Whether a receipt exists for the wallet in the epoch.
pub open spec fn has_receipt(receipts: Seq<ClaimReceipt>, epoch_id: u64, wallet: Seq<u8>) -> bool {
    exists|i: int|
        0 <= i < receipts.len() && #[trigger] receipts[i].epoch_id == epoch_id
            && receipts[i].wallet@ == wallet
}

proof fn lemma_push_receipt(receipts: Seq<ClaimReceipt>, r: ClaimReceipt)
    ensures
        forall|epoch_id: u64|
            #![trigger sol_claimed(receipts.push(r), epoch_id)]
            sol_claimed(receipts.push(r), epoch_id) == sol_claimed(receipts, epoch_id) + if r.epoch_id
                == epoch_id {
                r.amount_sol as int
            } else {
                0
            },
        forall|epoch_id: u64|
            #![trigger token_claimed(receipts.push(r), epoch_id)]
            token_claimed(receipts.push(r), epoch_id) == token_claimed(receipts, epoch_id) + if r.epoch_id
                == epoch_id {
                r.amount_token as int
            } else {
                0
            },
        forall|epoch_id: u64|
            #![trigger claimant_count(receipts.push(r), epoch_id)]
            claimant_count(receipts.push(r), epoch_id) == claimant_count(receipts, epoch_id) + if r.epoch_id
                == epoch_id {
                1int
            } else {
                0
            },
        sol_paid(receipts.push(r)) == sol_paid(receipts) + r.amount_sol,
        token_paid(receipts.push(r)) == token_paid(receipts) + r.amount_token,
{
    assert(receipts.push(r).drop_last() =~= receipts);
}

proof fn lemma_no_receipts_for(receipts: Seq<ClaimReceipt>, epoch_id: u64)
    requires
        forall|i: int| 0 <= i < receipts.len() ==> #[trigger] receipts[i].epoch_id != epoch_id,
    ensures
        sol_claimed(receipts, epoch_id) == 0,
        token_claimed(receipts, epoch_id) == 0,
        claimant_count(receipts, epoch_id) == 0,
    decreases receipts.len(),
{
    if receipts.len() > 0 {
        let rest = receipts.drop_last();
        assert forall|i: int| 0 <= i < rest.len() implies #[trigger] rest[i].epoch_id != epoch_id by {
            assert(rest[i] == receipts[i]);
        }
        lemma_no_receipts_for(rest, epoch_id);
        assert(receipts.last() == receipts[receipts.len() - 1]);
    }
}

/// The distribution engine: global state, the epochs published so far
/// (epoch `e` at index `e - 1`), the claim receipts and the vault.
pub struct Distributor {
    pub state: DistributorState,
    pub epochs: Vec<EpochState>,
    pub receipts: Vec<ClaimReceipt>,
    pub vault: VaultAccount,
}

impl Distributor {
    /// The engine's invariant: epochs exist exactly for ids 1 to
    /// `current_epoch`, each receipt belongs to a published epoch and is the
    /// only one for its (epoch, wallet) key, and every running total equals
    /// what the receipts record.
    pub open spec fn wf(&self) -> bool {
        &&& self.epochs@.len() == self.state.current_epoch
        &&& forall|i: int|
            0 <= i < self.epochs@.len() ==> {
                let e = #[trigger] self.epochs@[i];
                &&& e.epoch_id == i + 1
                &&& e.start_slot <= e.end_slot
                &&& e.claimed_sol == sol_claimed(self.receipts@, e.epoch_id)
                &&& e.claimed_token == token_claimed(self.receipts@, e.epoch_id)
                &&& e.num_claimants == claimant_count(self.receipts@, e.epoch_id)
            }
        &&& forall|i: int|
            0 <= i < self.receipts@.len() ==> 1 <= (#[trigger] self.receipts@[i]).epoch_id
                <= self.state.current_epoch
        &&& forall|i: int, j: int|
            0 <= i < j < self.receipts@.len() ==> !(#[trigger] self.receipts@[i].epoch_id
                == #[trigger] self.receipts@[j].epoch_id && self.receipts@[i].wallet@
                == self.receipts@[j].wallet@)
        &&& self.state.total_sol_distributed == sol_paid(self.receipts@)
        &&& self.state.total_token_distributed == token_paid(self.receipts@)
    }

    /// Whether an epoch with this id has been published.
    pub open spec fn epoch_exists(&self, epoch_id: u64) -> bool {
        1 <= epoch_id <= self.state.current_epoch
    }

    /// The record of a published epoch.
    pub open spec fn epoch_at(&self, epoch_id: u64) -> EpochState {
        self.epochs@[epoch_id - 1]
    }

    /// The first check a claim fails, if any, in the order: pause, epoch
    /// existence, proof, vault balance, double claim, counter overflow.
    pub open spec fn claim_error(
        &self,
        claimant: Seq<u8>,
        epoch_id: u64,
        amount_sol: u64,
        amount_token: u64,
        proof: Seq<[u8; 32]>,
    ) -> Option<DistributorError> {
        if self.state.paused {
            Some(DistributorError::Paused)
        } else if !self.epoch_exists(epoch_id) {
            Some(DistributorError::EpochNotFound)
        } else if fold_proof(leaf_of(claimant, epoch_id, amount_sol, amount_token), proof)
            != self.epoch_at(epoch_id).merkle_root@ {
            Some(DistributorError::InvalidProof)
        } else if self.vault.sol_balance < amount_sol || self.vault.token_balance < amount_token {
            Some(DistributorError::InsufficientBalance)
        } else if has_receipt(self.receipts@, epoch_id, claimant) {
            Some(DistributorError::AlreadyClaimed)
        } else if self.epoch_at(epoch_id).claimed_sol + amount_sol > u64::MAX
            || self.epoch_at(epoch_id).claimed_token + amount_token > u64::MAX
            || self.epoch_at(epoch_id).num_claimants + 1 > u32::MAX
            || self.state.total_sol_distributed + amount_sol > u64::MAX
            || self.state.total_token_distributed + amount_token > u64::MAX {
            Some(DistributorError::MathOverflow)
        } else {
            None
        }
    }

    /// `post` is `self` after a successful claim: the receipt is added, the
    /// vault debited, and the epoch's and the global totals increased.
    pub open spec fn claim_applied(
        &self,
        post: &Distributor,
        claimant: Pubkey,
        epoch_id: u64,
        amount_sol: u64,
        amount_token: u64,
        now: i64,
    ) -> bool {
        let e = self.epoch_at(epoch_id);
        &&& post.state == (DistributorState {
            total_sol_distributed: (self.state.total_sol_distributed + amount_sol) as u64,
            total_token_distributed: (self.state.total_token_distributed + amount_token) as u64,
            ..self.state
        })
        &&& post.epochs@ == self.epochs@.update(
            epoch_id - 1,
            EpochState {
                claimed_sol: (e.claimed_sol + amount_sol) as u64,
                claimed_token: (e.claimed_token + amount_token) as u64,
                num_claimants: (e.num_claimants + 1) as u32,
                ..e
            },
        )
        &&& post.receipts@ == self.receipts@.push(
            ClaimReceipt {
                wallet: claimant,
                epoch_id,
                amount_sol,
                amount_token,
                claimed_at: now,
            },
        )
        &&& post.vault == (VaultAccount {
            sol_balance: (self.vault.sol_balance - amount_sol) as u64,
            token_balance: (self.vault.token_balance - amount_token) as u64,
        })
    }

    /// The first check a publication fails, if any, in the order: pause,
    /// authority, sequence, slot range.
    pub open spec fn publish_error(&self, caller: Seq<u8>, epoch_id: u64, start_slot: u64, end_slot: u64) -> Option<DistributorError> {
        if self.state.paused {
            Some(DistributorError::Paused)
        } else if caller != self.state.keeper@ && caller != self.state.admin@ {
            Some(DistributorError::Unauthorized)
        } else if epoch_id != self.state.current_epoch + 1 {
            Some(DistributorError::InvalidEpochSequence)
        } else if end_slot < start_slot {
            Some(DistributorError::InvalidSlotRange)
        } else {
            None
        }
    }

    /// Set up the distributor: the caller becomes admin and keeper, no epoch
    /// is published, nothing is distributed, the vault is empty.
    pub fn initialize(admin: Pubkey) -> (r: Distributor)
        ensures
            r.wf(),
            r.state == (DistributorState {
                admin,
                keeper: admin,
                current_epoch: 0,
                total_sol_distributed: 0,
                total_token_distributed: 0,
                paused: false,
            }),
            r.epochs@.len() == 0,
            r.receipts@.len() == 0,
            r.vault.sol_balance == 0,
            r.vault.token_balance == 0,
    {
        Distributor {
            state: DistributorState {
                admin,
                keeper: admin,
                current_epoch: 0,
                total_sol_distributed: 0,
                total_token_distributed: 0,
                paused: false,
            },
            epochs: Vec::new(),
            receipts: Vec::new(),
            vault: VaultAccount::new(),
        }
    }

    /// Whether a receipt exists for the wallet in the epoch.
    pub fn has_claimed(&self, epoch_id: u64, wallet: &Pubkey) -> (r: bool)
        ensures
            r == has_receipt(self.receipts@, epoch_id, wallet@),
    {
        let mut i: usize = 0;
        while i < self.receipts.len()
            invariant
                0 <= i <= self.receipts@.len(),
                forall|j: int|
                    0 <= j < i ==> !(#[trigger] self.receipts@[j].epoch_id == epoch_id
                        && self.receipts@[j].wallet@ == wallet@),
            decreases self.receipts@.len() - i,
        {
            let rc = &self.receipts[i];
            if rc.epoch_id == epoch_id && rc.wallet.same_as(wallet) {
                assert(self.receipts@[i as int].epoch_id == epoch_id);
                return true;
            }
            i += 1;
        }
        false
    }

    /// Publish the next epoch with its Merkle root and declared totals.
    pub fn publish_epoch(
        &mut self,
        caller: &Pubkey,
        epoch_id: u64,
        merkle_root: [u8; 32],
        total_rewards_sol: u64,
        total_rewards_token: u64,
        start_slot: u64,
        end_slot: u64,
        now: i64,
    ) -> (r: Result<(), DistributorError>)
        requires
            old(self).wf(),
        ensures
            final(self).wf(),
            match old(self).publish_error(caller@, epoch_id, start_slot, end_slot) {
                Some(e) => r == Err::<(), DistributorError>(e),
                None => r is Ok,
            },
            r is Err ==> *final(self) == *old(self),
            r is Ok ==> {
                &&& final(self).state == (DistributorState {
                    current_epoch: epoch_id,
                    ..old(self).state
                })
                &&& final(self).epochs@ == old(self).epochs@.push(
                    EpochState {
                        epoch_id,
                        merkle_root,
                        total_rewards_sol,
                        total_rewards_token,
                        claimed_sol: 0,
                        claimed_token: 0,
                        start_slot,
                        end_slot,
                        publish_time: now,
                        num_claimants: 0,
                    },
                )
                &&& final(self).receipts@ == old(self).receipts@
                &&& final(self).vault == old(self).vault
            },
    {
        if self.state.paused {
            return Err(DistributorError::Paused);
        }
        if !caller.same_as(&self.state.keeper) && !caller.same_as(&self.state.admin) {
            return Err(DistributorError::Unauthorized);
        }
        if self.state.current_epoch == u64::MAX || epoch_id != self.state.current_epoch + 1 {
            return Err(DistributorError::InvalidEpochSequence);
        }
        if end_slot < start_slot {
            return Err(DistributorError::InvalidSlotRange);
        }
        let epoch = EpochState {
            epoch_id,
            merkle_root,
            total_rewards_sol,
            total_rewards_token,
            claimed_sol: 0,
            claimed_token: 0,
            start_slot,
            end_slot,
            publish_time: now,
            num_claimants: 0,
        };
        proof {
            lemma_no_receipts_for(self.receipts@, epoch_id);
        }
        self.epochs.push(epoch);
        self.state.current_epoch = epoch_id;
        Ok(())
    }

    /// Claim a wallet's entitlement for an epoch with a Merkle proof. On
    /// success the receipt is created, the vault debited and all totals
    /// increased, together; on any error nothing changes.
    pub fn claim(
        &mut self,
        claimant: &Pubkey,
        epoch_id: u64,
        amount_sol: u64,
        amount_token: u64,
        proof: Vec<[u8; 32]>,
        now: i64,
    ) -> (r: Result<(), DistributorError>)
        requires
            old(self).wf(),
        ensures
            final(self).wf(),
            match old(self).claim_error(claimant@, epoch_id, amount_sol, amount_token, proof@) {
                Some(e) => r == Err::<(), DistributorError>(e),
                None => r is Ok,
            },
            r is Err ==> *final(self) == *old(self),
            r is Ok ==> old(self).claim_applied(
                final(self),
                *claimant,
                epoch_id,
                amount_sol,
                amount_token,
                now,
            ),
    {
        if self.state.paused {
            return Err(DistributorError::Paused);
        }
        if epoch_id == 0 || epoch_id > self.state.current_epoch {
            return Err(DistributorError::EpochNotFound);
        }
        let n_epochs = self.epochs.len();
        assert(n_epochs as int == self.state.current_epoch);
        let idx = (epoch_id - 1) as usize;
        assert(idx as int == epoch_id - 1);
        let epoch = self.epochs[idx];
        assert(epoch == self.epoch_at(epoch_id));
        let leaf = compute_leaf(claimant, epoch_id, amount_sol, amount_token);
        if !verify_proof(proof.as_slice(), epoch.merkle_root, leaf) {
            return Err(DistributorError::InvalidProof);
        }
        if self.vault.sol_balance < amount_sol || self.vault.token_balance < amount_token {
            return Err(DistributorError::InsufficientBalance);
        }
        if self.has_claimed(epoch_id, claimant) {
            return Err(DistributorError::AlreadyClaimed);
        }
        let claimed_sol = match epoch.claimed_sol.checked_add(amount_sol) {
            Some(v) => v,
            None => return Err(DistributorError::MathOverflow),
        };
        let claimed_token = match epoch.claimed_token.checked_add(amount_token) {
            Some(v) => v,
            None => return Err(DistributorError::MathOverflow),
        };
        let num_claimants = match epoch.num_claimants.checked_add(1) {
            Some(v) => v,
            None => return Err(DistributorError::MathOverflow),
        };
        let total_sol = match self.state.total_sol_distributed.checked_add(amount_sol) {
            Some(v) => v,
            None => return Err(DistributorError::MathOverflow),
        };
        let total_token = match self.state.total_token_distributed.checked_add(amount_token) {
            Some(v) => v,
            None => return Err(DistributorError::MathOverflow),
        };
        let receipt = ClaimReceipt {
            wallet: *claimant,
            epoch_id,
            amount_sol,
            amount_token,
            claimed_at: now,
        };
        let ghost old_receipts = self.receipts@;
        proof {
            lemma_push_receipt(old_receipts, receipt);
        }
        self.vault.sol_balance = self.vault.sol_balance - amount_sol;
        self.vault.token_balance = self.vault.token_balance - amount_token;
        self.epochs.set(
            idx,
            EpochState { claimed_sol, claimed_token, num_claimants, ..epoch },
        );
        self.state.total_sol_distributed = total_sol;
        self.state.total_token_distributed = total_token;
        self.receipts.push(receipt);
        Ok(())
    }

    /// Add native currency to the vault; anyone may fund it.
    pub fn fund_sol_vault(&mut self, amount: u64) -> (r: Result<(), DistributorError>)
        requires
            old(self).wf(),
        ensures
            final(self).wf(),
            amount == 0 ==> r == Err::<(), DistributorError>(DistributorError::ZeroAmount),
            amount != 0 && old(self).vault.sol_balance + amount > u64::MAX ==> r == Err::<
                (),
                DistributorError,
            >(DistributorError::MathOverflow),
            amount != 0 && old(self).vault.sol_balance + amount <= u64::MAX ==> r is Ok,
            r is Err ==> *final(self) == *old(self),
            r is Ok ==> *final(self) == (Distributor {
                vault: VaultAccount {
                    sol_balance: (old(self).vault.sol_balance + amount) as u64,
                    ..old(self).vault
                },
                ..*old(self)
            }),
    {
        self.vault.fund(Asset::Sol, amount)
    }

    /// Add tokens to the vault; anyone may fund it.
    pub fn fund_token_vault(&mut self, amount: u64) -> (r: Result<(), DistributorError>)
        requires
            old(self).wf(),
        ensures
            final(self).wf(),
            amount == 0 ==> r == Err::<(), DistributorError>(DistributorError::ZeroAmount),
            amount != 0 && old(self).vault.token_balance + amount > u64::MAX ==> r == Err::<
                (),
                DistributorError,
            >(DistributorError::MathOverflow),
            amount != 0 && old(self).vault.token_balance + amount <= u64::MAX ==> r is Ok,
            r is Err ==> *final(self) == *old(self),
            r is Ok ==> *final(self) == (Distributor {
                vault: VaultAccount {
                    token_balance: (old(self).vault.token_balance + amount) as u64,
                    ..old(self).vault
                },
                ..*old(self)
            }),
    {
        self.vault.fund(Asset::Token, amount)
    }

    /// Take `amount` of `asset` out of the vault for the admin; a zero amount
    /// or more than the vault holds is refused.
    pub fn withdraw(&mut self, caller: &Pubkey, asset: Asset, amount: u64) -> (r: Result<(), DistributorError>)
        requires
            old(self).wf(),
        ensures
            final(self).wf(),
            caller@ != old(self).state.admin@ ==> r == Err::<(), DistributorError>(
                DistributorError::Unauthorized,
            ),
            caller@ == old(self).state.admin@ && amount == 0 ==> r == Err::<(), DistributorError>(
                DistributorError::ZeroAmount,
            ),
            caller@ == old(self).state.admin@ && amount != 0 && amount > old(self).vault.balance_of(
                asset,
            ) ==> r == Err::<(), DistributorError>(DistributorError::InsufficientBalance),
            caller@ == old(self).state.admin@ && amount != 0 && amount <= old(self).vault.balance_of(
                asset,
            ) ==> r is Ok,
            r is Err ==> *final(self) == *old(self),
            r is Ok ==> *final(self) == (Distributor {
                vault: old(self).vault.with_balance(
                    asset,
                    (old(self).vault.balance_of(asset) - amount) as u64,
                ),
                ..*old(self)
            }),
    {
        if !caller.same_as(&self.state.admin) {
            return Err(DistributorError::Unauthorized);
        }
        if amount == 0 {
            return Err(DistributorError::ZeroAmount);
        }
        self.vault.debit(asset, amount)
    }

    /// Hand admin authority to a new identity; only the admin may, paused or not.
    pub fn update_admin(&mut self, caller: &Pubkey, new_admin: Pubkey) -> (r: Result<(), DistributorError>)
        requires
            old(self).wf(),
        ensures
            final(self).wf(),
            caller@ == old(self).state.admin@ <==> r is Ok,
            r is Err ==> r == Err::<(), DistributorError>(DistributorError::Unauthorized)
                && *final(self) == *old(self),
            r is Ok ==> *final(self) == (Distributor {
                state: DistributorState { admin: new_admin, ..old(self).state },
                ..*old(self)
            }),
    {
        if !caller.same_as(&self.state.admin) {
            return Err(DistributorError::Unauthorized);
        }
        self.state.admin = new_admin;
        Ok(())
    }

    /// Replace the keeper; only the admin may, paused or not.
    pub fn update_keeper(&mut self, caller: &Pubkey, new_keeper: Pubkey) -> (r: Result<(), DistributorError>)
        requires
            old(self).wf(),
        ensures
            final(self).wf(),
            caller@ == old(self).state.admin@ <==> r is Ok,
            r is Err ==> r == Err::<(), DistributorError>(DistributorError::Unauthorized)
                && *final(self) == *old(self),
            r is Ok ==> *final(self) == (Distributor {
                state: DistributorState { keeper: new_keeper, ..old(self).state },
                ..*old(self)
            }),
    {
        if !caller.same_as(&self.state.admin) {
            return Err(DistributorError::Unauthorized);
        }
        self.state.keeper = new_keeper;
        Ok(())
    }

    /// Set or clear the pause flag; only the admin may, paused or not.
    pub fn set_paused(&mut self, caller: &Pubkey, paused: bool) -> (r: Result<(), DistributorError>)
        requires
            old(self).wf(),
        ensures
            final(self).wf(),
            caller@ == old(self).state.admin@ <==> r is Ok,
            r is Err ==> r == Err::<(), DistributorError>(DistributorError::Unauthorized)
                && *final(self) == *old(self),
            r is Ok ==> *final(self) == (Distributor {
                state: DistributorState { paused, ..old(self).state },
                ..*old(self)
            }),
    {
        if !caller.same_as(&self.state.admin) {
            return Err(DistributorError::Unauthorized);
        }
        self.state.paused = paused;
        Ok(())
    }

    /// The id of the last published epoch.
    pub fn current_epoch(&self) -> (r: u64)
        ensures
            r == self.state.current_epoch,
    {
        self.state.current_epoch
    }

    /// The record of an epoch, if it has been published.
    pub fn epoch(&self, epoch_id: u64) -> (r: Option<EpochState>)
        requires
            self.wf(),
        ensures
            self.epoch_exists(epoch_id) ==> r == Some(self.epoch_at(epoch_id)),
            !self.epoch_exists(epoch_id) ==> r is None,
    {
        if epoch_id == 0 || epoch_id > self.state.current_epoch {
            return None;
        }
        let n_epochs = self.epochs.len();
        assert(n_epochs as int == self.state.current_epoch);
        Some(self.epochs[(epoch_id - 1) as usize])
    }
}

} // verus!
