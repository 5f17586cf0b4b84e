//! The custodial vault holding the two asset classes paid out by claims.
use crate::error::DistributorError;
use vstd::prelude::*;

verus! {

/// The two asset classes the vault holds.
#[derive(Debug, Clone, Copy, PartialEq, Eq, Structural)]
pub enum Asset {
    Sol,
    Token,
}

/// Balances of the native currency and of the fungible token.
#[derive(Debug, Clone, Copy)]
pub struct VaultAccount {
    pub sol_balance: u64,
    pub token_balance: u64,
}

impl VaultAccount {
    pub open spec fn balance_of(self, asset: Asset) -> u64 {
        match asset {
            Asset::Sol => self.sol_balance,
            Asset::Token => self.token_balance,
        }
    }

    /// The vault with `asset`'s balance set to `value` and the other one kept.
    pub open spec fn with_balance(self, asset: Asset, value: u64) -> VaultAccount {
        match asset {
            Asset::Sol => VaultAccount { sol_balance: value, ..self },
            Asset::Token => VaultAccount { token_balance: value, ..self },
        }
    }

    /// An empty vault.
    pub fn new() -> (r: VaultAccount)
        ensures
            r.sol_balance == 0,
            r.token_balance == 0,
    {
        VaultAccount { sol_balance: 0, token_balance: 0 }
    }

    /// The balance held of one asset.
    pub fn balance(&self, asset: Asset) -> (r: u64)
        ensures
            r == self.balance_of(asset),
    {
        match asset {
            Asset::Sol => self.sol_balance,
            Asset::Token => self.token_balance,
        }
    }

    fn set_balance(&mut self, asset: Asset, value: u64)
        ensures
            *final(self) == old(self).with_balance(asset, value),
    {
        match asset {
            Asset::Sol => self.sol_balance = value,
            Asset::Token => self.token_balance = value,
        }
    }

    /// Add `amount` of `asset`; anyone may fund the vault.
    pub fn fund(&mut self, asset: Asset, amount: u64) -> (r: Result<(), DistributorError>)
        ensures
            amount == 0 ==> r == Err::<(), DistributorError>(DistributorError::ZeroAmount),
            amount != 0 && old(self).balance_of(asset) + amount > u64::MAX ==> r == Err::<
                (),
                DistributorError,
            >(DistributorError::MathOverflow),
            amount != 0 && old(self).balance_of(asset) + amount <= u64::MAX ==> r is Ok,
            r is Ok ==> *final(self) == old(self).with_balance(
                asset,
                (old(self).balance_of(asset) + amount) as u64,
            ),
            r is Err ==> *final(self) == *old(self),
    {
        if amount == 0 {
            return Err(DistributorError::ZeroAmount);
        }
        match self.balance(asset).checked_add(amount) {
            Some(v) => {
                self.set_balance(asset, v);
                Ok(())
            },
            None => Err(DistributorError::MathOverflow),
        }
    }

    /// Remove `amount` of `asset`, refused when the vault holds less.
    pub fn debit(&mut self, asset: Asset, amount: u64) -> (r: Result<(), DistributorError>)
        ensures
            amount > old(self).balance_of(asset) ==> r == Err::<(), DistributorError>(
                DistributorError::InsufficientBalance,
            ),
            amount <= old(self).balance_of(asset) ==> r is Ok,
            r is Ok ==> *final(self) == old(self).with_balance(
                asset,
                (old(self).balance_of(asset) - amount) as u64,
            ),
            r is Err ==> *final(self) == *old(self),
    {
        let b = self.balance(asset);
        if amount > b {
            return Err(DistributorError::InsufficientBalance);
        }
        self.set_balance(asset, b - amount);
        Ok(())
    }
}

} // verus!
