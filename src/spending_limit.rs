//! Spending-limit descriptors, defined and removed by a registry's
//! configuration authority.
use vstd::prelude::*;

use crate::constants::MAX_MEMBERS;
use crate::error::ErrorCode;
use crate::multisig::Multisig;
use crate::pubkey::{keys_equal, Pubkey};

verus! {

#[derive(Debug)]
pub struct SpendingLimit {
    /// Registry this spending limit belongs to.
    pub multisig: Pubkey,
    /// Key used to seed the spending limit's address.
    pub create_key: Pubkey,
    /// Index of the vault it applies to.
    pub vault_index: u8,
    /// Token mint it is for.
    pub mint: Pubkey,
    /// Largest amount allowed in a reset period.
    pub amount: u64,
    /// Amount still available in the current period.
    pub remaining_amount: u64,
    /// Time of the last reset (or of creation).
    pub last_reset: i64,
    /// Bump seed of its derived address.
    pub bump: u8,
    /// Members allowed to spend under this limit.
    pub members: Vec<Pubkey>,
    /// Allowed destinations of transfers under this limit.
    pub destinations: Vec<Pubkey>,
}

/// The accounts of a spending-limit definition.
#[derive(Debug)]
pub struct MultisigAddSpendingLimit {
    pub multisig: Multisig,
    /// Address of the registry.
    pub multisig_key: Pubkey,
    pub config_authority: Pubkey,
    pub create_key: Pubkey,
    pub spending_limit: SpendingLimit,
}

impl MultisigAddSpendingLimit {
    /// Succeeds exactly when the signer is the registry's configuration
    /// authority.
    pub fn check_current_authority(&self) -> (r: Result<(), ErrorCode>)
        ensures
            r == if self.multisig.config_authority == self.config_authority {
                Ok::<(), ErrorCode>(())
            } else {
                Err(ErrorCode::InvalidAuthority)
            },
    {
        if keys_equal(&self.multisig.config_authority, &self.config_authority) {
            Ok(())
        } else {
            Err(ErrorCode::InvalidAuthority)
        }
    }

    /// Fills in the spending limit, with its full amount remaining and `now`
    /// as its last reset. At most `MAX_MEMBERS` members may spend under it.
    pub fn multisig_add_spending_limit(
        &mut self,
        spending_limit_bump: u8,
        vault_index: u8,
        mint: Pubkey,
        amount: u64,
        members: Vec<Pubkey>,
        destinations: Vec<Pubkey>,
        now: i64,
    ) -> (r: Result<(), ErrorCode>)
        ensures
            final(self).multisig@ == old(self).multisig@,
            final(self).multisig_key == old(self).multisig_key,
            final(self).config_authority == old(self).config_authority,
            final(self).create_key == old(self).create_key,
            members@.len() > MAX_MEMBERS ==> r == Err::<(), ErrorCode>(ErrorCode::ExceedsMaxMembers)
                && final(self).spending_limit == old(self).spending_limit,
            members@.len() <= MAX_MEMBERS ==> {
                let sl = final(self).spending_limit;
                &&& r is Ok
                &&& sl.multisig == old(self).multisig_key
                &&& sl.create_key == old(self).create_key
                &&& sl.vault_index == vault_index
                &&& sl.mint == mint
                &&& sl.amount == amount
                &&& sl.remaining_amount == amount
                &&& sl.last_reset == now
                &&& sl.bump == spending_limit_bump
                &&& sl.members@ == members@
                &&& sl.destinations@ == destinations@
            },
    {
        if members.len() > MAX_MEMBERS {
            return Err(ErrorCode::ExceedsMaxMembers);
        }
        self.spending_limit.multisig = self.multisig_key;
        self.spending_limit.create_key = self.create_key;
        self.spending_limit.vault_index = vault_index;
        self.spending_limit.mint = mint;
        self.spending_limit.amount = amount;
        self.spending_limit.remaining_amount = amount;
        self.spending_limit.last_reset = now;
        self.spending_limit.bump = spending_limit_bump;
        self.spending_limit.members = members;
        self.spending_limit.destinations = destinations;
        Ok(())
    }
}

/// The accounts of a spending-limit removal.
#[derive(Debug)]
pub struct MultisigRemoveSpendingLimit {
    pub multisig: Multisig,
    /// Address of the registry.
    pub multisig_key: Pubkey,
    pub config_authority: Pubkey,
    pub spending_limit: SpendingLimit,
    /// Account that receives the closed spending limit's balance.
    pub rent_collector: Pubkey,
}

impl MultisigRemoveSpendingLimit {
    /// Succeeds exactly when the signer is the registry's configuration
    /// authority.
    pub fn check_current_authority(&self) -> (r: Result<(), ErrorCode>)
        ensures
            r == if self.multisig.config_authority == self.config_authority {
                Ok::<(), ErrorCode>(())
            } else {
                Err(ErrorCode::InvalidAuthority)
            },
    {
        if keys_equal(&self.multisig.config_authority, &self.config_authority) {
            Ok(())
        } else {
            Err(ErrorCode::InvalidAuthority)
        }
    }

    /// Succeeds exactly when the spending limit belongs to this registry;
    /// closing its account is then up to the caller.
    pub fn multisig_remove_spending_limit(&mut self, _memo: Option<String>) -> (r: Result<(), ErrorCode>)
        ensures
            final(self).multisig@ == old(self).multisig@,
            final(self).multisig_key == old(self).multisig_key,
            final(self).config_authority == old(self).config_authority,
            final(self).spending_limit == old(self).spending_limit,
            final(self).rent_collector == old(self).rent_collector,
            r == if old(self).spending_limit.multisig == old(self).multisig_key {
                Ok::<(), ErrorCode>(())
            } else {
                Err(ErrorCode::InvalidSpendingLimit)
            },
    {
        if keys_equal(&self.spending_limit.multisig, &self.multisig_key) {
            Ok(())
        } else {
            Err(ErrorCode::InvalidSpendingLimit)
        }
    }
}

} // verus!
