//! The program-wide configuration: who may edit it, the registry creation
//! fee and the treasury that receives it.
use vstd::prelude::*;

use crate::error::ErrorCode;
use crate::pubkey::{keys_equal, Pubkey};

verus! {

#[derive(Clone, Copy, Debug)]
pub struct ProgramConfig {
    /// Authority to update the config.
    pub authority: Pubkey,
    /// Fee charged when a registry is created.
    pub creation_fee: u64,
    /// Account that receives the creation fees.
    pub treasury: Pubkey,
}

/// The accounts of a configuration initialisation.
#[derive(Clone, Copy, Debug)]
pub struct ProgramConfigInit {
    pub program_config: ProgramConfig,
    pub initializer: Pubkey,
}

impl ProgramConfigInit {
    /// Writes the configuration. Neither the authority nor the treasury may be
    /// the default identity.
    pub fn init_program_config(&mut self, authority: Pubkey, creation_fee: u64, treasury: Pubkey) -> (r:
        Result<(), ErrorCode>)
        ensures
            final(self).initializer == old(self).initializer,
            authority.is_zero() ==> r == Err::<(), ErrorCode>(ErrorCode::InvalidAuthority)
                && final(self).program_config == old(self).program_config,
            !authority.is_zero() && treasury.is_zero() ==> r == Err::<(), ErrorCode>(
                ErrorCode::InvalidTreasury,
            ) && final(self).program_config == old(self).program_config,
            !authority.is_zero() && !treasury.is_zero() ==> r is Ok && final(self).program_config
                == (ProgramConfig { authority, creation_fee, treasury }),
    {
        if authority.is_default() {
            return Err(ErrorCode::InvalidAuthority);
        }
        if treasury.is_default() {
            return Err(ErrorCode::InvalidTreasury);
        }
        self.program_config = ProgramConfig { authority, creation_fee, treasury };
        Ok(())
    }
}

/// The accounts of an edit of the configuration by its authority.
#[derive(Clone, Copy, Debug)]
pub struct ProgramConfigEdit {
    pub program_config: ProgramConfig,
    pub current_authority: Pubkey,
}

impl ProgramConfigEdit {
    /// Succeeds exactly when the signer is the configuration's authority.
    pub fn check_current_authority(&self) -> (r: Result<(), ErrorCode>)
        ensures
            r == if self.program_config.authority == self.current_authority {
                Ok::<(), ErrorCode>(())
            } else {
                Err(ErrorCode::InvalidAuthority)
            },
    {
        if keys_equal(&self.program_config.authority, &self.current_authority) {
            Ok(())
        } else {
            Err(ErrorCode::InvalidAuthority)
        }
    }

    pub fn set_program_config_authority(&mut self, new_authority: Pubkey) -> (r: Result<(), ErrorCode>)
        ensures
            r is Ok,
            *final(self) == (ProgramConfigEdit {
                program_config: ProgramConfig { authority: new_authority, ..old(self).program_config },
                ..*old(self)
            }),
    {
        self.program_config.authority = new_authority;
        Ok(())
    }

    pub fn set_program_config_creation_fee(&mut self, new_creation_fee: u64) -> (r: Result<(), ErrorCode>)
        ensures
            r is Ok,
            *final(self) == (ProgramConfigEdit {
                program_config: ProgramConfig { creation_fee: new_creation_fee, ..old(self).program_config },
                ..*old(self)
            }),
    {
        self.program_config.creation_fee = new_creation_fee;
        Ok(())
    }

    /// Replaces the treasury, which may not be the default identity.
    pub fn set_program_config_treasury(&mut self, new_treasury: Pubkey) -> (r: Result<(), ErrorCode>)
        ensures
            new_treasury.is_zero() ==> r == Err::<(), ErrorCode>(ErrorCode::InvalidTreasury)
                && *final(self) == *old(self),
            !new_treasury.is_zero() ==> r is Ok && *final(self) == (ProgramConfigEdit {
                program_config: ProgramConfig { treasury: new_treasury, ..old(self).program_config },
                ..*old(self)
            }),
    {
        if new_treasury.is_default() {
            return Err(ErrorCode::InvalidTreasury);
        }
        self.program_config.treasury = new_treasury;
        Ok(())
    }
}

} // verus!
