//! Threshold-voting governance for a multisig: a registry of members with a
//! quorum threshold, batches of configuration actions indexed per registry,
//! and the proposal state machine that turns member votes into a decision.
pub mod config_transaction;
pub mod constants;
pub mod error;
pub mod execution;
pub mod keys;
pub mod laws;
pub mod multisig;
pub mod program;
pub mod program_config;
pub mod proposal;
pub mod pubkey;
pub mod spending_limit;

pub use config_transaction::{ConfigAction, ConfigTransaction, ConfigTransactionCreate};
pub use constants::{DISCRIMINATOR, MAX_MEMBERS};
pub use error::ErrorCode;
pub use execution::execute_config_transaction;
pub use multisig::{Multisig, MultisigCreate, MultisigEdit};
pub use program::{
    config_transaction_create, multisig_add_member, multisig_add_spending_limit, multisig_create,
    multisig_remove_member, multisig_remove_spending_limit, multisig_set_config_authority,
    multisig_set_threshold, multisig_set_time_lock, program_config_init,
    program_config_set_authority, program_config_set_creation_fee, program_config_set_treasury,
    proposal_activate, proposal_approve, proposal_cancel, proposal_create, proposal_reject,
};
pub use program_config::{ProgramConfig, ProgramConfigEdit, ProgramConfigInit};
pub use proposal::{
    Proposal, ProposalActivate, ProposalCreate, ProposalStatus, ProposalVote, Vote,
};
pub use pubkey::Pubkey;
pub use spending_limit::{MultisigAddSpendingLimit, MultisigRemoveSpendingLimit, SpendingLimit};
