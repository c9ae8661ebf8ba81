//! The instructions of the program: each checks who may act and whether the
//! state allows it, then performs the change, or fails leaving everything
//! as it was.
use vstd::prelude::*;

use crate::config_transaction::{batch_error, create_batch_result, ConfigAction, ConfigTransactionCreate};
use crate::constants::MAX_MEMBERS;
use crate::error::{takes_effect, ErrorCode};
use crate::multisig::{new_multisig_result, MultisigCreate, MultisigEdit, MultisigView};
use crate::program_config::{ProgramConfig, ProgramConfigEdit, ProgramConfigInit};
use crate::proposal::{
    activate_result, new_proposal, vote_result, ProposalActivate, ProposalCreate, ProposalVote, Vote,
};
use crate::pubkey::Pubkey;
use crate::spending_limit::{MultisigAddSpendingLimit, MultisigRemoveSpendingLimit};

verus! {

/// The outcome of a configuration edit `outcome` made by `ctx`'s signer.
pub open spec fn config_edit_result(ctx: ProgramConfigEdit, outcome: ProgramConfig) -> Result<
    ProgramConfig,
    ErrorCode,
> {
    if ctx.program_config.authority != ctx.current_authority {
        Err(ErrorCode::InvalidAuthority)
    } else {
        Ok(outcome)
    }
}

/// The outcome of a registry edit `outcome` made by `ctx`'s signer.
pub open spec fn multisig_edit_result(ctx: MultisigEdit, outcome: Result<MultisigView, ErrorCode>) -> Result<
    MultisigView,
    ErrorCode,
> {
    if ctx.multisig.config_authority != ctx.config_authority {
        Err(ErrorCode::InvalidAuthority)
    } else {
        outcome
    }
}

pub fn program_config_init(
    ctx: &mut ProgramConfigInit,
    authority: Pubkey,
    creation_fee: u64,
    treasury: Pubkey,
) -> (r: Result<(), ErrorCode>)
    ensures
        final(ctx).initializer == old(ctx).initializer,
        takes_effect(
            r,
            old(ctx).program_config,
            final(ctx).program_config,
            if authority.is_zero() {
                Err(ErrorCode::InvalidAuthority)
            } else if treasury.is_zero() {
                Err(ErrorCode::InvalidTreasury)
            } else {
                Ok(ProgramConfig { authority, creation_fee, treasury })
            },
        ),
{
    ctx.init_program_config(authority, creation_fee, treasury)
}

pub fn program_config_set_authority(ctx: &mut ProgramConfigEdit, new_authority: Pubkey) -> (r: Result<
    (),
    ErrorCode,
>)
    ensures
        final(ctx).current_authority == old(ctx).current_authority,
        takes_effect(
            r,
            old(ctx).program_config,
            final(ctx).program_config,
            config_edit_result(
                *old(ctx),
                ProgramConfig { authority: new_authority, ..old(ctx).program_config },
            ),
        ),
{
    ctx.check_current_authority()?;
    ctx.set_program_config_authority(new_authority)
}

pub fn program_config_set_creation_fee(ctx: &mut ProgramConfigEdit, new_creation_fee: u64) -> (r:
    Result<(), ErrorCode>)
    ensures
        final(ctx).current_authority == old(ctx).current_authority,
        takes_effect(
            r,
            old(ctx).program_config,
            final(ctx).program_config,
            config_edit_result(
                *old(ctx),
                ProgramConfig { creation_fee: new_creation_fee, ..old(ctx).program_config },
            ),
        ),
{
    ctx.check_current_authority()?;
    ctx.set_program_config_creation_fee(new_creation_fee)
}

pub fn program_config_set_treasury(ctx: &mut ProgramConfigEdit, new_treasury: Pubkey) -> (r: Result<
    (),
    ErrorCode,
>)
    ensures
        final(ctx).current_authority == old(ctx).current_authority,
        takes_effect(
            r,
            old(ctx).program_config,
            final(ctx).program_config,
            match config_edit_result(
                *old(ctx),
                ProgramConfig { treasury: new_treasury, ..old(ctx).program_config },
            ) {
                Err(e) => Err(e),
                Ok(c) => if new_treasury.is_zero() {
                    Err(ErrorCode::InvalidTreasury)
                } else {
                    Ok(c)
                },
            },
        ),
{
    ctx.check_current_authority()?;
    ctx.set_program_config_treasury(new_treasury)
}

/// Forms a registry; the creation fee, if `ctx.creation_fee_due()` names one,
/// is then to be transferred to the treasury by the caller.
pub fn multisig_create(
    ctx: &mut MultisigCreate,
    config_authority: Pubkey,
    threshold: u16,
    members: Vec<Pubkey>,
    time_lock: u32,
) -> (r: Result<(), ErrorCode>)
    ensures
        final(ctx).program_config == old(ctx).program_config,
        final(ctx).treasury == old(ctx).treasury,
        final(ctx).create_key == old(ctx).create_key,
        final(ctx).creator == old(ctx).creator,
        takes_effect(
            r,
            old(ctx).multisig@,
            final(ctx).multisig@,
            if old(ctx).treasury != old(ctx).program_config.treasury {
                Err(ErrorCode::InvalidTreasury)
            } else {
                new_multisig_result(old(ctx).create_key, config_authority, threshold, members@, time_lock)
            },
        ),
        r is Ok ==> final(ctx).multisig@.wf(),
{
    ctx.create_multisig(config_authority, threshold, members, time_lock)
}

pub fn multisig_add_member(ctx: &mut MultisigEdit, new_member: Pubkey) -> (r: Result<(), ErrorCode>)
    requires
        old(ctx).multisig@.wf(),
    ensures
        final(ctx).config_authority == old(ctx).config_authority,
        takes_effect(
            r,
            old(ctx).multisig@,
            final(ctx).multisig@,
            multisig_edit_result(*old(ctx), old(ctx).multisig@.add_member_result(new_member)),
        ),
        final(ctx).multisig@.wf(),
{
    ctx.check_current_authority()?;
    ctx.add_multisig_member(new_member)
}

pub fn multisig_remove_member(ctx: &mut MultisigEdit, old_member: Pubkey) -> (r: Result<(), ErrorCode>)
    requires
        old(ctx).multisig@.wf(),
    ensures
        final(ctx).config_authority == old(ctx).config_authority,
        takes_effect(
            r,
            old(ctx).multisig@,
            final(ctx).multisig@,
            multisig_edit_result(*old(ctx), old(ctx).multisig@.remove_member_result(old_member)),
        ),
        final(ctx).multisig@.wf(),
{
    ctx.check_current_authority()?;
    ctx.remove_multisig_member(old_member)
}

pub fn multisig_set_threshold(ctx: &mut MultisigEdit, new_threshold: u16) -> (r: Result<(), ErrorCode>)
    requires
        old(ctx).multisig@.wf(),
    ensures
        final(ctx).config_authority == old(ctx).config_authority,
        takes_effect(
            r,
            old(ctx).multisig@,
            final(ctx).multisig@,
            multisig_edit_result(*old(ctx), old(ctx).multisig@.set_threshold_result(new_threshold)),
        ),
        final(ctx).multisig@.wf(),
{
    ctx.check_current_authority()?;
    ctx.set_multisig_threshold(new_threshold)
}

pub fn multisig_set_time_lock(ctx: &mut MultisigEdit, new_time_lock: u32) -> (r: Result<(), ErrorCode>)
    ensures
        final(ctx).config_authority == old(ctx).config_authority,
        takes_effect(
            r,
            old(ctx).multisig@,
            final(ctx).multisig@,
            multisig_edit_result(*old(ctx), Ok(MultisigView { time_lock: new_time_lock, ..old(ctx).multisig@ })),
        ),
        old(ctx).multisig@.wf() ==> final(ctx).multisig@.wf(),
{
    ctx.check_current_authority()?;
    ctx.set_multisig_time_lock(new_time_lock)
}

pub fn multisig_set_config_authority(ctx: &mut MultisigEdit, new_config_authority: Pubkey) -> (r: Result<
    (),
    ErrorCode,
>)
    ensures
        final(ctx).config_authority == old(ctx).config_authority,
        takes_effect(
            r,
            old(ctx).multisig@,
            final(ctx).multisig@,
            multisig_edit_result(
                *old(ctx),
                Ok(MultisigView { config_authority: new_config_authority, ..old(ctx).multisig@ }),
            ),
        ),
        old(ctx).multisig@.wf() ==> final(ctx).multisig@.wf(),
{
    ctx.check_current_authority()?;
    ctx.set_multisig_config_authority(new_config_authority)
}

/// Defines a spending limit; `now` is the current time, recorded as its last
/// reset.
pub fn multisig_add_spending_limit(
    ctx: &mut MultisigAddSpendingLimit,
    spending_limit_bump: u8,
    vault_index: u8,
    mint: Pubkey,
    amount: u64,
    members: Vec<Pubkey>,
    destinations: Vec<Pubkey>,
    now: i64,
) -> (r: Result<(), ErrorCode>)
    ensures
        final(ctx).multisig@ == old(ctx).multisig@,
        final(ctx).multisig_key == old(ctx).multisig_key,
        final(ctx).config_authority == old(ctx).config_authority,
        final(ctx).create_key == old(ctx).create_key,
        old(ctx).multisig.config_authority != old(ctx).config_authority ==> r == Err::<(), ErrorCode>(
            ErrorCode::InvalidAuthority,
        ) && final(ctx).spending_limit == old(ctx).spending_limit,
        old(ctx).multisig.config_authority == old(ctx).config_authority && members@.len() > MAX_MEMBERS
            ==> r == Err::<(), ErrorCode>(ErrorCode::ExceedsMaxMembers) && final(ctx).spending_limit
            == old(ctx).spending_limit,
        old(ctx).multisig.config_authority == old(ctx).config_authority && members@.len()
            <= MAX_MEMBERS ==> {
            let sl = final(ctx).spending_limit;
            &&& r is Ok
            &&& sl.multisig == old(ctx).multisig_key
            &&& sl.create_key == old(ctx).create_key
            &&& sl.vault_index == vault_index
            &&& sl.mint == mint
            &&& sl.amount == amount
            &&& sl.remaining_amount == amount
            &&& sl.last_reset == now
            &&& sl.bump == spending_limit_bump
            &&& sl.members@ == members@
            &&& sl.destinations@ == destinations@
        },
{
    ctx.check_current_authority()?;
    ctx.multisig_add_spending_limit(
        spending_limit_bump,
        vault_index,
        mint,
        amount,
        members,
        destinations,
        now,
    )
}

/// Succeeds when the signer is the configuration authority and the spending
/// limit belongs to the registry; closing its account is then up to the
/// caller.
pub fn multisig_remove_spending_limit(ctx: &mut MultisigRemoveSpendingLimit, memo: Option<String>) -> (r:
    Result<(), ErrorCode>)
    ensures
        final(ctx).multisig@ == old(ctx).multisig@,
        final(ctx).multisig_key == old(ctx).multisig_key,
        final(ctx).config_authority == old(ctx).config_authority,
        final(ctx).spending_limit == old(ctx).spending_limit,
        final(ctx).rent_collector == old(ctx).rent_collector,
        r == if old(ctx).multisig.config_authority != old(ctx).config_authority {
            Err::<(), ErrorCode>(ErrorCode::InvalidAuthority)
        } else if old(ctx).spending_limit.multisig != old(ctx).multisig_key {
            Err(ErrorCode::InvalidSpendingLimit)
        } else {
            Ok(())
        },
{
    ctx.check_current_authority()?;
    ctx.multisig_remove_spending_limit(memo)
}

/// Stores `actions` as a new batch at the registry's next transaction index.
pub fn config_transaction_create(ctx: &mut ConfigTransactionCreate, actions: Vec<ConfigAction>) -> (r:
    Result<(), ErrorCode>)
    requires
        batch_error(old(ctx).multisig@, old(ctx).creator, actions@) is None ==> old(
            ctx,
        ).multisig.transaction_index < u64::MAX,
    ensures
        final(ctx).multisig_key == old(ctx).multisig_key,
        final(ctx).creator == old(ctx).creator,
        takes_effect(
            r,
            old(ctx).multisig@,
            final(ctx).multisig@,
            create_batch_result(old(ctx).multisig@, old(ctx).creator, actions@),
        ),
        r is Err ==> final(ctx).transaction == old(ctx).transaction,
        r is Ok ==> {
            let t = final(ctx).transaction;
            &&& t.multisig == old(ctx).multisig_key
            &&& t.creator == old(ctx).creator
            &&& t.index == final(ctx).multisig.transaction_index
            &&& t.actions@ == actions@
        },
{
    ctx.validate(actions.as_slice())?;
    ctx.create_config_transaction(actions, None)
}

/// Starts the proposal for `transaction_index`, drafted or active.
pub fn proposal_create(
    ctx: &mut ProposalCreate,
    transaction_index: u64,
    draft: bool,
    proposal_bump: u8,
) -> (r: Result<(), ErrorCode>)
    ensures
        final(ctx).multisig@ == old(ctx).multisig@,
        final(ctx).multisig_key == old(ctx).multisig_key,
        final(ctx).creator == old(ctx).creator,
        takes_effect(
            r,
            old(ctx).proposal@,
            final(ctx).proposal@,
            if old(ctx).multisig@.is_member(old(ctx).creator) {
                Ok(new_proposal(old(ctx).multisig_key, transaction_index, draft, proposal_bump))
            } else {
                Err(ErrorCode::NotAMember)
            },
        ),
{
    ctx.validate()?;
    ctx.proposal_create(transaction_index, draft, proposal_bump)
}

/// Moves a draft proposal to active.
pub fn proposal_activate(ctx: &mut ProposalActivate) -> (r: Result<(), ErrorCode>)
    ensures
        final(ctx).multisig@ == old(ctx).multisig@,
        final(ctx).member == old(ctx).member,
        takes_effect(
            r,
            old(ctx).proposal@,
            final(ctx).proposal@,
            activate_result(old(ctx).proposal@, old(ctx).multisig@, old(ctx).member),
        ),
{
    ctx.validate()?;
    ctx.proposal_activate()
}

pub fn proposal_approve(ctx: &mut ProposalVote, _memo: Option<String>) -> (r: Result<(), ErrorCode>)
    ensures
        final(ctx).multisig@ == old(ctx).multisig@,
        final(ctx).member == old(ctx).member,
        takes_effect(
            r,
            old(ctx).proposal@,
            final(ctx).proposal@,
            vote_result(old(ctx).proposal@, old(ctx).multisig@, old(ctx).member, Vote::Approve),
        ),
        old(ctx).proposal@.wf() ==> final(ctx).proposal@.wf(),
{
    ctx.validate(Vote::Approve)?;
    ctx.proposal_approve(_memo)
}

pub fn proposal_reject(ctx: &mut ProposalVote, _memo: Option<String>) -> (r: Result<(), ErrorCode>)
    requires
        old(ctx).multisig@.wf(),
    ensures
        final(ctx).multisig@ == old(ctx).multisig@,
        final(ctx).member == old(ctx).member,
        takes_effect(
            r,
            old(ctx).proposal@,
            final(ctx).proposal@,
            vote_result(old(ctx).proposal@, old(ctx).multisig@, old(ctx).member, Vote::Reject),
        ),
        old(ctx).proposal@.wf() ==> final(ctx).proposal@.wf(),
{
    ctx.validate(Vote::Reject)?;
    ctx.proposal_reject(_memo)
}

pub fn proposal_cancel(ctx: &mut ProposalVote, _memo: Option<String>) -> (r: Result<(), ErrorCode>)
    ensures
        final(ctx).multisig@ == old(ctx).multisig@,
        final(ctx).member == old(ctx).member,
        takes_effect(
            r,
            old(ctx).proposal@,
            final(ctx).proposal@,
            vote_result(old(ctx).proposal@, old(ctx).multisig@, old(ctx).member, Vote::Cancel),
        ),
        old(ctx).proposal@.wf() ==> final(ctx).proposal@.wf(),
{
    ctx.validate(Vote::Cancel)?;
    ctx.proposal_cancel(_memo)
}

} // verus!
