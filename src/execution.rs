//! Applying an approved batch to its registry: the actions in order, all or
//! nothing, after which every proposal up to the registry's latest
//! transaction is stale.
use vstd::prelude::*;

use crate::config_transaction::{ConfigAction, ConfigTransaction};
use crate::error::{takes_effect, ErrorCode};
use crate::keys::{lemma_add_key, lemma_remove_key};
use crate::multisig::{Multisig, MultisigView};
use crate::proposal::{Proposal, ProposalStatus};
use crate::pubkey::Pubkey;

verus! {

/// What one action does to a registry. Spending-limit actions concern
/// separate accounts and leave the registry as it is.
pub open spec fn apply_action(m: MultisigView, a: ConfigAction) -> Result<MultisigView, ErrorCode> {
    match a {
        ConfigAction::AddMember { new_member } => m.add_member_result(new_member),
        ConfigAction::RemoveMember { old_member } => m.remove_member_result(old_member),
        ConfigAction::ChangeThreshold { new_threshold } => m.set_threshold_result(new_threshold),
        ConfigAction::SetTimeLock { new_time_lock } => Ok(MultisigView { time_lock: new_time_lock, ..m }),
        ConfigAction::AddSpendingLimit { .. } => Ok(m),
        ConfigAction::RemoveSpendingLimit { .. } => Ok(m),
    }
}

/// The actions applied in order; the first failure is the outcome.
pub open spec fn apply_actions(m: MultisigView, actions: Seq<ConfigAction>) -> Result<MultisigView, ErrorCode>
    decreases actions.len(),
{
    if actions.len() == 0 {
        Ok(m)
    } else {
        match apply_actions(m, actions.drop_last()) {
            Ok(m1) => apply_action(m1, actions.last()),
            Err(e) => Err(e),
        }
    }
}

/// The watermark after executing a batch: the registry's latest transaction
/// index, unless the watermark already lies beyond it.
pub open spec fn watermark_after_execution(m: MultisigView) -> u64 {
    if m.transaction_index > m.stale_transaction_index {
        m.transaction_index
    } else {
        m.stale_transaction_index
    }
}

/// The outcome, for the registry, of `member` executing `actions` under a
/// proposal of status `status` for transaction `index`.
pub open spec fn execute_result(
    m: MultisigView,
    member: Pubkey,
    status: ProposalStatus,
    index: u64,
    actions: Seq<ConfigAction>,
) -> Result<MultisigView, ErrorCode> {
    if !m.is_member(member) {
        Err(ErrorCode::NotAMember)
    } else if status != ProposalStatus::Approved {
        Err(ErrorCode::InvalidProposalStatus)
    } else if m.is_stale(index) {
        Err(ErrorCode::StaleProposal)
    } else {
        match apply_actions(m, actions) {
            Ok(m1) => Ok(MultisigView { stale_transaction_index: watermark_after_execution(m1), ..m1 }),
            Err(e) => Err(e),
        }
    }
}

pub proof fn lemma_apply_action_wf(m: MultisigView, a: ConfigAction)
    requires
        m.wf(),
    ensures
        apply_action(m, a) is Ok ==> apply_action(m, a)->Ok_0.wf(),
        apply_action(m, a) is Ok ==> apply_action(m, a)->Ok_0.stale_transaction_index
            == m.stale_transaction_index,
        apply_action(m, a) is Ok ==> apply_action(m, a)->Ok_0.transaction_index == m.transaction_index,
{
    match a {
        ConfigAction::AddMember { new_member } => {
            lemma_add_key(m.members, new_member);
        },
        ConfigAction::RemoveMember { old_member } => {
            lemma_remove_key(m.members, old_member);
        },
        _ => {},
    }
}

pub proof fn lemma_apply_actions_err_prefix(m: MultisigView, actions: Seq<ConfigAction>, i: int)
    requires
        0 <= i <= actions.len(),
        apply_actions(m, actions.subrange(0, i)) is Err,
    ensures
        apply_actions(m, actions) == apply_actions(m, actions.subrange(0, i)),
    decreases actions.len(),
{
    if i == actions.len() {
        assert(actions.subrange(0, i) =~= actions);
    } else {
        assert(actions.drop_last().subrange(0, i) =~= actions.subrange(0, i));
        lemma_apply_actions_err_prefix(m, actions.drop_last(), i);
    }
}

impl Multisig {
    /// Applies one action (see `apply_action`).
    pub fn apply_action(&mut self, action: &ConfigAction) -> (r: Result<(), ErrorCode>)
        requires
            old(self)@.wf(),
        ensures
            takes_effect(r, old(self)@, final(self)@, apply_action(old(self)@, *action)),
            final(self)@.wf(),
    {
        match action {
            ConfigAction::AddMember { new_member } => self.add_member(*new_member),
            ConfigAction::RemoveMember { old_member } => self.remove_member(*old_member),
            ConfigAction::ChangeThreshold { new_threshold } => self.set_threshold(*new_threshold),
            ConfigAction::SetTimeLock { new_time_lock } => {
                self.set_time_lock(*new_time_lock);
                Ok(())
            },
            ConfigAction::AddSpendingLimit { .. } => Ok(()),
            ConfigAction::RemoveSpendingLimit { .. } => Ok(()),
        }
    }
}

/// Executes, on behalf of a member, an approved and not yet stale batch
/// against its registry: all of its
/// actions in order, or none of them if one fails; then every proposal up to
/// the registry's latest transaction becomes stale. Any time lock is left to
/// the caller.
pub fn execute_config_transaction(
    multisig: &mut Multisig,
    member: &Pubkey,
    proposal: &Proposal,
    transaction: &ConfigTransaction,
) -> (r: Result<(), ErrorCode>)
    requires
        old(multisig)@.wf(),
        proposal.transaction_index == transaction.index,
    ensures
        takes_effect(
            r,
            old(multisig)@,
            final(multisig)@,
            execute_result(
                old(multisig)@,
                *member,
                proposal.status,
                transaction.index,
                transaction.actions@,
            ),
        ),
        final(multisig)@.wf(),
{
    if !multisig.is_member(member) {
        return Err(ErrorCode::NotAMember);
    }
    if proposal.status != ProposalStatus::Approved {
        return Err(ErrorCode::InvalidProposalStatus);
    }
    if transaction.index <= multisig.stale_transaction_index {
        return Err(ErrorCode::StaleProposal);
    }
    let mut work = multisig.duplicate();
    let actions = &transaction.actions;
    let mut i: usize = 0;
    proof {
        assert(actions@.subrange(0, 0) =~= Seq::<ConfigAction>::empty());
    }
    while i < actions.len()
        invariant
            i <= actions@.len(),
            multisig@ == old(multisig)@,
            multisig@.wf(),
            actions@ == transaction.actions@,
            multisig@.is_member(*member),
            proposal.status == ProposalStatus::Approved,
            !multisig@.is_stale(transaction.index),
            work@.wf(),
            apply_actions(multisig@, actions@.subrange(0, i as int)) == Ok::<MultisigView, ErrorCode>(work@),
        decreases actions.len() - i,
    {
        proof {
            assert(actions@.subrange(0, i + 1).drop_last() =~= actions@.subrange(0, i as int));
        }
        match work.apply_action(&actions[i]) {
            Ok(()) => {},
            Err(e) => {
                proof {
                    assert(actions@.subrange(0, i + 1).last() == actions@[i as int]);
                    lemma_apply_actions_err_prefix(multisig@, actions@, i + 1);
                }
                return Err(e);
            },
        }
        i = i + 1;
    }
    proof {
        assert(actions@.subrange(0, actions@.len() as int) =~= actions@);
    }
    if work.transaction_index > work.stale_transaction_index {
        work.stale_transaction_index = work.transaction_index;
    }
    *multisig = work;
    Ok(())
}

} // verus!
