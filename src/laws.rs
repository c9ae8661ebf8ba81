//! Properties of the registry and of the proposal state machine, proved
//! over the rules that the operations implement.
use vstd::prelude::*;

use crate::config_transaction::{create_batch_result, ConfigAction};
use crate::error::ErrorCode;
use crate::execution::{
    apply_action, apply_actions, execute_result, lemma_apply_action_wf,
};
use crate::keys::{lemma_add_key, lemma_remove_key, lemma_sorted_insert};
use crate::multisig::{new_multisig_result, MultisigView};
use crate::proposal::{
    activate_result, new_proposal, reject_cutoff, vote_result, ProposalStatus, ProposalView, Vote,
};
use crate::pubkey::Pubkey;

verus! {

pub proof fn lemma_apply_actions_wf(m: MultisigView, actions: Seq<ConfigAction>)
    requires
        m.wf(),
    ensures
        apply_actions(m, actions) is Ok ==> {
            let v = apply_actions(m, actions)->Ok_0;
            &&& v.wf()
            &&& v.stale_transaction_index == m.stale_transaction_index
            &&& v.transaction_index == m.transaction_index
        },
    decreases actions.len(),
{
    if actions.len() > 0 {
        lemma_apply_actions_wf(m, actions.drop_last());
        if apply_actions(m, actions.drop_last()) is Ok {
            lemma_apply_action_wf(apply_actions(m, actions.drop_last())->Ok_0, actions.last());
        }
    }
}

/// Threshold bound: a registry is only formed, and only changed, with a
/// threshold between one and the number of members (and its other
/// invariants). A formation fails with `InvalidThreshold` exactly when the
/// threshold is zero or exceeds the number of members, and an action that
/// would break the bound fails with `InvalidThreshold`.
pub proof fn law_threshold_bound(
    create_key: Pubkey,
    config_authority: Pubkey,
    threshold: u16,
    members: Seq<Pubkey>,
    time_lock: u32,
    m: MultisigView,
    action: ConfigAction,
    member: Pubkey,
    status: ProposalStatus,
    index: u64,
    actions: Seq<ConfigAction>,
)
    requires
        m.wf(),
    ensures
        new_multisig_result(create_key, config_authority, threshold, members, time_lock) is Ok ==> {
            let v = new_multisig_result(create_key, config_authority, threshold, members, time_lock)->Ok_0;
            1 <= v.threshold <= v.members.len() && v.wf()
        },
        new_multisig_result(create_key, config_authority, threshold, members, time_lock)
            == Err::<MultisigView, ErrorCode>(ErrorCode::InvalidThreshold) <==> (threshold == 0
            || threshold > members.len()),
        apply_action(m, action) is Ok ==> {
            let v = apply_action(m, action)->Ok_0;
            1 <= v.threshold <= v.members.len() && v.wf()
        },
        execute_result(m, member, status, index, actions) is Ok ==> {
            let v = execute_result(m, member, status, index, actions)->Ok_0;
            1 <= v.threshold <= v.members.len() && v.wf()
        },
        action matches ConfigAction::ChangeThreshold { new_threshold } && (new_threshold == 0
            || new_threshold > m.members.len()) ==> apply_action(m, action) == Err::<
            MultisigView,
            ErrorCode,
        >(ErrorCode::InvalidThreshold),
        action matches ConfigAction::RemoveMember { old_member } && m.members.contains(old_member)
            && m.members.len() > 1 && m.threshold > m.members.len() - 1 ==> apply_action(m, action)
            == Err::<MultisigView, ErrorCode>(ErrorCode::InvalidThreshold),
{
    lemma_apply_action_wf(m, action);
    lemma_apply_actions_wf(m, actions);
    if let ConfigAction::RemoveMember { old_member } = action {
        lemma_remove_key(m.members, old_member);
    }
}

/// Quorum termination: an approval that brings an active proposal's
/// approvals up to the threshold approves it (and one that does not leaves
/// it active); an approved proposal refuses every later approval, rejection
/// and activation, whatever the registry then holds, so it never returns to
/// `Active`.
pub proof fn law_quorum_termination(
    p: ProposalView,
    m: MultisigView,
    member: Pubkey,
    later: MultisigView,
    voter: Pubkey,
)
    requires
        p.status == ProposalStatus::Active,
        vote_result(p, m, member, Vote::Approve) is Ok,
    ensures
        ({
            let q = vote_result(p, m, member, Vote::Approve)->Ok_0;
            &&& q.approved.len() >= m.threshold ==> q.status == ProposalStatus::Approved
            &&& q.approved.len() < m.threshold ==> q.status == ProposalStatus::Active
            &&& q.status == ProposalStatus::Approved ==> {
                &&& vote_result(q, later, voter, Vote::Approve) is Err
                &&& vote_result(q, later, voter, Vote::Reject) is Err
                &&& activate_result(q, later, voter) is Err
            }
        }),
{
}

/// Veto termination: a rejection that brings an active proposal's
/// rejections up to the number of members less the threshold rejects it; a
/// rejected proposal refuses every later vote and activation, so it stays
/// rejected.
pub proof fn law_veto_termination(
    p: ProposalView,
    m: MultisigView,
    member: Pubkey,
    later: MultisigView,
    voter: Pubkey,
    vote: Vote,
)
    requires
        p.status == ProposalStatus::Active,
        vote_result(p, m, member, Vote::Reject) is Ok,
    ensures
        ({
            let q = vote_result(p, m, member, Vote::Reject)->Ok_0;
            &&& q.rejected.len() >= m.members.len() - m.threshold ==> q.status
                == ProposalStatus::Rejected
            &&& q.status == ProposalStatus::Rejected ==> {
                &&& vote_result(q, later, voter, vote) is Err
                &&& activate_result(q, later, voter) is Err
            }
        }),
{
    assert(reject_cutoff(m) == m.members.len() - m.threshold);
}

/// Vote exclusivity: a new proposal, and every proposal reached from one by
/// activations and votes, has no member among both its approvals and its
/// rejections.
pub proof fn law_vote_exclusivity(
    multisig: Pubkey,
    transaction_index: u64,
    draft: bool,
    bump: u8,
    p: ProposalView,
    m: MultisigView,
    member: Pubkey,
    vote: Vote,
    x: Pubkey,
)
    requires
        p.wf(),
    ensures
        new_proposal(multisig, transaction_index, draft, bump).wf(),
        p.approved.contains(x) ==> !p.rejected.contains(x),
        activate_result(p, m, member) is Ok ==> activate_result(p, m, member)->Ok_0.wf(),
        vote_result(p, m, member, vote) is Ok ==> {
            let q = vote_result(p, m, member, vote)->Ok_0;
            &&& q.wf()
            &&& q.approved.contains(x) ==> !q.rejected.contains(x)
        },
{
    lemma_add_key(p.approved, member);
    lemma_add_key(p.rejected, member);
    if !p.cancelled.contains(member) {
        lemma_sorted_insert(p.cancelled, member);
    }
    lemma_remove_key(p.approved, member);
    lemma_remove_key(p.rejected, member);
}

/// Staleness monotonicity, first half: no operation on a well-formed
/// registry lowers its stale watermark.
pub proof fn law_staleness_monotonic(
    m: MultisigView,
    action: ConfigAction,
    new_watermark: u64,
    member: Pubkey,
    status: ProposalStatus,
    index: u64,
    actions: Seq<ConfigAction>,
    creator: Pubkey,
    batch: Seq<ConfigAction>,
)
    requires
        m.wf(),
    ensures
        apply_action(m, action) is Ok ==> apply_action(m, action)->Ok_0.stale_transaction_index
            >= m.stale_transaction_index,
        m.advance_staleness_result(new_watermark) is Ok ==> m.advance_staleness_result(
            new_watermark,
        )->Ok_0.stale_transaction_index >= m.stale_transaction_index,
        execute_result(m, member, status, index, actions) is Ok ==> execute_result(
            m,
            member,
            status,
            index,
            actions,
        )->Ok_0.stale_transaction_index >= m.stale_transaction_index,
        create_batch_result(m, creator, batch) is Ok ==> create_batch_result(
            m,
            creator,
            batch,
        )->Ok_0.stale_transaction_index == m.stale_transaction_index,
{
    lemma_apply_action_wf(m, action);
    lemma_apply_actions_wf(m, actions);
}

/// Staleness monotonicity, second half: a member's activation of a draft,
/// and a member's approval or rejection of an active proposal, fail with
/// `StaleProposal` when the proposal's transaction is at or below the
/// watermark, whatever votes it holds.
pub proof fn law_stale_proposal_refused(p: ProposalView, m: MultisigView, member: Pubkey)
    requires
        m.is_stale(p.transaction_index),
        m.is_member(member),
    ensures
        p.status == ProposalStatus::Draft ==> activate_result(p, m, member) == Err::<
            ProposalView,
            ErrorCode,
        >(ErrorCode::StaleProposal),
        p.status == ProposalStatus::Active ==> vote_result(p, m, member, Vote::Approve) == Err::<
            ProposalView,
            ErrorCode,
        >(ErrorCode::StaleProposal),
        p.status == ProposalStatus::Active ==> vote_result(p, m, member, Vote::Reject) == Err::<
            ProposalView,
            ErrorCode,
        >(ErrorCode::StaleProposal),
{
}

/// Batch indexing: two batches created one after the other take the two
/// successive transaction indices after the registry's current one, so they
/// are distinct and increasing.
pub proof fn law_batch_indexing(
    m: MultisigView,
    first_creator: Pubkey,
    first_actions: Seq<ConfigAction>,
    second_creator: Pubkey,
    second_actions: Seq<ConfigAction>,
)
    requires
        m.transaction_index + 2 <= u64::MAX,
        create_batch_result(m, first_creator, first_actions) is Ok,
        create_batch_result(
            create_batch_result(m, first_creator, first_actions)->Ok_0,
            second_creator,
            second_actions,
        ) is Ok,
    ensures
        ({
            let m1 = create_batch_result(m, first_creator, first_actions)->Ok_0;
            let m2 = create_batch_result(m1, second_creator, second_actions)->Ok_0;
            &&& m1.transaction_index == m.transaction_index + 1
            &&& m2.transaction_index == m1.transaction_index + 1
            &&& m1.transaction_index < m2.transaction_index
        }),
{
}

} // verus!
