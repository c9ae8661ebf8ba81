//! The proposal state machine: member votes on one transaction and the
//! decision they lead to.
use vstd::prelude::*;

use crate::error::{check_result, takes_effect, ErrorCode};
use crate::keys::{
    add_key, contains_key, insert_sorted, keys_are_ascending, keys_ascending, lemma_add_key,
    lemma_remove_key, lemma_sorted_insert, lemma_sorted_insert_len, remove_key, sorted_insert,
    without_key,
};
use crate::multisig::{Multisig, MultisigView};
use crate::pubkey::Pubkey;

verus! {

/// The status of a proposal.
#[derive(Clone, Copy, Debug, PartialEq, Eq, Structural)]
pub enum ProposalStatus {
    Draft,
    Active,
    Approved,
    Rejected,
    Cancelled,
}

/// A member's vote.
#[derive(Clone, Copy, Debug, PartialEq, Eq, Structural)]
pub enum Vote {
    Approve,
    Reject,
    Cancel,
}

/// A proposal as mathematical values.
pub struct ProposalView {
    pub multisig: Pubkey,
    pub transaction_index: u64,
    pub status: ProposalStatus,
    pub bump: u8,
    pub approved: Seq<Pubkey>,
    pub rejected: Seq<Pubkey>,
    pub cancelled: Seq<Pubkey>,
}

impl ProposalView {
    /// No member is listed twice in a ledger, none is both among the
    /// approvals and the rejections, and the cancellations are kept in
    /// ascending byte-wise order.
    pub open spec fn wf(self) -> bool {
        &&& self.approved.no_duplicates()
        &&& self.rejected.no_duplicates()
        &&& self.cancelled.no_duplicates()
        &&& keys_ascending(self.cancelled)
        &&& forall|x: Pubkey| #[trigger] self.approved.contains(x) ==> !self.rejected.contains(x)
    }

    /// An approval by `member`: it leaves the rejections, joins the approvals
    /// once, and the proposal is approved when the approvals reach
    /// `threshold`.
    pub open spec fn approve_spec(self, member: Pubkey, threshold: int) -> ProposalView {
        let approved = add_key(self.approved, member);
        ProposalView {
            approved,
            rejected: remove_key(self.rejected, member),
            status: if approved.len() >= threshold {
                ProposalStatus::Approved
            } else {
                self.status
            },
            ..self
        }
    }

    /// A rejection by `member`: it leaves the approvals, joins the rejections
    /// once, and the proposal is rejected when the rejections reach `cutoff`.
    pub open spec fn reject_spec(self, member: Pubkey, cutoff: int) -> ProposalView {
        let rejected = add_key(self.rejected, member);
        ProposalView {
            approved: remove_key(self.approved, member),
            rejected,
            status: if rejected.len() >= cutoff {
                ProposalStatus::Rejected
            } else {
                self.status
            },
            ..self
        }
    }

    /// A cancellation by `member`, which may cancel once. It joins the
    /// cancellations at its place in the byte-wise order; the proposal is
    /// cancelled when the cancellations reach `threshold`.
    pub open spec fn cancel_result(self, member: Pubkey, threshold: int) -> Result<
        ProposalView,
        ErrorCode,
    > {
        if self.cancelled.contains(member) {
            Err(ErrorCode::AlreadyCancelled)
        } else {
            let cancelled = sorted_insert(self.cancelled, member);
            Ok(
                ProposalView {
                    cancelled,
                    status: if cancelled.len() >= threshold {
                        ProposalStatus::Cancelled
                    } else {
                        self.status
                    },
                    ..self
                },
            )
        }
    }
}

/// The number of rejections at which a proposal is rejected: the number of
/// members less the threshold. At exactly this count the remaining members
/// could in principle still reach the threshold; the proposal is rejected
/// all the same.
pub open spec fn reject_cutoff(m: MultisigView) -> int {
    m.members.len() - m.threshold
}

/// Why `member` may not activate `p` under registry `m`, if it may not.
pub open spec fn activate_error(p: ProposalView, m: MultisigView, member: Pubkey) -> Option<ErrorCode> {
    if !m.is_member(member) {
        Some(ErrorCode::NotAMember)
    } else if p.status != ProposalStatus::Draft {
        Some(ErrorCode::InvalidProposalStatus)
    } else if m.is_stale(p.transaction_index) {
        Some(ErrorCode::StaleProposal)
    } else {
        None
    }
}

/// The outcome of `member` activating `p` under registry `m`.
pub open spec fn activate_result(p: ProposalView, m: MultisigView, member: Pubkey) -> Result<
    ProposalView,
    ErrorCode,
> {
    match activate_error(p, m, member) {
        Some(e) => Err(e),
        None => Ok(ProposalView { status: ProposalStatus::Active, ..p }),
    }
}

/// Why `member` may not cast `vote` on `p` under registry `m`, if it may not.
/// Approvals and rejections need an active proposal that is not stale;
/// cancellations need an approved one.
pub open spec fn vote_error(p: ProposalView, m: MultisigView, member: Pubkey, vote: Vote) -> Option<
    ErrorCode,
> {
    if !m.is_member(member) {
        Some(ErrorCode::NotAMember)
    } else {
        match vote {
            Vote::Approve | Vote::Reject => {
                if p.status != ProposalStatus::Active {
                    Some(ErrorCode::InvalidProposalStatus)
                } else if m.is_stale(p.transaction_index) {
                    Some(ErrorCode::StaleProposal)
                } else {
                    None
                }
            },
            Vote::Cancel => {
                if p.status != ProposalStatus::Approved {
                    Some(ErrorCode::InvalidProposalStatus)
                } else {
                    None
                }
            },
        }
    }
}

/// The outcome of `member` casting `vote` on `p` under registry `m`, whose
/// members and threshold are read at the moment of the vote.
pub open spec fn vote_result(p: ProposalView, m: MultisigView, member: Pubkey, vote: Vote) -> Result<
    ProposalView,
    ErrorCode,
> {
    match vote_error(p, m, member, vote) {
        Some(e) => Err(e),
        None => match vote {
            Vote::Approve => Ok(p.approve_spec(member, m.threshold as int)),
            Vote::Reject => Ok(p.reject_spec(member, reject_cutoff(m))),
            Vote::Cancel => p.cancel_result(member, m.threshold as int),
        },
    }
}

#[derive(Debug)]
pub struct Proposal {
    /// The registry this proposal belongs to.
    pub multisig: Pubkey,
    /// Index of the transaction it decides.
    pub transaction_index: u64,
    pub status: ProposalStatus,
    /// Bump seed of its derived address.
    pub bump: u8,
    /// Members that approved, in order of their vote.
    pub approved: Vec<Pubkey>,
    /// Members that rejected, in order of their vote.
    pub rejected: Vec<Pubkey>,
    /// Members that cancelled, in order of their vote.
    pub cancelled: Vec<Pubkey>,
}

impl View for Proposal {
    type V = ProposalView;

    open spec fn view(&self) -> ProposalView {
        ProposalView {
            multisig: self.multisig,
            transaction_index: self.transaction_index,
            status: self.status,
            bump: self.bump,
            approved: self.approved@,
            rejected: self.rejected@,
            cancelled: self.cancelled@,
        }
    }
}

/// Stored length of a proposal whose ledgers each hold up to `members_len`
/// identities: the account tag, the registry, the index, the status, the
/// bump, and three length-prefixed identity lists.
pub open spec fn proposal_size(members_len: int) -> int {
    8 + 32 + 8 + 1 + 1 + 3 * (4 + 32 * members_len)
}

impl Proposal {
    pub fn size(members_len: usize) -> (r: usize)
        requires
            proposal_size(members_len as int) <= usize::MAX,
        ensures
            r == proposal_size(members_len as int),
    {
        8 + 32 + 8 + 1 + 1 + 3 * (4 + 32 * members_len)
    }

    /// Whether the proposal meets its invariant.
    pub fn is_well_formed(&self) -> (r: bool)
        ensures
            r == self@.wf(),
    {
        if crate::keys::has_duplicate_keys(&self.approved) || crate::keys::has_duplicate_keys(
            &self.rejected,
        ) || crate::keys::has_duplicate_keys(&self.cancelled) || !keys_are_ascending(
            &self.cancelled,
        ) {
            return false;
        }
        let mut i: usize = 0;
        while i < self.approved.len()
            invariant
                i <= self.approved.len(),
                forall|j: int| 0 <= j < i ==> !self.rejected@.contains(#[trigger] self.approved@[j]),
            decreases self.approved.len() - i,
        {
            if contains_key(&self.rejected, &self.approved[i]) {
                assert(self.approved@.contains(self.approved@[i as int]));
                return false;
            }
            i = i + 1;
        }
        assert forall|x: Pubkey| #[trigger] self.approved@.contains(x) implies !self.rejected@.contains(x) by {
            let j = choose|j: int| 0 <= j < self.approved@.len() && self.approved@[j] == x;
        }
        true
    }

    /// Records an approval by `member` (see `ProposalView::approve_spec`). A
    /// repeated approval changes no ledger.
    pub fn approve(&mut self, member: Pubkey, threshold: usize) -> (r: Result<(), ErrorCode>)
        ensures
            r is Ok,
            final(self)@ == old(self)@.approve_spec(member, threshold as int),
            old(self)@.wf() ==> final(self)@.wf(),
    {
        proof {
            lemma_add_key(self.approved@, member);
            lemma_remove_key(self.rejected@, member);
        }
        self.rejected = without_key(&self.rejected, &member);
        if !contains_key(&self.approved, &member) {
            self.approved.push(member);
        }
        if self.approved.len() >= threshold {
            self.status = ProposalStatus::Approved;
        }
        Ok(())
    }

    /// Records a rejection by `member` (see `ProposalView::reject_spec`). A
    /// repeated rejection changes no ledger.
    pub fn reject(&mut self, member: Pubkey, cutoff: usize) -> (r: Result<(), ErrorCode>)
        ensures
            r is Ok,
            final(self)@ == old(self)@.reject_spec(member, cutoff as int),
            old(self)@.wf() ==> final(self)@.wf(),
    {
        proof {
            lemma_add_key(self.rejected@, member);
            lemma_remove_key(self.approved@, member);
        }
        self.approved = without_key(&self.approved, &member);
        if !contains_key(&self.rejected, &member) {
            self.rejected.push(member);
        }
        if self.rejected.len() >= cutoff {
            self.status = ProposalStatus::Rejected;
        }
        Ok(())
    }

    /// Records a cancellation by `member`; fails with `AlreadyCancelled` if it
    /// has already cancelled.
    pub fn cancel(&mut self, member: Pubkey, threshold: usize) -> (r: Result<(), ErrorCode>)
        ensures
            takes_effect(r, old(self)@, final(self)@, old(self)@.cancel_result(member, threshold as int)),
            old(self)@.wf() ==> final(self)@.wf(),
            r is Ok && keys_ascending(old(self).cancelled@) ==> {
                &&& keys_ascending(final(self).cancelled@)
                &&& forall|x: Pubkey| #[trigger] final(self).cancelled@.contains(x) <==> (old(
                    self,
                ).cancelled@.contains(x) || x == member)
            },
    {
        if contains_key(&self.cancelled, &member) {
            return Err(ErrorCode::AlreadyCancelled);
        }
        proof {
            if keys_ascending(self.cancelled@) {
                lemma_sorted_insert(self.cancelled@, member);
            }
        }
        insert_sorted(&mut self.cancelled, member);
        proof {
            lemma_sorted_insert_len(old(self).cancelled@, member);
        }
        if self.cancelled.len() >= threshold {
            self.status = ProposalStatus::Cancelled;
        }
        Ok(())
    }
}

/// The accounts of a proposal creation.
#[derive(Debug)]
pub struct ProposalCreate {
    pub multisig: Multisig,
    /// Address of the registry.
    pub multisig_key: Pubkey,
    pub proposal: Proposal,
    pub creator: Pubkey,
}

impl ProposalCreate {
    /// Succeeds exactly when the creator is a current member.
    pub fn validate(&self) -> (r: Result<(), ErrorCode>)
        ensures
            r == if self.multisig@.is_member(self.creator) {
                Ok::<(), ErrorCode>(())
            } else {
                Err(ErrorCode::NotAMember)
            },
    {
        if self.multisig.is_member(&self.creator) {
            Ok(())
        } else {
            Err(ErrorCode::NotAMember)
        }
    }

    /// Starts the proposal for `transaction_index` with empty ledgers, as a
    /// draft or already active.
    pub fn proposal_create(&mut self, transaction_index: u64, draft: bool, proposal_bump: u8) -> (r:
        Result<(), ErrorCode>)
        ensures
            r is Ok,
            final(self).multisig@ == old(self).multisig@,
            final(self).multisig_key == old(self).multisig_key,
            final(self).creator == old(self).creator,
            final(self).proposal@ == new_proposal(old(self).multisig_key, transaction_index, draft, proposal_bump),
            final(self).proposal@.wf(),
    {
        self.proposal = Proposal {
            multisig: self.multisig_key,
            transaction_index,
            status: if draft {
                ProposalStatus::Draft
            } else {
                ProposalStatus::Active
            },
            bump: proposal_bump,
            approved: Vec::new(),
            rejected: Vec::new(),
            cancelled: Vec::new(),
        };
        proof {
            assert(self.proposal@.approved =~= Seq::<Pubkey>::empty());
            assert(self.proposal@.rejected =~= Seq::<Pubkey>::empty());
            assert(self.proposal@.cancelled =~= Seq::<Pubkey>::empty());
            assert(keys_ascending(self.proposal@.cancelled));
        }
        Ok(())
    }
}

/// A fresh proposal: no votes, drafted or active.
pub open spec fn new_proposal(multisig: Pubkey, transaction_index: u64, draft: bool, bump: u8) -> ProposalView {
    ProposalView {
        multisig,
        transaction_index,
        status: if draft {
            ProposalStatus::Draft
        } else {
            ProposalStatus::Active
        },
        bump,
        approved: Seq::empty(),
        rejected: Seq::empty(),
        cancelled: Seq::empty(),
    }
}

/// The accounts of a proposal activation.
#[derive(Debug)]
pub struct ProposalActivate {
    pub multisig: Multisig,
    pub member: Pubkey,
    pub proposal: Proposal,
}

impl ProposalActivate {
    /// Succeeds exactly when the signer is a member, the proposal a draft,
    /// and its transaction not stale.
    pub fn validate(&self) -> (r: Result<(), ErrorCode>)
        ensures
            r == check_result(activate_error(self.proposal@, self.multisig@, self.member)),
    {
        if !self.multisig.is_member(&self.member) {
            return Err(ErrorCode::NotAMember);
        }
        if self.proposal.status != ProposalStatus::Draft {
            return Err(ErrorCode::InvalidProposalStatus);
        }
        if self.proposal.transaction_index <= self.multisig.stale_transaction_index {
            return Err(ErrorCode::StaleProposal);
        }
        Ok(())
    }

    pub fn proposal_activate(&mut self) -> (r: Result<(), ErrorCode>)
        ensures
            r is Ok,
            final(self).multisig@ == old(self).multisig@,
            final(self).member == old(self).member,
            final(self).proposal@ == (ProposalView { status: ProposalStatus::Active, ..old(self).proposal@ }),
    {
        self.proposal.status = ProposalStatus::Active;
        Ok(())
    }
}

/// The accounts of a vote.
#[derive(Debug)]
pub struct ProposalVote {
    pub multisig: Multisig,
    pub member: Pubkey,
    pub proposal: Proposal,
}

impl ProposalVote {
    /// Succeeds exactly when `vote_error` finds nothing against the vote.
    pub fn validate(&self, vote: Vote) -> (r: Result<(), ErrorCode>)
        ensures
            r == check_result(vote_error(self.proposal@, self.multisig@, self.member, vote)),
    {
        if !self.multisig.is_member(&self.member) {
            return Err(ErrorCode::NotAMember);
        }
        match vote {
            Vote::Approve | Vote::Reject => {
                if self.proposal.status != ProposalStatus::Active {
                    return Err(ErrorCode::InvalidProposalStatus);
                }
                if self.proposal.transaction_index <= self.multisig.stale_transaction_index {
                    return Err(ErrorCode::StaleProposal);
                }
            },
            Vote::Cancel => {
                if self.proposal.status != ProposalStatus::Approved {
                    return Err(ErrorCode::InvalidProposalStatus);
                }
            },
        }
        Ok(())
    }

    /// Records the signer's approval against the registry's current threshold.
    pub fn proposal_approve(&mut self, _memo: Option<String>) -> (r: Result<(), ErrorCode>)
        ensures
            r is Ok,
            final(self).multisig@ == old(self).multisig@,
            final(self).member == old(self).member,
            final(self).proposal@ == old(self).proposal@.approve_spec(
                old(self).member,
                old(self).multisig@.threshold as int,
            ),
            old(self).proposal@.wf() ==> final(self).proposal@.wf(),
    {
        let threshold = self.multisig.threshold as usize;
        self.proposal.approve(self.member, threshold)
    }

    /// Records the signer's rejection against the registry's current cutoff.
    pub fn proposal_reject(&mut self, _memo: Option<String>) -> (r: Result<(), ErrorCode>)
        requires
            old(self).multisig@.wf(),
        ensures
            r is Ok,
            final(self).multisig@ == old(self).multisig@,
            final(self).member == old(self).member,
            final(self).proposal@ == old(self).proposal@.reject_spec(
                old(self).member,
                reject_cutoff(old(self).multisig@),
            ),
            old(self).proposal@.wf() ==> final(self).proposal@.wf(),
    {
        let cutoff = self.multisig.members.len() - self.multisig.threshold as usize;
        self.proposal.reject(self.member, cutoff)
    }

    /// Records the signer's cancellation against the registry's current
    /// threshold.
    pub fn proposal_cancel(&mut self, _memo: Option<String>) -> (r: Result<(), ErrorCode>)
        ensures
            final(self).multisig@ == old(self).multisig@,
            final(self).member == old(self).member,
            takes_effect(
                r,
                old(self).proposal@,
                final(self).proposal@,
                old(self).proposal@.cancel_result(old(self).member, old(self).multisig@.threshold as int),
            ),
            old(self).proposal@.wf() ==> final(self).proposal@.wf(),
    {
        let threshold = self.multisig.threshold as usize;
        self.proposal.cancel(self.member, threshold)
    }
}

} // verus!
