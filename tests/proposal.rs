use collectivex_multisig::{
    config_transaction_create, proposal_activate, proposal_approve, proposal_cancel,
    proposal_create, proposal_reject, ConfigAction, ConfigTransaction, ConfigTransactionCreate,
    ErrorCode, Multisig, Proposal, ProposalActivate, ProposalCreate, ProposalStatus, ProposalVote,
    Pubkey, Vote,
};

fn key(n: u8) -> Pubkey {
    Pubkey::new_from_array([n; 32])
}

const A: u8 = 1;
const B: u8 = 2;
const C: u8 = 3;

fn registry(members: &[u8], threshold: u16) -> Multisig {
    let members: Vec<Pubkey> = members.iter().map(|n| key(*n)).collect();
    Multisig::new(key(200), key(100), threshold, members, 0).unwrap()
}

fn empty_proposal() -> Proposal {
    Proposal {
        multisig: Pubkey::default(),
        transaction_index: 0,
        status: ProposalStatus::Draft,
        bump: 0,
        approved: vec![],
        rejected: vec![],
        cancelled: vec![],
    }
}

fn empty_transaction() -> ConfigTransaction {
    ConfigTransaction {
        multisig: Pubkey::default(),
        creator: Pubkey::default(),
        index: 0,
        bump: 0,
        actions: vec![],
    }
}

/// A proposal created by member `creator` of `multisig` for `index`.
fn created(multisig: Multisig, creator: u8, index: u64, draft: bool) -> ProposalVote {
    let mut ctx = ProposalCreate {
        multisig,
        multisig_key: key(150),
        proposal: empty_proposal(),
        creator: key(creator),
    };
    assert_eq!(proposal_create(&mut ctx, index, draft, 254), Ok(()));
    ProposalVote { multisig: ctx.multisig, member: key(creator), proposal: ctx.proposal }
}

fn vote(ctx: &mut ProposalVote, member: u8, v: Vote) -> Result<(), ErrorCode> {
    ctx.member = key(member);
    match v {
        Vote::Approve => proposal_approve(ctx, None),
        Vote::Reject => proposal_reject(ctx, None),
        Vote::Cancel => proposal_cancel(ctx, Some("memo".to_string())),
    }
}

#[test]
fn quorum_of_two_out_of_three_approves() {
    let mut batch = ConfigTransactionCreate {
        multisig: registry(&[A, B, C], 2),
        multisig_key: key(150),
        transaction: empty_transaction(),
        creator: key(A),
    };
    let actions = vec![ConfigAction::SetTimeLock { new_time_lock: 60 }];
    assert_eq!(config_transaction_create(&mut batch, actions), Ok(()));
    assert_eq!(batch.transaction.index, 1);

    let mut ctx = created(batch.multisig, A, 1, false);
    assert_eq!(ctx.proposal.status, ProposalStatus::Active);
    assert_eq!(vote(&mut ctx, A, Vote::Approve), Ok(()));
    assert_eq!(ctx.proposal.approved, vec![key(A)]);
    assert_eq!(ctx.proposal.status, ProposalStatus::Active);
    assert_eq!(vote(&mut ctx, B, Vote::Approve), Ok(()));
    assert_eq!(ctx.proposal.approved, vec![key(A), key(B)]);
    assert_eq!(ctx.proposal.status, ProposalStatus::Approved);
}

#[test]
fn first_rejection_reaches_cutoff_of_one() {
    let mut ctx = created(registry(&[A, B, C], 2), A, 1, false);
    assert_eq!(vote(&mut ctx, A, Vote::Reject), Ok(()));
    assert_eq!(ctx.proposal.rejected, vec![key(A)]);
    assert_eq!(ctx.proposal.status, ProposalStatus::Rejected);
    assert_eq!(vote(&mut ctx, C, Vote::Reject), Err(ErrorCode::InvalidProposalStatus));
    assert_eq!(ctx.proposal.rejected, vec![key(A)]);
    assert_eq!(ctx.proposal.status, ProposalStatus::Rejected);
}

#[test]
fn stale_draft_cannot_be_activated() {
    let mut multisig = registry(&[A, B, C], 2);
    let draft = created(registry(&[A, B, C], 2), A, 5, true);
    assert_eq!(draft.proposal.status, ProposalStatus::Draft);
    assert_eq!(multisig.advance_staleness(5), Ok(()));
    let mut ctx = ProposalActivate { multisig, member: key(A), proposal: draft.proposal };
    assert_eq!(ctx.validate(), Err(ErrorCode::StaleProposal));
    assert_eq!(proposal_activate(&mut ctx), Err(ErrorCode::StaleProposal));
    assert_eq!(ctx.proposal.status, ProposalStatus::Draft);
}

#[test]
fn fresh_draft_is_activated_by_a_member() {
    let draft = created(registry(&[A, B, C], 2), A, 5, true);
    let mut ctx = ProposalActivate { multisig: draft.multisig, member: key(9), proposal: draft.proposal };
    assert_eq!(proposal_activate(&mut ctx), Err(ErrorCode::NotAMember));
    ctx.member = key(B);
    assert_eq!(proposal_activate(&mut ctx), Ok(()));
    assert_eq!(ctx.proposal.status, ProposalStatus::Active);
    assert_eq!(proposal_activate(&mut ctx), Err(ErrorCode::InvalidProposalStatus));
}

#[test]
fn new_proposal_records_its_fields() {
    let ctx = created(registry(&[A, B], 1), B, 7, false);
    assert_eq!(ctx.proposal.multisig, key(150));
    assert_eq!(ctx.proposal.transaction_index, 7);
    assert_eq!(ctx.proposal.bump, 254);
    assert!(ctx.proposal.approved.is_empty());
    assert!(ctx.proposal.rejected.is_empty());
    assert!(ctx.proposal.cancelled.is_empty());
}

#[test]
fn non_member_cannot_create_proposal() {
    let mut ctx = ProposalCreate {
        multisig: registry(&[A, B], 1),
        multisig_key: key(150),
        proposal: empty_proposal(),
        creator: key(9),
    };
    assert_eq!(proposal_create(&mut ctx, 1, false, 1), Err(ErrorCode::NotAMember));
    assert_eq!(ctx.proposal.transaction_index, 0);
    assert_eq!(ctx.proposal.status, ProposalStatus::Draft);
}

#[test]
fn switching_vote_moves_member_between_ledgers() {
    let mut ctx = created(registry(&[A, B, C, 4, 5], 3), A, 1, false);
    assert_eq!(vote(&mut ctx, A, Vote::Approve), Ok(()));
    assert_eq!(vote(&mut ctx, B, Vote::Approve), Ok(()));
    assert_eq!(vote(&mut ctx, A, Vote::Reject), Ok(()));
    assert_eq!(ctx.proposal.approved, vec![key(B)]);
    assert_eq!(ctx.proposal.rejected, vec![key(A)]);
    assert_eq!(ctx.proposal.status, ProposalStatus::Active);
    assert_eq!(vote(&mut ctx, A, Vote::Approve), Ok(()));
    assert_eq!(ctx.proposal.approved, vec![key(B), key(A)]);
    assert!(ctx.proposal.rejected.is_empty());
    assert!(ctx.proposal.is_well_formed());
}

#[test]
fn repeated_approval_is_a_no_op() {
    let mut ctx = created(registry(&[A, B, C], 3), A, 1, false);
    assert_eq!(vote(&mut ctx, A, Vote::Approve), Ok(()));
    assert_eq!(vote(&mut ctx, A, Vote::Approve), Ok(()));
    assert_eq!(ctx.proposal.approved, vec![key(A)]);
    assert_eq!(ctx.proposal.status, ProposalStatus::Active);
}

#[test]
fn repeated_rejection_is_a_no_op() {
    let mut ctx = created(registry(&[A, B, C, 4, 5], 2), A, 1, false);
    assert_eq!(vote(&mut ctx, A, Vote::Reject), Ok(()));
    assert_eq!(vote(&mut ctx, A, Vote::Reject), Ok(()));
    assert_eq!(ctx.proposal.rejected, vec![key(A)]);
    assert_eq!(ctx.proposal.status, ProposalStatus::Active);
}

#[test]
fn approved_proposal_refuses_approve_and_reject() {
    let mut ctx = created(registry(&[A, B, C], 1), A, 1, false);
    assert_eq!(vote(&mut ctx, A, Vote::Approve), Ok(()));
    assert_eq!(ctx.proposal.status, ProposalStatus::Approved);
    assert_eq!(vote(&mut ctx, B, Vote::Reject), Err(ErrorCode::InvalidProposalStatus));
    assert_eq!(vote(&mut ctx, B, Vote::Approve), Err(ErrorCode::InvalidProposalStatus));
    assert_eq!(ctx.proposal.status, ProposalStatus::Approved);
    assert_eq!(ctx.proposal.approved, vec![key(A)]);
}

#[test]
fn veto_at_members_minus_threshold() {
    let mut ctx = created(registry(&[A, B, C, 4, 5], 3), A, 1, false);
    assert_eq!(vote(&mut ctx, A, Vote::Reject), Ok(()));
    assert_eq!(ctx.proposal.status, ProposalStatus::Active);
    assert_eq!(vote(&mut ctx, B, Vote::Reject), Ok(()));
    assert_eq!(ctx.proposal.status, ProposalStatus::Rejected);
    assert_eq!(vote(&mut ctx, C, Vote::Approve), Err(ErrorCode::InvalidProposalStatus));
    assert_eq!(vote(&mut ctx, C, Vote::Cancel), Err(ErrorCode::InvalidProposalStatus));
}

#[test]
fn stale_active_proposal_refuses_votes() {
    let mut ctx = created(registry(&[A, B, C], 2), A, 3, false);
    assert_eq!(vote(&mut ctx, A, Vote::Approve), Ok(()));
    assert_eq!(ctx.multisig.advance_staleness(3), Ok(()));
    assert_eq!(vote(&mut ctx, B, Vote::Approve), Err(ErrorCode::StaleProposal));
    assert_eq!(vote(&mut ctx, B, Vote::Reject), Err(ErrorCode::StaleProposal));
    assert_eq!(ctx.proposal.approved, vec![key(A)]);
    assert_eq!(ctx.proposal.status, ProposalStatus::Active);
}

#[test]
fn non_member_cannot_vote() {
    let mut ctx = created(registry(&[A, B, C], 2), A, 1, false);
    assert_eq!(vote(&mut ctx, 9, Vote::Approve), Err(ErrorCode::NotAMember));
    assert!(ctx.proposal.approved.is_empty());
}

#[test]
fn membership_is_read_at_vote_time() {
    let mut ctx = created(registry(&[A, B, C], 2), A, 1, false);
    assert_eq!(vote(&mut ctx, A, Vote::Approve), Ok(()));
    assert_eq!(ctx.multisig.add_member(key(4)), Ok(()));
    assert_eq!(ctx.multisig.set_threshold(3), Ok(()));
    assert_eq!(vote(&mut ctx, 4, Vote::Approve), Ok(()));
    assert_eq!(ctx.proposal.status, ProposalStatus::Active);
    assert_eq!(vote(&mut ctx, B, Vote::Approve), Ok(()));
    assert_eq!(ctx.proposal.status, ProposalStatus::Approved);
}

#[test]
fn cancellation_needs_approved_status_and_threshold() {
    let mut ctx = created(registry(&[A, B, C], 2), A, 1, false);
    assert_eq!(vote(&mut ctx, A, Vote::Cancel), Err(ErrorCode::InvalidProposalStatus));
    assert_eq!(vote(&mut ctx, A, Vote::Approve), Ok(()));
    assert_eq!(vote(&mut ctx, B, Vote::Approve), Ok(()));
    assert_eq!(vote(&mut ctx, C, Vote::Cancel), Ok(()));
    assert_eq!(ctx.proposal.status, ProposalStatus::Approved);
    assert_eq!(vote(&mut ctx, C, Vote::Cancel), Err(ErrorCode::AlreadyCancelled));
    assert_eq!(ctx.proposal.cancelled, vec![key(C)]);
    assert_eq!(vote(&mut ctx, A, Vote::Cancel), Ok(()));
    assert_eq!(ctx.proposal.cancelled, vec![key(A), key(C)]);
    assert_eq!(ctx.proposal.status, ProposalStatus::Cancelled);
    assert_eq!(vote(&mut ctx, B, Vote::Cancel), Err(ErrorCode::InvalidProposalStatus));
}

#[test]
fn validate_reports_each_refusal() {
    let mut ctx = created(registry(&[A, B, C], 2), A, 1, true);
    assert_eq!(ctx.validate(Vote::Approve), Err(ErrorCode::InvalidProposalStatus));
    assert_eq!(ctx.validate(Vote::Cancel), Err(ErrorCode::InvalidProposalStatus));
    ctx.proposal.status = ProposalStatus::Active;
    assert_eq!(ctx.validate(Vote::Reject), Ok(()));
    ctx.member = key(9);
    assert_eq!(ctx.validate(Vote::Reject), Err(ErrorCode::NotAMember));
}

#[test]
fn proposal_methods_apply_given_thresholds() {
    let mut p = empty_proposal();
    p.status = ProposalStatus::Active;
    assert_eq!(p.approve(key(A), 2), Ok(()));
    assert_eq!(p.status, ProposalStatus::Active);
    assert_eq!(p.reject(key(A), 5), Ok(()));
    assert!(p.approved.is_empty());
    assert_eq!(p.rejected, vec![key(A)]);
    assert_eq!(p.approve(key(B), 1), Ok(()));
    assert_eq!(p.status, ProposalStatus::Approved);
    assert_eq!(p.cancel(key(B), 2), Ok(()));
    assert_eq!(p.cancel(key(B), 2), Err(ErrorCode::AlreadyCancelled));
    assert_eq!(p.status, ProposalStatus::Approved);
}

#[test]
fn proposal_size_counts_three_ledgers() {
    assert_eq!(Proposal::size(0), 62);
    assert_eq!(Proposal::size(3), 62 + 3 * 96);
    assert_eq!(Proposal::size(10), 1022);
}

#[test]
fn cancellations_are_kept_in_key_order() {
    let mut p = empty_proposal();
    p.status = ProposalStatus::Approved;
    assert_eq!(p.cancel(key(B), 5), Ok(()));
    assert_eq!(p.cancel(key(A), 5), Ok(()));
    assert_eq!(p.cancelled, vec![key(A), key(B)]);
    let mut low = [9u8; 32];
    low[31] = 0;
    let mut high = [9u8; 32];
    high[0] = 10;
    assert_eq!(p.cancel(Pubkey::new_from_array(high), 5), Ok(()));
    assert_eq!(p.cancel(key(9), 5), Ok(()));
    assert_eq!(p.cancel(Pubkey::new_from_array(low), 5), Ok(()));
    assert_eq!(
        p.cancelled,
        vec![
            key(A),
            key(B),
            Pubkey::new_from_array(low),
            key(9),
            Pubkey::new_from_array(high)
        ]
    );
    assert_eq!(p.status, ProposalStatus::Cancelled);
    assert!(p.is_well_formed());
    p.cancelled.swap(0, 1);
    assert!(!p.is_well_formed());
}
