use collectivex_multisig::{
    multisig_add_member, multisig_remove_member, multisig_set_config_authority,
    multisig_set_threshold, multisig_set_time_lock, ErrorCode, Multisig, MultisigEdit, Pubkey,
};

fn key(n: u8) -> Pubkey {
    Pubkey::new_from_array([n; 32])
}

fn registry(members: &[u8], threshold: u16) -> Multisig {
    let members: Vec<Pubkey> = members.iter().map(|n| key(*n)).collect();
    Multisig::new(key(200), key(100), threshold, members, 0).unwrap()
}

fn edit(members: &[u8], threshold: u16) -> MultisigEdit {
    MultisigEdit { multisig: registry(members, threshold), config_authority: key(100) }
}

#[test]
fn keys_compare_by_bytes() {
    assert!(key(1) == key(1));
    assert!(key(1) != key(2));
    let mut bytes = [7u8; 32];
    bytes[31] = 8;
    assert!(Pubkey::new_from_array(bytes) != key(7));
    assert!(Pubkey::default().is_default());
    assert!(!key(1).is_default());
    assert_eq!(key(3).to_bytes(), [3u8; 32]);
}

#[test]
fn new_registry_starts_at_zero() {
    let m = registry(&[1, 2, 3], 2);
    assert_eq!(m.threshold, 2);
    assert_eq!(m.members, vec![key(1), key(2), key(3)]);
    assert_eq!(m.transaction_index, 0);
    assert_eq!(m.stale_transaction_index, 0);
    assert_eq!(m.create_key, key(200));
    assert_eq!(m.config_authority, key(100));
    assert!(m.is_well_formed());
}

#[test]
fn new_registry_rejects_zero_threshold() {
    let r = Multisig::new(key(200), key(100), 0, vec![key(1)], 0);
    assert_eq!(r.unwrap_err(), ErrorCode::InvalidThreshold);
}

#[test]
fn new_registry_rejects_threshold_above_member_count() {
    let r = Multisig::new(key(200), key(100), 3, vec![key(1), key(2)], 0);
    assert_eq!(r.unwrap_err(), ErrorCode::InvalidThreshold);
}

#[test]
fn new_registry_rejects_empty_member_set() {
    let r = Multisig::new(key(200), key(100), 1, vec![], 0);
    assert_eq!(r.unwrap_err(), ErrorCode::InvalidThreshold);
}

#[test]
fn new_registry_rejects_duplicate_members() {
    let r = Multisig::new(key(200), key(100), 1, vec![key(1), key(2), key(1)], 0);
    assert_eq!(r.unwrap_err(), ErrorCode::DuplicateMember);
}

#[test]
fn new_registry_rejects_more_than_ten_members() {
    let members: Vec<Pubkey> = (1..=11).map(key).collect();
    let r = Multisig::new(key(200), key(100), 1, members, 0);
    assert_eq!(r.unwrap_err(), ErrorCode::ExceedsMaxMembers);
    let members: Vec<Pubkey> = (1..=10).map(key).collect();
    assert!(Multisig::new(key(200), key(100), 10, members, 0).is_ok());
}

#[test]
fn add_member_appends() {
    let mut ctx = edit(&[1, 2], 2);
    assert_eq!(multisig_add_member(&mut ctx, key(3)), Ok(()));
    assert_eq!(ctx.multisig.members, vec![key(1), key(2), key(3)]);
    assert_eq!(ctx.multisig.threshold, 2);
}

#[test]
fn add_member_rejects_duplicate() {
    let mut ctx = edit(&[1, 2], 2);
    assert_eq!(multisig_add_member(&mut ctx, key(2)), Err(ErrorCode::DuplicateMember));
    assert_eq!(ctx.multisig.members, vec![key(1), key(2)]);
}

#[test]
fn add_member_rejects_at_capacity() {
    let members: Vec<u8> = (1..=10).collect();
    let mut ctx = edit(&members, 1);
    assert_eq!(multisig_add_member(&mut ctx, key(11)), Err(ErrorCode::ExceedsMaxMembers));
    assert_eq!(ctx.multisig.members.len(), 10);
}

#[test]
fn add_member_requires_config_authority() {
    let mut ctx = edit(&[1, 2], 2);
    ctx.config_authority = key(1);
    assert_eq!(multisig_add_member(&mut ctx, key(3)), Err(ErrorCode::InvalidAuthority));
    assert_eq!(ctx.multisig.members, vec![key(1), key(2)]);
}

#[test]
fn remove_member_keeps_order_of_the_rest() {
    let mut ctx = edit(&[1, 2, 3], 2);
    assert_eq!(multisig_remove_member(&mut ctx, key(2)), Ok(()));
    assert_eq!(ctx.multisig.members, vec![key(1), key(3)]);
}

#[test]
fn remove_member_rejects_non_member() {
    let mut ctx = edit(&[1, 2, 3], 2);
    assert_eq!(multisig_remove_member(&mut ctx, key(9)), Err(ErrorCode::NotAMember));
    assert_eq!(ctx.multisig.members.len(), 3);
}

#[test]
fn remove_sole_member_fails_and_leaves_registry_unchanged() {
    let mut ctx = edit(&[1], 1);
    assert_eq!(multisig_remove_member(&mut ctx, key(1)), Err(ErrorCode::RemoveLastMember));
    assert_eq!(ctx.multisig.members, vec![key(1)]);
    assert_eq!(ctx.multisig.threshold, 1);
    assert_eq!(ctx.multisig.transaction_index, 0);
    assert_eq!(ctx.multisig.stale_transaction_index, 0);
}

#[test]
fn remove_member_below_threshold_fails() {
    let mut ctx = edit(&[1, 2, 3], 3);
    assert_eq!(multisig_remove_member(&mut ctx, key(3)), Err(ErrorCode::InvalidThreshold));
    assert_eq!(ctx.multisig.members, vec![key(1), key(2), key(3)]);
}

#[test]
fn set_threshold_checks_bounds() {
    let mut ctx = edit(&[1, 2, 3], 2);
    assert_eq!(multisig_set_threshold(&mut ctx, 0), Err(ErrorCode::InvalidThreshold));
    assert_eq!(multisig_set_threshold(&mut ctx, 4), Err(ErrorCode::InvalidThreshold));
    assert_eq!(ctx.multisig.threshold, 2);
    assert_eq!(multisig_set_threshold(&mut ctx, 3), Ok(()));
    assert_eq!(ctx.multisig.threshold, 3);
    assert_eq!(multisig_set_threshold(&mut ctx, 1), Ok(()));
    assert_eq!(ctx.multisig.threshold, 1);
}

#[test]
fn threshold_bound_holds_after_each_change() {
    let mut ctx = edit(&[1, 2], 2);
    let ops: Vec<Result<(), ErrorCode>> = vec![
        multisig_add_member(&mut ctx, key(3)),
        multisig_set_threshold(&mut ctx, 3),
        multisig_remove_member(&mut ctx, key(1)),
        multisig_set_threshold(&mut ctx, 1),
        multisig_remove_member(&mut ctx, key(1)),
        multisig_remove_member(&mut ctx, key(2)),
        multisig_set_threshold(&mut ctx, 2),
    ];
    assert_eq!(
        ops,
        vec![
            Ok(()),
            Ok(()),
            Err(ErrorCode::InvalidThreshold),
            Ok(()),
            Ok(()),
            Ok(()),
            Err(ErrorCode::InvalidThreshold),
        ]
    );
    assert_eq!(ctx.multisig.members, vec![key(3)]);
    assert_eq!(ctx.multisig.threshold, 1);
    assert!(ctx.multisig.is_well_formed());
}

#[test]
fn time_lock_and_authority_are_replaced() {
    let mut ctx = edit(&[1, 2], 1);
    assert_eq!(multisig_set_time_lock(&mut ctx, 3600), Ok(()));
    assert_eq!(ctx.multisig.time_lock, 3600);
    assert_eq!(multisig_set_config_authority(&mut ctx, key(50)), Ok(()));
    assert_eq!(ctx.multisig.config_authority, key(50));
    assert_eq!(multisig_set_time_lock(&mut ctx, 1), Err(ErrorCode::InvalidAuthority));
    assert_eq!(ctx.multisig.time_lock, 3600);
}

#[test]
fn staleness_only_moves_forward() {
    let mut m = registry(&[1], 1);
    assert_eq!(m.advance_staleness(5), Ok(()));
    assert_eq!(m.stale_transaction_index, 5);
    assert_eq!(m.advance_staleness(5), Ok(()));
    assert_eq!(m.advance_staleness(4), Err(ErrorCode::InvalidStaleTransactionIndex));
    assert_eq!(m.stale_transaction_index, 5);
}

#[test]
fn is_well_formed_detects_broken_registries() {
    let mut m = registry(&[1, 2], 2);
    m.threshold = 3;
    assert!(!m.is_well_formed());
    m.threshold = 1;
    m.members.push(key(1));
    assert!(!m.is_well_formed());
}

#[test]
fn new_registry_checks_threshold_before_members() {
    let r = Multisig::new(key(200), key(100), 0, vec![key(1), key(1)], 0);
    assert_eq!(r.unwrap_err(), ErrorCode::InvalidThreshold);
    let members: Vec<Pubkey> = (1..=11).map(key).collect();
    let r = Multisig::new(key(200), key(100), 0, members, 0);
    assert_eq!(r.unwrap_err(), ErrorCode::InvalidThreshold);
    let members: Vec<Pubkey> = (1..=11).map(key).collect();
    let r = Multisig::new(key(200), key(100), 12, members, 0);
    assert_eq!(r.unwrap_err(), ErrorCode::InvalidThreshold);
}
