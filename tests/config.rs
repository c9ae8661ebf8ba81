use collectivex_multisig::{
    multisig_add_spending_limit, multisig_create, multisig_remove_spending_limit,
    program_config_init, program_config_set_authority, program_config_set_creation_fee,
    program_config_set_treasury, ErrorCode, Multisig, MultisigAddSpendingLimit, MultisigCreate,
    MultisigRemoveSpendingLimit, ProgramConfig, ProgramConfigEdit, ProgramConfigInit, Pubkey,
    SpendingLimit,
};

fn key(n: u8) -> Pubkey {
    Pubkey::new_from_array([n; 32])
}

fn config() -> ProgramConfig {
    ProgramConfig { authority: key(90), creation_fee: 500, treasury: key(91) }
}

fn blank_registry() -> Multisig {
    Multisig {
        create_key: Pubkey::default(),
        config_authority: Pubkey::default(),
        threshold: 0,
        members: vec![],
        time_lock: 0,
        transaction_index: 0,
        stale_transaction_index: 0,
    }
}

fn blank_limit() -> SpendingLimit {
    SpendingLimit {
        multisig: Pubkey::default(),
        create_key: Pubkey::default(),
        vault_index: 0,
        mint: Pubkey::default(),
        amount: 0,
        remaining_amount: 0,
        last_reset: 0,
        bump: 0,
        members: vec![],
        destinations: vec![],
    }
}

fn registry() -> Multisig {
    Multisig::new(key(200), key(100), 1, vec![key(1), key(2)], 0).unwrap()
}

#[test]
fn config_init_checks_authority_and_treasury() {
    let blank = ProgramConfig {
        authority: Pubkey::default(),
        creation_fee: 0,
        treasury: Pubkey::default(),
    };
    let mut ctx = ProgramConfigInit { program_config: blank, initializer: key(1) };
    assert_eq!(
        program_config_init(&mut ctx, Pubkey::default(), 5, key(2)),
        Err(ErrorCode::InvalidAuthority)
    );
    assert_eq!(
        program_config_init(&mut ctx, key(3), 5, Pubkey::default()),
        Err(ErrorCode::InvalidTreasury)
    );
    assert!(ctx.program_config.authority.is_default());
    assert_eq!(program_config_init(&mut ctx, key(3), 5, key(2)), Ok(()));
    assert_eq!(ctx.program_config.authority, key(3));
    assert_eq!(ctx.program_config.creation_fee, 5);
    assert_eq!(ctx.program_config.treasury, key(2));
}

#[test]
fn config_edits_need_the_authority() {
    let mut ctx = ProgramConfigEdit { program_config: config(), current_authority: key(1) };
    assert_eq!(program_config_set_creation_fee(&mut ctx, 7), Err(ErrorCode::InvalidAuthority));
    assert_eq!(ctx.program_config.creation_fee, 500);
    ctx.current_authority = key(90);
    assert_eq!(program_config_set_creation_fee(&mut ctx, 7), Ok(()));
    assert_eq!(ctx.program_config.creation_fee, 7);
    assert_eq!(
        program_config_set_treasury(&mut ctx, Pubkey::default()),
        Err(ErrorCode::InvalidTreasury)
    );
    assert_eq!(program_config_set_treasury(&mut ctx, key(92)), Ok(()));
    assert_eq!(ctx.program_config.treasury, key(92));
    assert_eq!(program_config_set_authority(&mut ctx, key(93)), Ok(()));
    assert_eq!(ctx.program_config.authority, key(93));
    assert_eq!(program_config_set_authority(&mut ctx, key(94)), Err(ErrorCode::InvalidAuthority));
}

#[test]
fn registry_creation_checks_treasury_then_members() {
    let mut ctx = MultisigCreate {
        multisig: blank_registry(),
        program_config: config(),
        treasury: key(1),
        create_key: key(200),
        creator: key(5),
    };
    let members = vec![key(1), key(2), key(3)];
    assert_eq!(
        multisig_create(&mut ctx, key(100), 2, members.clone(), 60),
        Err(ErrorCode::InvalidTreasury)
    );
    ctx.treasury = key(91);
    assert_eq!(
        multisig_create(&mut ctx, key(100), 4, members.clone(), 60),
        Err(ErrorCode::InvalidThreshold)
    );
    assert!(ctx.multisig.members.is_empty());
    assert_eq!(multisig_create(&mut ctx, key(100), 2, members.clone(), 60), Ok(()));
    assert_eq!(ctx.multisig.create_key, key(200));
    assert_eq!(ctx.multisig.config_authority, key(100));
    assert_eq!(ctx.multisig.threshold, 2);
    assert_eq!(ctx.multisig.members, members);
    assert_eq!(ctx.multisig.time_lock, 60);
    assert_eq!(ctx.creation_fee_due(), Some(500));
    ctx.program_config.creation_fee = 0;
    assert_eq!(ctx.creation_fee_due(), None);
}

#[test]
fn spending_limit_is_filled_in() {
    let mut ctx = MultisigAddSpendingLimit {
        multisig: registry(),
        multisig_key: key(150),
        config_authority: key(100),
        create_key: key(60),
        spending_limit: blank_limit(),
    };
    let r = multisig_add_spending_limit(&mut ctx, 253, 1, key(70), 1_000, vec![key(1)], vec![key(80)], 1_700_000_000);
    assert_eq!(r, Ok(()));
    let sl = &ctx.spending_limit;
    assert_eq!(sl.multisig, key(150));
    assert_eq!(sl.create_key, key(60));
    assert_eq!(sl.vault_index, 1);
    assert_eq!(sl.mint, key(70));
    assert_eq!(sl.amount, 1_000);
    assert_eq!(sl.remaining_amount, 1_000);
    assert_eq!(sl.last_reset, 1_700_000_000);
    assert_eq!(sl.bump, 253);
    assert_eq!(sl.members, vec![key(1)]);
    assert_eq!(sl.destinations, vec![key(80)]);
}

#[test]
fn spending_limit_member_cap_and_authority() {
    let mut ctx = MultisigAddSpendingLimit {
        multisig: registry(),
        multisig_key: key(150),
        config_authority: key(100),
        create_key: key(60),
        spending_limit: blank_limit(),
    };
    let many: Vec<Pubkey> = (1..=11).map(key).collect();
    assert_eq!(
        multisig_add_spending_limit(&mut ctx, 1, 0, key(70), 5, many, vec![], 0),
        Err(ErrorCode::ExceedsMaxMembers)
    );
    assert_eq!(ctx.spending_limit.amount, 0);
    ctx.config_authority = key(1);
    assert_eq!(
        multisig_add_spending_limit(&mut ctx, 1, 0, key(70), 5, vec![], vec![], 0),
        Err(ErrorCode::InvalidAuthority)
    );
}

#[test]
fn spending_limit_removal_checks_owner() {
    let mut limit = blank_limit();
    limit.multisig = key(151);
    let mut ctx = MultisigRemoveSpendingLimit {
        multisig: registry(),
        multisig_key: key(150),
        config_authority: key(100),
        spending_limit: limit,
        rent_collector: key(3),
    };
    assert_eq!(multisig_remove_spending_limit(&mut ctx, None), Err(ErrorCode::InvalidSpendingLimit));
    ctx.spending_limit.multisig = key(150);
    assert_eq!(multisig_remove_spending_limit(&mut ctx, None), Ok(()));
    ctx.config_authority = key(2);
    assert_eq!(multisig_remove_spending_limit(&mut ctx, None), Err(ErrorCode::InvalidAuthority));
}
