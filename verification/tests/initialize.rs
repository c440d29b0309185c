use anchor_lang::prelude::Pubkey;
use damm_v2_fee_routing::{
    address_less_than, check_initialization, event_authority_address, honorary_position_initialized, init_handler,
    initialized_vault_config, read_address, same_address, FeeRoutingError,
    InitializeHonoraryPosition, InitializeHonoraryPositionParams, PoolState, RouteFees, VaultConfig,
    route_handler,
    CREATE_POSITION_DISCRIMINATOR, METEORA_CP_AMM_PROGRAM_ID, METEORA_POOL_AUTHORITY,
    POOL_DISCRIMINATOR, starts_with,
};

fn key(b: u8) -> [u8; 32] {
    [b; 32]
}

fn cp_amm_event_authority() -> [u8; 32] {
    let program = Pubkey::new_from_array(METEORA_CP_AMM_PROGRAM_ID);
    Pubkey::find_program_address(&[b"__event_authority"], &program).0.to_bytes()
}

fn accounts() -> InitializeHonoraryPosition {
    InitializeHonoraryPosition {
        payer: key(1),
        vault: key(2),
        vault_config: key(3),
        pool: key(4),
        base_mint: key(5),
        quote_mint: key(6),
        position_authority: key(7),
        position: key(8),
        position_nft_mint: key(9),
        position_nft_account: key(10),
        creator_quote_ata: key(11),
        pool_authority: METEORA_POOL_AUTHORITY,
        cp_amm_program: METEORA_CP_AMM_PROGRAM_ID,
        event_authority: cp_amm_event_authority(),
        token_program: key(12),
        associated_token_program: key(13),
        system_program: key(14),
        rent: key(15),
    }
}

fn pool_data(len: usize, a: [u8; 32], b: [u8; 32], mode: u8) -> Vec<u8> {
    let mut data = vec![0xAAu8; len];
    let n = len.min(8);
    data[..n].copy_from_slice(&POOL_DISCRIMINATOR[..n]);
    data[168..200].copy_from_slice(&a);
    data[200..232].copy_from_slice(&b);
    if len > 484 {
        data[484] = mode;
    }
    data
}

fn params(bps: u16) -> InitializeHonoraryPositionParams {
    InitializeHonoraryPositionParams { y0_total_allocation: 5_000_000, investor_fee_share_bps: bps }
}

#[test]
fn event_authority_is_the_cp_amm_pda() {
    let derived = event_authority_address(&METEORA_CP_AMM_PROGRAM_ID).unwrap();
    assert_eq!(derived, cp_amm_event_authority());
    assert_ne!(derived, METEORA_CP_AMM_PROGRAM_ID);
}

#[test]
fn parse_reads_mints_and_mode() {
    let data = pool_data(1112, key(5), key(6), 1);
    let pool = PoolState::parse(&data).unwrap();
    assert_eq!(pool, PoolState { token_a_mint: key(5), token_b_mint: key(6), collect_fee_mode: 1 });
    assert_eq!(PoolState::parse(&data[..485]).unwrap(), pool);
}

#[test]
fn parse_refuses_short_account() {
    let data = pool_data(484, key(5), key(6), 0);
    assert_eq!(PoolState::parse(&data), Err(FeeRoutingError::InvalidPoolAccount));
    assert_eq!(PoolState::parse(&[]), Err(FeeRoutingError::InvalidPoolAccount));
}

#[test]
fn address_helpers() {
    let data: Vec<u8> = (0..64u8).collect();
    let a = read_address(&data, 10);
    assert_eq!(a[0], 10);
    assert_eq!(a[31], 41);
    assert!(same_address(&a, &a));
    assert!(!same_address(&a, &read_address(&data, 11)));
}

#[test]
fn init_accepts_quote_only_pool() {
    let a = accounts();
    for mode in [0u8, 1] {
        let data = pool_data(1112, key(5), key(6), mode);
        let ix = init_handler(&a, &params(2500), &data).unwrap();
        assert_eq!(ix.program_id, METEORA_CP_AMM_PROGRAM_ID);
        assert_eq!(ix.data, CREATE_POSITION_DISCRIMINATOR.to_vec());
        assert_eq!(ix.accounts.len(), 11);
    }
}

#[test]
fn init_accepts_maximum_share() {
    let data = pool_data(1112, key(5), key(6), 0);
    assert!(init_handler(&accounts(), &params(10000), &data).is_ok());
}

#[test]
fn init_refuses_share_above_maximum() {
    let data = pool_data(1112, key(5), key(6), 0);
    assert_eq!(
        init_handler(&accounts(), &params(10001), &data),
        Err(FeeRoutingError::InvalidInvestorFeeShare)
    );
    // The share is checked before the pool.
    assert_eq!(
        init_handler(&accounts(), &params(u16::MAX), &[]),
        Err(FeeRoutingError::InvalidInvestorFeeShare)
    );
}

#[test]
fn init_refuses_short_pool() {
    let data = pool_data(300, key(5), key(6), 0);
    assert_eq!(init_handler(&accounts(), &params(100), &data), Err(FeeRoutingError::InvalidPoolAccount));
}

#[test]
fn init_refuses_other_fee_modes() {
    for mode in [2u8, 3, 255] {
        let data = pool_data(1112, key(5), key(6), mode);
        assert_eq!(
            init_handler(&accounts(), &params(100), &data),
            Err(FeeRoutingError::PoolNotQuoteOnlyCompatible)
        );
    }
}

#[test]
fn init_refuses_mint_mismatch() {
    let data = pool_data(1112, key(6), key(6), 0);
    assert_eq!(init_handler(&accounts(), &params(100), &data), Err(FeeRoutingError::BaseMintMismatch));
    let data = pool_data(1112, key(5), key(5), 0);
    assert_eq!(init_handler(&accounts(), &params(100), &data), Err(FeeRoutingError::QuoteMintMismatch));
    // Swapped mints: the base mismatch is reported first.
    let data = pool_data(1112, key(6), key(5), 0);
    assert_eq!(init_handler(&accounts(), &params(100), &data), Err(FeeRoutingError::BaseMintMismatch));
}

#[test]
fn init_refuses_base_mint_not_before_quote_mint() {
    let mut a = accounts();
    a.base_mint = key(6);
    a.quote_mint = key(5);
    let data = pool_data(1112, key(6), key(5), 0);
    assert_eq!(init_handler(&a, &params(100), &data), Err(FeeRoutingError::InvalidTokenOrder));
    a.base_mint = key(6);
    a.quote_mint = key(6);
    let data = pool_data(1112, key(6), key(6), 0);
    assert_eq!(init_handler(&a, &params(100), &data), Err(FeeRoutingError::InvalidTokenOrder));
    // The byte order decides on the first differing byte.
    let mut base = key(7);
    let mut quote = key(7);
    base[3] = 1;
    quote[3] = 2;
    base[4] = 200;
    a.base_mint = base;
    a.quote_mint = quote;
    let data = pool_data(1112, base, quote, 1);
    assert!(init_handler(&a, &params(100), &data).is_ok());
}

#[test]
fn init_mint_and_authority_errors_come_before_token_order() {
    let mut a = accounts();
    a.base_mint = key(6);
    a.quote_mint = key(5);
    // The pool's token A mint differs from the base mint.
    let data = pool_data(1112, key(9), key(5), 0);
    assert_eq!(init_handler(&a, &params(100), &data), Err(FeeRoutingError::BaseMintMismatch));
    // The pool's token B mint differs from the quote mint.
    let data = pool_data(1112, key(6), key(9), 0);
    assert_eq!(init_handler(&a, &params(100), &data), Err(FeeRoutingError::QuoteMintMismatch));
    // The event authority is wrong.
    a.event_authority = key(99);
    let data = pool_data(1112, key(6), key(5), 0);
    assert_eq!(init_handler(&a, &params(100), &data), Err(FeeRoutingError::InvalidProgramId));
    // The fee mode is checked first of all pool checks.
    let data = pool_data(1112, key(9), key(9), 2);
    assert_eq!(
        init_handler(&a, &params(100), &data),
        Err(FeeRoutingError::PoolNotQuoteOnlyCompatible)
    );
}

#[test]
fn init_refuses_zero_total_allocation() {
    let a = accounts();
    let data = pool_data(1112, key(5), key(6), 0);
    let p = InitializeHonoraryPositionParams { y0_total_allocation: 0, investor_fee_share_bps: 100 };
    assert_eq!(init_handler(&a, &p, &data), Err(FeeRoutingError::InvalidTotalAllocation));
    let p = InitializeHonoraryPositionParams { y0_total_allocation: 1, investor_fee_share_bps: 100 };
    assert!(init_handler(&a, &p, &data).is_ok());
    // Other refusals come first.
    let p = InitializeHonoraryPositionParams { y0_total_allocation: 0, investor_fee_share_bps: 100 };
    let data = pool_data(1112, key(9), key(6), 0);
    assert_eq!(init_handler(&a, &p, &data), Err(FeeRoutingError::BaseMintMismatch));
}

#[test]
fn init_refuses_pool_without_cp_amm_discriminator() {
    let a = accounts();
    let mut data = pool_data(1112, key(5), key(6), 0);
    data[0] ^= 1;
    assert_eq!(init_handler(&a, &params(100), &data), Err(FeeRoutingError::InvalidPoolDiscriminator));
    assert!(starts_with(&pool_data(485, key(5), key(6), 0), &POOL_DISCRIMINATOR));
    assert!(!starts_with(&[241, 154], &POOL_DISCRIMINATOR));
}

#[test]
fn address_order() {
    let a = key(1);
    let mut b = key(1);
    assert!(!address_less_than(&a, &b));
    b[31] = 2;
    assert!(address_less_than(&a, &b));
    assert!(!address_less_than(&b, &a));
}

#[test]
fn init_refuses_wrong_event_authority() {
    let mut a = accounts();
    a.event_authority = key(99);
    let data = pool_data(1112, key(5), key(6), 0);
    assert_eq!(init_handler(&a, &params(100), &data), Err(FeeRoutingError::InvalidProgramId));
    // A different cp-amm program derives a different event authority.
    let mut a = accounts();
    a.cp_amm_program = key(77);
    assert_eq!(init_handler(&a, &params(100), &data), Err(FeeRoutingError::InvalidProgramId));
}

#[test]
fn check_initialization_with_given_event_authority() {
    let a = accounts();
    let data = pool_data(500, key(5), key(6), 1);
    let pool = check_initialization(&a, &params(1), &data, Some(a.event_authority)).unwrap();
    assert_eq!(pool.collect_fee_mode, 1);
    assert_eq!(
        check_initialization(&a, &params(1), &data, None),
        Err(FeeRoutingError::InvalidProgramId)
    );
    assert_eq!(
        check_initialization(&a, &params(1), &data, Some(key(0))),
        Err(FeeRoutingError::InvalidProgramId)
    );
}

#[test]
fn initialized_config_and_event() {
    let a = accounts();
    let p = params(3000);
    let c = initialized_vault_config(&a, &p, 250, 251, 1_700_000_123);
    assert_eq!(
        c,
        VaultConfig {
            vault: key(2),
            pool: key(4),
            quote_mint: key(6),
            base_mint: key(5),
            honorary_position: key(8),
            position_nft_mint: key(9),
            position_authority_bump: 250,
            y0_total_allocation: 5_000_000,
            investor_fee_share_bps: 3000,
            creator_quote_ata: key(11),
            bump: 251,
            initialized_at: 1_700_000_123,
        }
    );
    let ev = honorary_position_initialized(&a, &p, 7);
    assert_eq!(ev.vault, key(2));
    assert_eq!(ev.position_authority, key(7));
    assert_eq!(ev.y0_total_allocation, 5_000_000);
    assert_eq!(ev.investor_fee_share_bps, 3000);
    assert_eq!(ev.timestamp, 7);
}

#[test]
fn initialized_vault_routes_fees() {
    let a = accounts();
    let p = params(10000);
    let data = pool_data(1112, key(5), key(6), 0);
    assert!(init_handler(&a, &p, &data).is_ok());
    let c = initialized_vault_config(&a, &p, 1, 2, 3);
    let route = RouteFees {
        payer: key(1),
        vault: c.vault,
        vault_config: key(3),
        position_authority: key(7),
        quote_token_account: key(30),
        creator_quote_ata: c.creator_quote_ata,
        vault_quote_ata: key(31),
        token_program: key(12),
    };
    let plan = route_handler(&route, &c, 1_000_000).unwrap();
    assert_eq!(plan.split.investor_share + plan.split.creator_share, 1_000_000);
    assert_eq!(plan.split.creator_share, 0);
    assert_eq!(route_handler(&route, &c, 0), Err(FeeRoutingError::AmountIsZero));
    assert_eq!(route_handler(&route, &c, u64::MAX / 10000 + 1), Err(FeeRoutingError::MathOverflow));
}

#[test]
fn vault_config_space() {
    assert_eq!(VaultConfig::LEN, 252);
}
