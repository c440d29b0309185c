use anchor_lang::prelude::Pubkey;
use damm_v2_fee_routing::{
    bytes_of, claim_handler, close_handler, create_position_instruction, fees_claimed,
    position_authority_seeds, position_closed, ClaimFee, ClosePosition, CpiAccountMeta,
    FeeRoutingError, InitializeHonoraryPosition, CLAIM_POSITION_FEE_DISCRIMINATOR,
    CLOSE_POSITION_DISCRIMINATOR, CREATE_POSITION_DISCRIMINATOR, METEORA_CP_AMM_PROGRAM_ID,
    METEORA_POOL_AUTHORITY,
};

fn key(b: u8) -> [u8; 32] {
    [b; 32]
}

fn meta(b: u8, is_signer: bool, is_writable: bool) -> CpiAccountMeta {
    CpiAccountMeta { pubkey: key(b), is_signer, is_writable }
}

fn cp_amm_event_authority() -> [u8; 32] {
    let program = Pubkey::new_from_array(METEORA_CP_AMM_PROGRAM_ID);
    Pubkey::find_program_address(&[b"__event_authority"], &program).0.to_bytes()
}

fn claim_accounts() -> ClaimFee {
    ClaimFee {
        payer: key(1),
        vault: key(2),
        vault_config: key(3),
        position_authority: key(4),
        pool_authority: key(5),
        pool: key(6),
        position: key(7),
        token_a_treasury: key(8),
        token_b_treasury: key(9),
        token_a_vault: key(10),
        token_b_vault: key(11),
        base_mint: key(12),
        quote_mint: key(13),
        position_nft_account: key(14),
        token_a_program: key(15),
        token_b_program: key(16),
        cp_amm_program: METEORA_CP_AMM_PROGRAM_ID,
        event_authority: cp_amm_event_authority(),
    }
}

fn close_accounts() -> ClosePosition {
    ClosePosition {
        payer: key(1),
        vault: key(2),
        vault_config: key(3),
        position_authority: key(4),
        position_nft_mint: key(5),
        position_nft_account: key(6),
        pool: key(7),
        position: key(8),
        pool_authority: key(9),
        rent_receiver: key(10),
        token_program: key(11),
        cp_amm_program: METEORA_CP_AMM_PROGRAM_ID,
        event_authority: cp_amm_event_authority(),
        system_program: key(12),
    }
}

#[test]
fn signer_seeds_of_position_authority() {
    let seeds = position_authority_seeds(&key(9), 254);
    assert_eq!(
        seeds,
        vec![b"vault".to_vec(), key(9).to_vec(), b"position_authority".to_vec(), vec![254u8]]
    );
    assert_eq!(bytes_of(&[1, 2, 3]), vec![1u8, 2, 3]);
}

#[test]
fn claim_instruction_layout() {
    let a = claim_accounts();
    let ix = claim_handler(&a, 1112).unwrap();
    assert_eq!(ix.program_id, METEORA_CP_AMM_PROGRAM_ID);
    assert_eq!(ix.data, CLAIM_POSITION_FEE_DISCRIMINATOR.to_vec());
    let ea = cp_amm_event_authority();
    let expected = vec![
        meta(5, false, false),
        meta(6, false, false),
        meta(7, false, true),
        meta(8, false, true),
        meta(9, false, true),
        meta(10, false, true),
        meta(11, false, true),
        meta(12, false, false),
        meta(13, false, false),
        meta(14, false, false),
        meta(4, true, false),
        meta(15, false, false),
        meta(16, false, false),
        CpiAccountMeta { pubkey: ea, is_signer: false, is_writable: false },
        CpiAccountMeta { pubkey: METEORA_CP_AMM_PROGRAM_ID, is_signer: false, is_writable: false },
    ];
    assert_eq!(ix.accounts, expected);
}

#[test]
fn claim_errors_in_order() {
    let mut a = claim_accounts();
    assert_eq!(claim_handler(&a, 484), Err(FeeRoutingError::InvalidPoolAccount));
    assert!(claim_handler(&a, 485).is_ok());
    a.event_authority = key(0);
    // The event authority is checked before the pool.
    assert_eq!(claim_handler(&a, 10), Err(FeeRoutingError::InvalidProgramId));
}

#[test]
fn claimed_event_reports_no_amounts() {
    let ev = fees_claimed(&claim_accounts(), 99);
    assert_eq!((ev.vault, ev.pool, ev.position), (key(2), key(6), key(7)));
    assert_eq!((ev.max_amount_a, ev.max_amount_b, ev.timestamp), (0, 0, 99));
}

#[test]
fn close_instruction_layout() {
    let a = close_accounts();
    let ix = close_handler(&a).unwrap();
    assert_eq!(ix.program_id, METEORA_CP_AMM_PROGRAM_ID);
    assert_eq!(ix.data, CLOSE_POSITION_DISCRIMINATOR.to_vec());
    let ea = cp_amm_event_authority();
    let expected = vec![
        meta(5, false, true),
        meta(6, false, true),
        meta(7, false, true),
        meta(8, false, true),
        meta(9, false, false),
        meta(10, false, true),
        meta(4, true, false),
        meta(11, false, false),
        CpiAccountMeta { pubkey: ea, is_signer: false, is_writable: false },
        CpiAccountMeta { pubkey: METEORA_CP_AMM_PROGRAM_ID, is_signer: false, is_writable: false },
    ];
    assert_eq!(ix.accounts, expected);
}

#[test]
fn close_refuses_wrong_event_authority() {
    let mut a = close_accounts();
    a.event_authority = METEORA_CP_AMM_PROGRAM_ID;
    assert_eq!(close_handler(&a), Err(FeeRoutingError::InvalidProgramId));
}

#[test]
fn closed_event() {
    let ev = position_closed(&close_accounts(), -5);
    assert_eq!((ev.vault, ev.pool, ev.position, ev.timestamp), (key(2), key(7), key(8), -5));
}

#[test]
fn create_position_layout() {
    let a = InitializeHonoraryPosition {
        payer: key(1),
        vault: key(2),
        vault_config: key(3),
        pool: key(4),
        base_mint: key(5),
        quote_mint: key(6),
        position_authority: key(7),
        position: key(8),
        position_nft_mint: key(9),
        position_nft_account: key(10),
        creator_quote_ata: key(11),
        pool_authority: METEORA_POOL_AUTHORITY,
        cp_amm_program: key(20),
        event_authority: key(21),
        token_program: key(12),
        associated_token_program: key(13),
        system_program: key(14),
        rent: key(15),
    };
    let ix = create_position_instruction(&a);
    assert_eq!(ix.program_id, key(20));
    assert_eq!(ix.data, CREATE_POSITION_DISCRIMINATOR.to_vec());
    let expected = vec![
        meta(7, false, false),
        meta(9, true, true),
        meta(10, false, true),
        meta(4, false, true),
        meta(8, false, true),
        CpiAccountMeta { pubkey: METEORA_POOL_AUTHORITY, is_signer: false, is_writable: false },
        meta(1, true, true),
        meta(12, false, false),
        meta(14, false, false),
        meta(21, false, false),
        meta(20, false, false),
    ];
    assert_eq!(ix.accounts, expected);
}

#[test]
fn error_messages() {
    assert_eq!(FeeRoutingError::AmountIsZero.message(), "Amount is zero");
    assert_eq!(
        FeeRoutingError::InvalidInvestorFeeShare.message(),
        "Investor fee share exceeds maximum allowed (10000 bps)"
    );
    assert_eq!(FeeRoutingError::MathOverflow.message(), "Math operation overflow");
}
