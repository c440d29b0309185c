//! `claim_fee`: build cp-amm's `claim_position_fee` for the honorary
//! position.
use vstd::prelude::*;

use crate::address::{same_address, Address};
use crate::constants::{CLAIM_POSITION_FEE_DISCRIMINATOR, POOL_MIN_DATA_LEN};
use crate::cpi::{readonly, writable, CpiAccountMeta, CpiInstruction};
use crate::error::FeeRoutingError;
use crate::events::FeesClaimed;
use crate::instructions::initialize_honorary_position::address_option_view;
use crate::pda::{bytes_of, derived_event_authority, event_authority_address};

verus! {

/// The addresses of the accounts of `claim_fee`.
#[derive(Debug, Clone, Copy, PartialEq, Eq)]
pub struct ClaimFee {
    pub payer: Address,
    pub vault: Address,
    pub vault_config: Address,
    pub position_authority: Address,
    pub pool_authority: Address,
    pub pool: Address,
    pub position: Address,
    pub token_a_treasury: Address,
    pub token_b_treasury: Address,
    pub token_a_vault: Address,
    pub token_b_vault: Address,
    pub base_mint: Address,
    pub quote_mint: Address,
    pub position_nft_account: Address,
    pub token_a_program: Address,
    pub token_b_program: Address,
    pub cp_amm_program: Address,
    pub event_authority: Address,
}

/// The checks of `claim_fee`, in the program's order: the event authority
/// must be the one derived for the cp-amm program, and the pool account
/// must be long enough to be a cp-amm pool.
pub open spec fn claim_outcome(
    accounts: ClaimFee,
    pool_data_len: nat,
    expected_event_authority: Option<Seq<u8>>,
) -> Result<(), FeeRoutingError> {
    if expected_event_authority != Some(accounts.event_authority@) {
        Err(FeeRoutingError::InvalidProgramId)
    } else if pool_data_len < POOL_MIN_DATA_LEN {
        Err(FeeRoutingError::InvalidPoolAccount)
    } else {
        Ok(())
    }
}

/// Validates the accounts of `claim_fee` against the event authority
/// derived for the cp-amm program; where none could be derived, the event
/// authority is refused as `InvalidProgramId`.
pub fn check_claim(
    accounts: &ClaimFee,
    pool_data_len: usize,
    expected_event_authority: Option<Address>,
) -> (r: Result<(), FeeRoutingError>)
    ensures
        r == claim_outcome(*accounts, pool_data_len as nat, address_option_view(expected_event_authority)),
{
    match expected_event_authority {
        Some(expected) => {
            if !same_address(&accounts.event_authority, &expected) {
                return Err(FeeRoutingError::InvalidProgramId);
            }
        },
        None => {
            return Err(FeeRoutingError::InvalidProgramId);
        },
    }
    if pool_data_len < POOL_MIN_DATA_LEN {
        return Err(FeeRoutingError::InvalidPoolAccount);
    }
    Ok(())
}

/// The accounts of cp-amm's `claim_position_fee`, in its IDL order; the
/// position authority is the only signer.
pub open spec fn claim_position_fee_metas(a: ClaimFee) -> Seq<CpiAccountMeta> {
    seq![
        readonly(a.pool_authority, false),
        readonly(a.pool, false),
        writable(a.position, false),
        writable(a.token_a_treasury, false),
        writable(a.token_b_treasury, false),
        writable(a.token_a_vault, false),
        writable(a.token_b_vault, false),
        readonly(a.base_mint, false),
        readonly(a.quote_mint, false),
        readonly(a.position_nft_account, false),
        readonly(a.position_authority, true),
        readonly(a.token_a_program, false),
        readonly(a.token_b_program, false),
        readonly(a.event_authority, false),
        readonly(a.cp_amm_program, false),
    ]
}

/// `ix` is cp-amm's `claim_position_fee` for these accounts.
pub open spec fn is_claim_position_fee_instruction(ix: CpiInstruction, a: ClaimFee) -> bool {
    &&& ix.program_id == a.cp_amm_program
    &&& ix.accounts@ == claim_position_fee_metas(a)
    &&& ix.data@ == CLAIM_POSITION_FEE_DISCRIMINATOR@
}

/// Builds cp-amm's `claim_position_fee` instruction.
pub fn claim_position_fee_instruction(accounts: &ClaimFee) -> (ix: CpiInstruction)
    ensures
        is_claim_position_fee_instruction(ix, *accounts),
{
    let mut metas: Vec<CpiAccountMeta> = Vec::new();
    metas.push(CpiAccountMeta::new_readonly(accounts.pool_authority, false));
    metas.push(CpiAccountMeta::new_readonly(accounts.pool, false));
    metas.push(CpiAccountMeta::new(accounts.position, false));
    metas.push(CpiAccountMeta::new(accounts.token_a_treasury, false));
    metas.push(CpiAccountMeta::new(accounts.token_b_treasury, false));
    metas.push(CpiAccountMeta::new(accounts.token_a_vault, false));
    metas.push(CpiAccountMeta::new(accounts.token_b_vault, false));
    metas.push(CpiAccountMeta::new_readonly(accounts.base_mint, false));
    metas.push(CpiAccountMeta::new_readonly(accounts.quote_mint, false));
    metas.push(CpiAccountMeta::new_readonly(accounts.position_nft_account, false));
    metas.push(CpiAccountMeta::new_readonly(accounts.position_authority, true));
    metas.push(CpiAccountMeta::new_readonly(accounts.token_a_program, false));
    metas.push(CpiAccountMeta::new_readonly(accounts.token_b_program, false));
    metas.push(CpiAccountMeta::new_readonly(accounts.event_authority, false));
    metas.push(CpiAccountMeta::new_readonly(accounts.cp_amm_program, false));
    assert(metas@ =~= claim_position_fee_metas(*accounts));
    CpiInstruction {
        program_id: accounts.cp_amm_program,
        accounts: metas,
        data: bytes_of(&CLAIM_POSITION_FEE_DISCRIMINATOR),
    }
}

/// The decisions of `claim_fee` before the cross-program call: validate the
/// accounts against the event authority derived for the cp-amm program,
/// then build the `claim_position_fee` instruction. Of the pool account,
/// only the length of its data is read.
pub fn claim_handler(accounts: &ClaimFee, pool_data_len: usize) -> (r: Result<
    CpiInstruction,
    FeeRoutingError,
>)
    ensures
        match r {
            Ok(ix) => {
                &&& claim_outcome(
                    *accounts,
                    pool_data_len as nat,
                    derived_event_authority(accounts.cp_amm_program@),
                ) is Ok
                &&& is_claim_position_fee_instruction(ix, *accounts)
            },
            Err(e) => claim_outcome(
                *accounts,
                pool_data_len as nat,
                derived_event_authority(accounts.cp_amm_program@),
            ) == Err::<(), FeeRoutingError>(e),
        },
{
    let expected = event_authority_address(&accounts.cp_amm_program);
    match check_claim(accounts, pool_data_len, expected) {
        Ok(()) => Ok(claim_position_fee_instruction(accounts)),
        Err(e) => Err(e),
    }
}

/// The event of a successful claim; the claimed amounts are not reported.
pub open spec fn claim_event(a: ClaimFee, timestamp: i64) -> FeesClaimed {
    FeesClaimed {
        vault: a.vault,
        pool: a.pool,
        position: a.position,
        max_amount_a: 0,
        max_amount_b: 0,
        timestamp,
    }
}

/// Builds the `FeesClaimed` event at clock time `timestamp`.
pub fn fees_claimed(accounts: &ClaimFee, timestamp: i64) -> (ev: FeesClaimed)
    ensures
        ev == claim_event(*accounts, timestamp),
{
    FeesClaimed {
        vault: accounts.vault,
        pool: accounts.pool,
        position: accounts.position,
        max_amount_a: 0,
        max_amount_b: 0,
        timestamp,
    }
}

} // verus!
