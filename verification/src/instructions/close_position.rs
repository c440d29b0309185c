//! `close_position`: build cp-amm's `close_position` for the honorary
//! position.
use vstd::prelude::*;

use crate::address::{same_address, Address};
use crate::constants::CLOSE_POSITION_DISCRIMINATOR;
use crate::cpi::{readonly, writable, CpiAccountMeta, CpiInstruction};
use crate::error::FeeRoutingError;
use crate::events::PositionClosed;
use crate::instructions::initialize_honorary_position::address_option_view;
use crate::pda::{bytes_of, derived_event_authority, event_authority_address};

verus! {

/// The addresses of the accounts of `close_position`.
#[derive(Debug, Clone, Copy, PartialEq, Eq)]
pub struct ClosePosition {
    pub payer: Address,
    pub vault: Address,
    pub vault_config: Address,
    pub position_authority: Address,
    pub position_nft_mint: Address,
    pub position_nft_account: Address,
    pub pool: Address,
    pub position: Address,
    pub pool_authority: Address,
    pub rent_receiver: Address,
    pub token_program: Address,
    pub cp_amm_program: Address,
    pub event_authority: Address,
    pub system_program: Address,
}

/// The check of `close_position`: the event authority must be the one
/// derived for the cp-amm program.
pub open spec fn close_outcome(
    accounts: ClosePosition,
    expected_event_authority: Option<Seq<u8>>,
) -> Result<(), FeeRoutingError> {
    if expected_event_authority != Some(accounts.event_authority@) {
        Err(FeeRoutingError::InvalidProgramId)
    } else {
        Ok(())
    }
}

/// Validates the event authority of `close_position` against the one
/// derived for the cp-amm program; where none could be derived, it is
/// refused as `InvalidProgramId`.
pub fn check_close(
    accounts: &ClosePosition,
    expected_event_authority: Option<Address>,
) -> (r: Result<(), FeeRoutingError>)
    ensures
        r == close_outcome(*accounts, address_option_view(expected_event_authority)),
{
    match expected_event_authority {
        Some(expected) => {
            if !same_address(&accounts.event_authority, &expected) {
                return Err(FeeRoutingError::InvalidProgramId);
            }
        },
        None => {
            return Err(FeeRoutingError::InvalidProgramId);
        },
    }
    Ok(())
}

/// The accounts of cp-amm's `close_position`, in its IDL order; the
/// position authority is the only signer and the rent goes to
/// `rent_receiver`.
pub open spec fn close_position_metas(a: ClosePosition) -> Seq<CpiAccountMeta> {
    seq![
        writable(a.position_nft_mint, false),
        writable(a.position_nft_account, false),
        writable(a.pool, false),
        writable(a.position, false),
        readonly(a.pool_authority, false),
        writable(a.rent_receiver, false),
        readonly(a.position_authority, true),
        readonly(a.token_program, false),
        readonly(a.event_authority, false),
        readonly(a.cp_amm_program, false),
    ]
}

/// `ix` is cp-amm's `close_position` for these accounts.
pub open spec fn is_close_position_instruction(ix: CpiInstruction, a: ClosePosition) -> bool {
    &&& ix.program_id == a.cp_amm_program
    &&& ix.accounts@ == close_position_metas(a)
    &&& ix.data@ == CLOSE_POSITION_DISCRIMINATOR@
}

/// Builds cp-amm's `close_position` instruction.
pub fn close_position_instruction(accounts: &ClosePosition) -> (ix: CpiInstruction)
    ensures
        is_close_position_instruction(ix, *accounts),
{
    let mut metas: Vec<CpiAccountMeta> = Vec::new();
    metas.push(CpiAccountMeta::new(accounts.position_nft_mint, false));
    metas.push(CpiAccountMeta::new(accounts.position_nft_account, false));
    metas.push(CpiAccountMeta::new(accounts.pool, false));
    metas.push(CpiAccountMeta::new(accounts.position, false));
    metas.push(CpiAccountMeta::new_readonly(accounts.pool_authority, false));
    metas.push(CpiAccountMeta::new(accounts.rent_receiver, false));
    metas.push(CpiAccountMeta::new_readonly(accounts.position_authority, true));
    metas.push(CpiAccountMeta::new_readonly(accounts.token_program, false));
    metas.push(CpiAccountMeta::new_readonly(accounts.event_authority, false));
    metas.push(CpiAccountMeta::new_readonly(accounts.cp_amm_program, false));
    assert(metas@ =~= close_position_metas(*accounts));
    CpiInstruction {
        program_id: accounts.cp_amm_program,
        accounts: metas,
        data: bytes_of(&CLOSE_POSITION_DISCRIMINATOR),
    }
}

/// The decisions of `close_position` before the cross-program call:
/// validate the event authority derived for the cp-amm program, then build
/// the `close_position` instruction.
pub fn close_handler(accounts: &ClosePosition) -> (r: Result<CpiInstruction, FeeRoutingError>)
    ensures
        match r {
            Ok(ix) => {
                &&& close_outcome(*accounts, derived_event_authority(accounts.cp_amm_program@)) is Ok
                &&& is_close_position_instruction(ix, *accounts)
            },
            Err(e) => close_outcome(*accounts, derived_event_authority(accounts.cp_amm_program@))
                == Err::<(), FeeRoutingError>(e),
        },
{
    let expected = event_authority_address(&accounts.cp_amm_program);
    match check_close(accounts, expected) {
        Ok(()) => Ok(close_position_instruction(accounts)),
        Err(e) => Err(e),
    }
}

/// The event of a successful close.
pub open spec fn close_event(a: ClosePosition, timestamp: i64) -> PositionClosed {
    PositionClosed { vault: a.vault, pool: a.pool, position: a.position, timestamp }
}

/// Builds the `PositionClosed` event at clock time `timestamp`.
pub fn position_closed(accounts: &ClosePosition, timestamp: i64) -> (ev: PositionClosed)
    ensures
        ev == close_event(*accounts, timestamp),
{
    PositionClosed {
        vault: accounts.vault,
        pool: accounts.pool,
        position: accounts.position,
        timestamp,
    }
}

} // verus!
