//! `initialize_honorary_position`: validate the pool and the fee split
//! parameters, build cp-amm's `create_position` instruction, and record the
//! vault configuration.
use vstd::prelude::*;

use crate::address::{address_less_than, address_lt, read_address, same_address, Address};
use crate::constants::{
    COLLECT_FEE_MODE_BOTH_TOKEN, COLLECT_FEE_MODE_ONLY_B, CREATE_POSITION_DISCRIMINATOR,
    MAX_INVESTOR_FEE_SHARE_BPS, POOL_COLLECT_FEE_MODE_OFFSET, POOL_DISCRIMINATOR, POOL_MIN_DATA_LEN,
    POOL_TOKEN_A_MINT_OFFSET, POOL_TOKEN_B_MINT_OFFSET,
};
use crate::cpi::{readonly, writable, CpiAccountMeta, CpiInstruction};
use crate::error::FeeRoutingError;
use crate::events::HonoraryPositionInitialized;
use crate::pda::{bytes_of, derived_event_authority, event_authority_address};
use crate::state::VaultConfig;

verus! {

/// Parameters of `initialize_honorary_position`.
#[derive(Debug, Clone, Copy, PartialEq, Eq, Structural)]
pub struct InitializeHonoraryPositionParams {
    pub y0_total_allocation: u64,
    pub investor_fee_share_bps: u16,
}

/// The addresses of the accounts of `initialize_honorary_position`.
#[derive(Debug, Clone, Copy, PartialEq, Eq)]
pub struct InitializeHonoraryPosition {
    pub payer: Address,
    pub vault: Address,
    pub vault_config: Address,
    pub pool: Address,
    pub base_mint: Address,
    pub quote_mint: Address,
    pub position_authority: Address,
    pub position: Address,
    pub position_nft_mint: Address,
    pub position_nft_account: Address,
    pub creator_quote_ata: Address,
    pub pool_authority: Address,
    pub cp_amm_program: Address,
    pub event_authority: Address,
    pub token_program: Address,
    pub associated_token_program: Address,
    pub system_program: Address,
    pub rent: Address,
}

/// What the program reads from a cp-amm pool account.
#[derive(Debug, Clone, Copy, PartialEq, Eq)]
pub struct PoolState {
    pub token_a_mint: Address,
    pub token_b_mint: Address,
    pub collect_fee_mode: u8,
}

/// [`PoolState`] with the mints as byte sequences.
pub struct PoolStateView {
    pub token_a_mint: Seq<u8>,
    pub token_b_mint: Seq<u8>,
    pub collect_fee_mode: u8,
}

impl View for PoolState {
    type V = PoolStateView;

    open spec fn view(&self) -> PoolStateView {
        PoolStateView {
            token_a_mint: self.token_a_mint@,
            token_b_mint: self.token_b_mint@,
            collect_fee_mode: self.collect_fee_mode,
        }
    }
}

/// A parse result with the pool state taken by its view.
pub open spec fn pool_result_view(r: Result<PoolState, FeeRoutingError>) -> Result<PoolStateView, FeeRoutingError> {
    match r {
        Ok(p) => Ok(p@),
        Err(e) => Err(e),
    }
}

/// An optional address taken by its bytes.
pub open spec fn address_option_view(o: Option<Address>) -> Option<Seq<u8>> {
    match o {
        Some(a) => Some(a@),
        None => None,
    }
}

/// The fields of a pool account of at least [`POOL_MIN_DATA_LEN`] bytes:
/// the token A mint at bytes 168..200, the token B mint at 200..232 and
/// `collect_fee_mode` at byte 484.
pub open spec fn pool_state_of(data: Seq<u8>) -> PoolStateView {
    PoolStateView {
        token_a_mint: data.subrange(
            POOL_TOKEN_A_MINT_OFFSET as int,
            POOL_TOKEN_A_MINT_OFFSET + 32,
        ),
        token_b_mint: data.subrange(
            POOL_TOKEN_B_MINT_OFFSET as int,
            POOL_TOKEN_B_MINT_OFFSET + 32,
        ),
        collect_fee_mode: data[POOL_COLLECT_FEE_MODE_OFFSET as int],
    }
}

/// Reading a pool account: too short an account is refused.
pub open spec fn pool_parse_outcome(data: Seq<u8>) -> Result<PoolStateView, FeeRoutingError> {
    if data.len() < POOL_MIN_DATA_LEN {
        Err(FeeRoutingError::InvalidPoolAccount)
    } else {
        Ok(pool_state_of(data))
    }
}

/// A fee collection mode under which the pool pays fees in the quote token.
pub open spec fn is_quote_only_compatible(mode: u8) -> bool {
    mode == COLLECT_FEE_MODE_BOTH_TOKEN || mode == COLLECT_FEE_MODE_ONLY_B
}

impl PoolState {
    /// Reads the mints and the fee collection mode from the raw data of a
    /// cp-amm pool account.
    pub fn parse(data: &[u8]) -> (r: Result<PoolState, FeeRoutingError>)
        ensures
            pool_result_view(r) == pool_parse_outcome(data@),
    {
        if data.len() < POOL_MIN_DATA_LEN {
            return Err(FeeRoutingError::InvalidPoolAccount);
        }
        let token_a_mint = read_address(data, POOL_TOKEN_A_MINT_OFFSET);
        let token_b_mint = read_address(data, POOL_TOKEN_B_MINT_OFFSET);
        let collect_fee_mode = data[POOL_COLLECT_FEE_MODE_OFFSET];
        Ok(PoolState { token_a_mint, token_b_mint, collect_fee_mode })
    }
}

/// The checks of `initialize_honorary_position`, in order: the fee share is
/// at most 100%; the pool account is long enough; the pool collects fees in
/// the quote token; the pool's token A and B mints are the base and quote
/// mints; the event authority is cp-amm's; then the pool account carries
/// cp-amm's `Pool` discriminator, the base mint comes before the quote mint,
/// and the total investor allocation is not zero. They are made given the
/// pool account's data and the event authority derived for the cp-amm
/// program (where one exists).
pub open spec fn initialization_outcome(
    accounts: InitializeHonoraryPosition,
    params: InitializeHonoraryPositionParams,
    pool_data: Seq<u8>,
    expected_event_authority: Option<Seq<u8>>,
) -> Result<PoolStateView, FeeRoutingError> {
    if params.investor_fee_share_bps > MAX_INVESTOR_FEE_SHARE_BPS {
        Err(FeeRoutingError::InvalidInvestorFeeShare)
    } else if pool_data.len() < POOL_MIN_DATA_LEN {
        Err(FeeRoutingError::InvalidPoolAccount)
    } else {
        let pool = pool_state_of(pool_data);
        if !is_quote_only_compatible(pool.collect_fee_mode) {
            Err(FeeRoutingError::PoolNotQuoteOnlyCompatible)
        } else if pool.token_a_mint != accounts.base_mint@ {
            Err(FeeRoutingError::BaseMintMismatch)
        } else if pool.token_b_mint != accounts.quote_mint@ {
            Err(FeeRoutingError::QuoteMintMismatch)
        } else if expected_event_authority != Some(accounts.event_authority@) {
            Err(FeeRoutingError::InvalidProgramId)
        } else if !has_pool_discriminator(pool_data) {
            Err(FeeRoutingError::InvalidPoolDiscriminator)
        } else if !address_lt(accounts.base_mint@, accounts.quote_mint@) {
            Err(FeeRoutingError::InvalidTokenOrder)
        } else if params.y0_total_allocation == 0 {
            Err(FeeRoutingError::InvalidTotalAllocation)
        } else {
            Ok(pool)
        }
    }
}

/// The account data starts with the Anchor discriminator of cp-amm's `Pool`.
pub open spec fn has_pool_discriminator(data: Seq<u8>) -> bool {
    POOL_DISCRIMINATOR@.len() <= data.len() && data.subrange(0, POOL_DISCRIMINATOR@.len() as int)
        == POOL_DISCRIMINATOR@
}

/// `data` starts with the bytes of `prefix`.
pub fn starts_with(data: &[u8], prefix: &[u8]) -> (r: bool)
    ensures
        r == (prefix@.len() <= data@.len() && data@.subrange(0, prefix@.len() as int) == prefix@),
{
    if prefix.len() > data.len() {
        return false;
    }
    let mut i: usize = 0;
    while i < prefix.len()
        invariant
            0 <= i <= prefix@.len(),
            prefix@.len() <= data@.len(),
            forall|j: int| 0 <= j < i ==> data@[j] == prefix@[j],
        decreases prefix@.len() - i,
    {
        if data[i] != prefix[i] {
            assert(data@.subrange(0, prefix@.len() as int)[i as int] != prefix@[i as int]);
            return false;
        }
        i = i + 1;
    }
    assert(data@.subrange(0, prefix@.len() as int) =~= prefix@);
    true
}

/// Validates the parameters and the pool of `initialize_honorary_position`
/// against the event authority `expected_event_authority` derived for the
/// cp-amm program; where none could be derived, the event authority is
/// refused as `InvalidProgramId`.
pub fn check_initialization(
    accounts: &InitializeHonoraryPosition,
    params: &InitializeHonoraryPositionParams,
    pool_data: &[u8],
    expected_event_authority: Option<Address>,
) -> (r: Result<PoolState, FeeRoutingError>)
    ensures
        pool_result_view(r) == initialization_outcome(
            *accounts,
            *params,
            pool_data@,
            address_option_view(expected_event_authority),
        ),
{
    if params.investor_fee_share_bps > MAX_INVESTOR_FEE_SHARE_BPS {
        return Err(FeeRoutingError::InvalidInvestorFeeShare);
    }
    let pool = match PoolState::parse(pool_data) {
        Ok(p) => p,
        Err(e) => return Err(e),
    };
    if !(pool.collect_fee_mode == COLLECT_FEE_MODE_BOTH_TOKEN
        || pool.collect_fee_mode == COLLECT_FEE_MODE_ONLY_B) {
        return Err(FeeRoutingError::PoolNotQuoteOnlyCompatible);
    }
    if !same_address(&pool.token_a_mint, &accounts.base_mint) {
        return Err(FeeRoutingError::BaseMintMismatch);
    }
    if !same_address(&pool.token_b_mint, &accounts.quote_mint) {
        return Err(FeeRoutingError::QuoteMintMismatch);
    }
    match expected_event_authority {
        Some(expected) => {
            if !same_address(&accounts.event_authority, &expected) {
                return Err(FeeRoutingError::InvalidProgramId);
            }
        },
        None => {
            return Err(FeeRoutingError::InvalidProgramId);
        },
    }
    if !starts_with(pool_data, &POOL_DISCRIMINATOR) {
        return Err(FeeRoutingError::InvalidPoolDiscriminator);
    }
    if !address_less_than(&accounts.base_mint, &accounts.quote_mint) {
        return Err(FeeRoutingError::InvalidTokenOrder);
    }
    if params.y0_total_allocation == 0 {
        return Err(FeeRoutingError::InvalidTotalAllocation);
    }
    Ok(pool)
}

/// The accounts of cp-amm's `create_position`, in its IDL order: owner,
/// position_nft_mint, position_nft_account, pool, position, pool_authority,
/// payer, token_program, system_program, event_authority, program.
pub open spec fn create_position_metas(a: InitializeHonoraryPosition) -> Seq<CpiAccountMeta> {
    seq![
        readonly(a.position_authority, false),
        writable(a.position_nft_mint, true),
        writable(a.position_nft_account, false),
        writable(a.pool, false),
        writable(a.position, false),
        readonly(a.pool_authority, false),
        writable(a.payer, true),
        readonly(a.token_program, false),
        readonly(a.system_program, false),
        readonly(a.event_authority, false),
        readonly(a.cp_amm_program, false),
    ]
}

/// `ix` is cp-amm's `create_position` for these accounts.
pub open spec fn is_create_position_instruction(
    ix: CpiInstruction,
    a: InitializeHonoraryPosition,
) -> bool {
    &&& ix.program_id == a.cp_amm_program
    &&& ix.accounts@ == create_position_metas(a)
    &&& ix.data@ == CREATE_POSITION_DISCRIMINATOR@
}

/// Builds cp-amm's `create_position` instruction, signed by the position
/// authority and the position NFT mint, paid by the payer.
pub fn create_position_instruction(accounts: &InitializeHonoraryPosition) -> (ix: CpiInstruction)
    ensures
        is_create_position_instruction(ix, *accounts),
{
    let mut metas: Vec<CpiAccountMeta> = Vec::new();
    metas.push(CpiAccountMeta::new_readonly(accounts.position_authority, false));
    metas.push(CpiAccountMeta::new(accounts.position_nft_mint, true));
    metas.push(CpiAccountMeta::new(accounts.position_nft_account, false));
    metas.push(CpiAccountMeta::new(accounts.pool, false));
    metas.push(CpiAccountMeta::new(accounts.position, false));
    metas.push(CpiAccountMeta::new_readonly(accounts.pool_authority, false));
    metas.push(CpiAccountMeta::new(accounts.payer, true));
    metas.push(CpiAccountMeta::new_readonly(accounts.token_program, false));
    metas.push(CpiAccountMeta::new_readonly(accounts.system_program, false));
    metas.push(CpiAccountMeta::new_readonly(accounts.event_authority, false));
    metas.push(CpiAccountMeta::new_readonly(accounts.cp_amm_program, false));
    assert(metas@ =~= create_position_metas(*accounts));
    CpiInstruction {
        program_id: accounts.cp_amm_program,
        accounts: metas,
        data: bytes_of(&CREATE_POSITION_DISCRIMINATOR),
    }
}

/// The decisions of `initialize_honorary_position` before the
/// cross-program call: validate the parameters and the pool against the
/// event authority derived for the cp-amm program, then build the
/// `create_position` instruction.
pub fn init_handler(
    accounts: &InitializeHonoraryPosition,
    params: &InitializeHonoraryPositionParams,
    pool_data: &[u8],
) -> (r: Result<CpiInstruction, FeeRoutingError>)
    ensures
        match r {
            Ok(ix) => {
                &&& initialization_outcome(
                    *accounts,
                    *params,
                    pool_data@,
                    derived_event_authority(accounts.cp_amm_program@),
                ) is Ok
                &&& is_create_position_instruction(ix, *accounts)
            },
            Err(e) => initialization_outcome(
                *accounts,
                *params,
                pool_data@,
                derived_event_authority(accounts.cp_amm_program@),
            ) == Err::<PoolStateView, FeeRoutingError>(e),
        },
{
    let expected = event_authority_address(&accounts.cp_amm_program);
    match check_initialization(accounts, params, pool_data, expected) {
        Ok(_) => Ok(create_position_instruction(accounts)),
        Err(e) => Err(e),
    }
}

/// The configuration recorded by a successful initialization.
pub open spec fn initial_vault_config(
    a: InitializeHonoraryPosition,
    params: InitializeHonoraryPositionParams,
    position_authority_bump: u8,
    vault_config_bump: u8,
    timestamp: i64,
) -> VaultConfig {
    VaultConfig {
        vault: a.vault,
        pool: a.pool,
        quote_mint: a.quote_mint,
        base_mint: a.base_mint,
        honorary_position: a.position,
        position_nft_mint: a.position_nft_mint,
        position_authority_bump,
        y0_total_allocation: params.y0_total_allocation,
        investor_fee_share_bps: params.investor_fee_share_bps,
        creator_quote_ata: a.creator_quote_ata,
        bump: vault_config_bump,
        initialized_at: timestamp,
    }
}

/// The vault configuration written once `create_position` succeeded, at
/// clock time `timestamp`.
pub fn initialized_vault_config(
    accounts: &InitializeHonoraryPosition,
    params: &InitializeHonoraryPositionParams,
    position_authority_bump: u8,
    vault_config_bump: u8,
    timestamp: i64,
) -> (c: VaultConfig)
    ensures
        c == initial_vault_config(
            *accounts,
            *params,
            position_authority_bump,
            vault_config_bump,
            timestamp,
        ),
{
    VaultConfig {
        vault: accounts.vault,
        pool: accounts.pool,
        quote_mint: accounts.quote_mint,
        base_mint: accounts.base_mint,
        honorary_position: accounts.position,
        position_nft_mint: accounts.position_nft_mint,
        position_authority_bump,
        y0_total_allocation: params.y0_total_allocation,
        investor_fee_share_bps: params.investor_fee_share_bps,
        creator_quote_ata: accounts.creator_quote_ata,
        bump: vault_config_bump,
        initialized_at: timestamp,
    }
}

/// The event of a successful initialization.
pub open spec fn initialization_event(
    a: InitializeHonoraryPosition,
    params: InitializeHonoraryPositionParams,
    timestamp: i64,
) -> HonoraryPositionInitialized {
    HonoraryPositionInitialized {
        vault: a.vault,
        pool: a.pool,
        quote_mint: a.quote_mint,
        base_mint: a.base_mint,
        position: a.position,
        position_nft_mint: a.position_nft_mint,
        position_authority: a.position_authority,
        y0_total_allocation: params.y0_total_allocation,
        investor_fee_share_bps: params.investor_fee_share_bps,
        timestamp,
    }
}

/// Builds the `HonoraryPositionInitialized` event at clock time `timestamp`.
pub fn honorary_position_initialized(
    accounts: &InitializeHonoraryPosition,
    params: &InitializeHonoraryPositionParams,
    timestamp: i64,
) -> (ev: HonoraryPositionInitialized)
    ensures
        ev == initialization_event(*accounts, *params, timestamp),
{
    HonoraryPositionInitialized {
        vault: accounts.vault,
        pool: accounts.pool,
        quote_mint: accounts.quote_mint,
        base_mint: accounts.base_mint,
        position: accounts.position,
        position_nft_mint: accounts.position_nft_mint,
        position_authority: accounts.position_authority,
        y0_total_allocation: params.y0_total_allocation,
        investor_fee_share_bps: params.investor_fee_share_bps,
        timestamp,
    }
}

} // verus!
