//! Verified core of the permissionless fee router for Meteora DAMM v2
//! honorary positions: validation of the pool and of the fee split
//! parameters, the split of claimed fees between investors and creator,
//! and the exact cross-program instructions sent to cp-amm.
//!
//! Everything here works on plain values: account addresses are 32-byte
//! arrays ([`Address`]), account data is a byte slice. The Anchor program
//! that reads the accounts, performs the cross-program invocations and
//! emits the events lives outside this crate and calls into it.
pub mod address;
pub mod constants;
pub mod cpi;
pub mod error;
pub mod events;
pub mod instructions;
pub mod laws;
pub mod layout_laws;
pub mod pda;
pub mod state;


pub use address::{address_less_than, read_address, same_address, Address};
pub use constants::{
    CLAIM_POSITION_FEE_DISCRIMINATOR, CLOSE_POSITION_DISCRIMINATOR, COLLECT_FEE_MODE_BOTH_TOKEN,
    COLLECT_FEE_MODE_ONLY_B, CREATE_POSITION_DISCRIMINATOR, EVENT_AUTHORITY_SEED,
    MAX_INVESTOR_FEE_SHARE_BPS, METEORA_CP_AMM_PROGRAM_ID, METEORA_POOL_AUTHORITY,
    MIN_PAYOUT_LAMPORTS_DEFAULT, POOL_COLLECT_FEE_MODE_OFFSET, POOL_DISCRIMINATOR, POOL_MIN_DATA_LEN,
    POOL_TOKEN_A_MINT_OFFSET, POOL_TOKEN_B_MINT_OFFSET, POSITION_AUTHORITY_SEED, VAULT_SEED,
};
pub use cpi::{CpiAccountMeta, CpiInstruction};
pub use error::FeeRoutingError;
pub use events::{FeesClaimed, FeesRouted, HonoraryPositionInitialized, PositionClosed};
pub use instructions::claim_fee::{
    check_claim, claim_handler, claim_position_fee_instruction, fees_claimed, ClaimFee,
};
pub use instructions::close_position::{
    check_close, close_handler, close_position_instruction, position_closed, ClosePosition,
};
pub use instructions::initialize_honorary_position::{
    check_initialization, create_position_instruction, honorary_position_initialized,
    init_handler, initialized_vault_config, InitializeHonoraryPosition,
    InitializeHonoraryPositionParams, PoolState, starts_with,
};
pub use instructions::route_fees::{
    fees_routed, route_handler, split_fees, FeeSplit, RouteFees, RoutePlan, TokenTransfer,
};
pub use pda::{bytes_of, event_authority_address, position_authority_seeds};
pub use state::VaultConfig;
