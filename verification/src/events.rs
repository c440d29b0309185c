//! Event records emitted by the program.
use vstd::prelude::*;

use crate::address::Address;

verus! {

/// Emitted when an honorary position is successfully initialized
#[derive(Debug, Clone, Copy, PartialEq, Eq)]
pub struct HonoraryPositionInitialized {
    pub vault: Address,
    pub pool: Address,
    pub quote_mint: Address,
    pub base_mint: Address,
    pub position: Address,
    pub position_nft_mint: Address,
    pub position_authority: Address,
    pub y0_total_allocation: u64,
    pub investor_fee_share_bps: u16,
    pub timestamp: i64,
}

/// Emitted when fees are successfully claimed from the honorary position
#[derive(Debug, Clone, Copy, PartialEq, Eq)]
pub struct FeesClaimed {
    pub vault: Address,
    pub pool: Address,
    pub position: Address,
    pub max_amount_a: u64,
    pub max_amount_b: u64,
    pub timestamp: i64,
}

/// Emitted when claimed fees are routed between investor and creator
#[derive(Debug, Clone, Copy, PartialEq, Eq)]
pub struct FeesRouted {
    pub vault: Address,
    pub total_amount: u64,
    pub investor_share: u64,
    pub creator_share: u64,
    pub timestamp: i64,
}

/// Emitted when a position is closed and vault config is reclaimed
#[derive(Debug, Clone, Copy, PartialEq, Eq)]
pub struct PositionClosed {
    pub vault: Address,
    pub pool: Address,
    pub position: Address,
    pub timestamp: i64,
}

} // verus!
