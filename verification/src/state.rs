//! Persistent program state.
use vstd::prelude::*;

use crate::address::Address;
use crate::constants::MAX_INVESTOR_FEE_SHARE_BPS;

verus! {

/// Per-vault configuration, stored in the PDA `[b"vault", vault]`.
#[derive(Debug, Clone, Copy, PartialEq, Eq)]
pub struct VaultConfig {
    /// The vault this configuration belongs to
    pub vault: Address,
    /// DAMM v2 pool address
    pub pool: Address,
    /// Quote token mint (fees collected in this token)
    pub quote_mint: Address,
    /// Base token mint
    pub base_mint: Address,
    /// Honorary position account address
    pub honorary_position: Address,
    /// Position NFT mint
    pub position_nft_mint: Address,
    /// Position authority PDA bump
    pub position_authority_bump: u8,
    /// Total investor allocation minted at TGE (Y0)
    pub y0_total_allocation: u64,
    /// Investor fee share in basis points (0-10000)
    pub investor_fee_share_bps: u16,
    /// Creator's quote token ATA (receives remainder fees)
    pub creator_quote_ata: Address,
    /// VaultConfig PDA bump
    pub bump: u8,
    /// Initialization timestamp
    pub initialized_at: i64,
}

impl VaultConfig {
    /// Space required for the account: the 8-byte Anchor discriminator,
    /// seven addresses of 32 bytes, two one-byte bumps, the `u64`
    /// allocation, the `u16` fee share and the `i64` timestamp.
    pub const LEN: usize = 8 + 32 + 32 + 32 + 32 + 32 + 32 + 1 + 8 + 2 + 32 + 1 + 8;

    /// A configuration the program itself could have written: its fee share
    /// does not exceed 100% and its total investor allocation is not zero.
    pub open spec fn is_valid(&self) -> bool {
        &&& self.investor_fee_share_bps <= MAX_INVESTOR_FEE_SHARE_BPS
        &&& self.y0_total_allocation > 0
    }
}

} // verus!
