//! Program constants: Meteora addresses, seeds, limits and the byte layout
//! of the cp-amm pool account that the program reads.
use vstd::prelude::*;

use crate::address::Address;

verus! {

/// Meteora cp-amm program ID (mainnet & devnet),
/// `cpamdpZCGKUy5JxQXB4dcpGPiikHawvSWAd6mEn1sGG`.
pub const METEORA_CP_AMM_PROGRAM_ID: Address = [
    9, 45, 33, 53, 101, 122, 21, 156, 43, 135, 212, 182, 106, 112, 219, 142,
    151, 82, 56, 159, 247, 106, 175, 32, 108, 237, 6, 58, 56, 249, 90, 237,
];

/// Meteora fixed pool authority,
/// `HLnpSz9h2S4hiLQ43rnSD9XkcUThA7B8hQMKmDaiTLcC`.
pub const METEORA_POOL_AUTHORITY: Address = [
    242, 204, 213, 53, 172, 165, 241, 115, 106, 200, 34, 221, 7, 115, 228, 217,
    47, 189, 138, 89, 178, 148, 3, 80, 2, 149, 169, 1, 28, 115, 169, 229,
];

/// PDA seed `b"vault"`.
pub const VAULT_SEED: [u8; 5] = [118, 97, 117, 108, 116];

/// PDA seed `b"position_authority"`.
pub const POSITION_AUTHORITY_SEED: [u8; 18] = [
    112, 111, 115, 105, 116, 105, 111, 110, 95, 97, 117, 116, 104, 111, 114, 105, 116, 121,
];

/// Seed `b"__event_authority"` of cp-amm's event authority PDA.
pub const EVENT_AUTHORITY_SEED: [u8; 17] = [
    95, 95, 101, 118, 101, 110, 116, 95, 97, 117, 116, 104, 111, 114, 105, 116, 121,
];

/// Largest investor fee share, in basis points (100%).
pub const MAX_INVESTOR_FEE_SHARE_BPS: u16 = 10000;

/// Dust threshold for payouts.
pub const MIN_PAYOUT_LAMPORTS_DEFAULT: u64 = 1000;

/// cp-amm `collect_fee_mode`: fees collected in both tokens.
pub const COLLECT_FEE_MODE_BOTH_TOKEN: u8 = 0;

/// cp-amm `collect_fee_mode`: fees collected only in token B (the quote).
pub const COLLECT_FEE_MODE_ONLY_B: u8 = 1;

/// Offset of the token A mint in the Anchor-serialized cp-amm pool account.
pub const POOL_TOKEN_A_MINT_OFFSET: usize = 168;

/// Offset of the token B mint in the Anchor-serialized cp-amm pool account.
pub const POOL_TOKEN_B_MINT_OFFSET: usize = 200;

/// Offset of `collect_fee_mode` in the Anchor-serialized cp-amm pool account.
pub const POOL_COLLECT_FEE_MODE_OFFSET: usize = 484;

/// Smallest pool account size the program accepts: up to and including
/// `collect_fee_mode`.
pub const POOL_MIN_DATA_LEN: usize = 485;

/// Anchor account discriminator of cp-amm's `Pool` (the first 8 bytes of
/// SHA-256 of `"account:Pool"`).
pub const POOL_DISCRIMINATOR: [u8; 8] = [241, 154, 109, 4, 17, 177, 109, 188];

/// Anchor discriminator of cp-amm `create_position`.
pub const CREATE_POSITION_DISCRIMINATOR: [u8; 8] = [48, 215, 197, 153, 96, 203, 180, 133];

/// Anchor discriminator of cp-amm `claim_position_fee`.
pub const CLAIM_POSITION_FEE_DISCRIMINATOR: [u8; 8] = [180, 38, 154, 17, 133, 33, 162, 211];

/// Anchor discriminator of cp-amm `close_position`.
pub const CLOSE_POSITION_DISCRIMINATOR: [u8; 8] = [123, 134, 81, 0, 49, 68, 98, 98];

} // verus!
