//! The exact shape of what each instruction produces, stated field by field
//! against its inputs: cp-amm's account layouts, the recorded
//! configuration, the events, the signer seeds and the pool layout read.
use vstd::prelude::*;

use crate::address::address_lt;
use crate::constants::{
    CLAIM_POSITION_FEE_DISCRIMINATOR, CLOSE_POSITION_DISCRIMINATOR, CREATE_POSITION_DISCRIMINATOR,
    METEORA_CP_AMM_PROGRAM_ID, METEORA_POOL_AUTHORITY,
};
use crate::cpi::{CpiAccountMeta, CpiInstruction};
use crate::instructions::claim_fee::is_claim_position_fee_instruction;
use crate::instructions::close_position::is_close_position_instruction;
use crate::instructions::initialize_honorary_position::{is_create_position_instruction, pool_parse_outcome};
use crate::pda::{derived_event_authority, program_address};
use crate::state::VaultConfig;
use crate::instructions::claim_fee::{claim_event, claim_position_fee_metas, ClaimFee};
use crate::instructions::close_position::{close_event, close_position_metas, ClosePosition};
use crate::instructions::initialize_honorary_position::{
    create_position_metas, initial_vault_config, initialization_event, pool_state_of,
    InitializeHonoraryPosition, InitializeHonoraryPositionParams,
};
use crate::instructions::route_fees::{routing_event, FeeSplit, RouteFees};
use crate::pda::{event_authority_seeds, position_authority_seed_list};

verus! {

/// cp-amm's `create_position` takes, in this order: the position authority
/// (owner, read-only), the position NFT mint (writable signer), the NFT
/// account, the pool and the position (writable), the pool authority
/// (read-only), the payer (writable signer), the token and system programs,
/// the event authority and the cp-amm program (read-only).
pub proof fn lemma_create_position_layout(a: InitializeHonoraryPosition)
    ensures
        ({
            let m = create_position_metas(a);
            &&& m.len() == 11
            &&& m[0] == (CpiAccountMeta { pubkey: a.position_authority, is_signer: false, is_writable: false })
            &&& m[1] == (CpiAccountMeta { pubkey: a.position_nft_mint, is_signer: true, is_writable: true })
            &&& m[2] == (CpiAccountMeta { pubkey: a.position_nft_account, is_signer: false, is_writable: true })
            &&& m[3] == (CpiAccountMeta { pubkey: a.pool, is_signer: false, is_writable: true })
            &&& m[4] == (CpiAccountMeta { pubkey: a.position, is_signer: false, is_writable: true })
            &&& m[5] == (CpiAccountMeta { pubkey: a.pool_authority, is_signer: false, is_writable: false })
            &&& m[6] == (CpiAccountMeta { pubkey: a.payer, is_signer: true, is_writable: true })
            &&& m[7] == (CpiAccountMeta { pubkey: a.token_program, is_signer: false, is_writable: false })
            &&& m[8] == (CpiAccountMeta { pubkey: a.system_program, is_signer: false, is_writable: false })
            &&& m[9] == (CpiAccountMeta { pubkey: a.event_authority, is_signer: false, is_writable: false })
            &&& m[10] == (CpiAccountMeta { pubkey: a.cp_amm_program, is_signer: false, is_writable: false })
        }),
{
}

/// cp-amm's `claim_position_fee` takes, in this order: the pool authority and
/// the pool (read-only); the position, both treasuries and both pool vaults
/// (writable); the two mints and the NFT account (read-only); the position
/// authority as the only signer; the two token programs, the event authority
/// and the cp-amm program (read-only). The flags do not depend on which
/// accounts coincide.
pub proof fn lemma_claim_position_fee_layout(a: ClaimFee)
    ensures
        ({
            let m = claim_position_fee_metas(a);
            &&& m.len() == 15
            &&& m[0] == (CpiAccountMeta { pubkey: a.pool_authority, is_signer: false, is_writable: false })
            &&& m[1] == (CpiAccountMeta { pubkey: a.pool, is_signer: false, is_writable: false })
            &&& m[2] == (CpiAccountMeta { pubkey: a.position, is_signer: false, is_writable: true })
            &&& m[3] == (CpiAccountMeta { pubkey: a.token_a_treasury, is_signer: false, is_writable: true })
            &&& m[4] == (CpiAccountMeta { pubkey: a.token_b_treasury, is_signer: false, is_writable: true })
            &&& m[5] == (CpiAccountMeta { pubkey: a.token_a_vault, is_signer: false, is_writable: true })
            &&& m[6] == (CpiAccountMeta { pubkey: a.token_b_vault, is_signer: false, is_writable: true })
            &&& m[7] == (CpiAccountMeta { pubkey: a.base_mint, is_signer: false, is_writable: false })
            &&& m[8] == (CpiAccountMeta { pubkey: a.quote_mint, is_signer: false, is_writable: false })
            &&& m[9] == (CpiAccountMeta { pubkey: a.position_nft_account, is_signer: false, is_writable: false })
            &&& m[10] == (CpiAccountMeta { pubkey: a.position_authority, is_signer: true, is_writable: false })
            &&& m[11] == (CpiAccountMeta { pubkey: a.token_a_program, is_signer: false, is_writable: false })
            &&& m[12] == (CpiAccountMeta { pubkey: a.token_b_program, is_signer: false, is_writable: false })
            &&& m[13] == (CpiAccountMeta { pubkey: a.event_authority, is_signer: false, is_writable: false })
            &&& m[14] == (CpiAccountMeta { pubkey: a.cp_amm_program, is_signer: false, is_writable: false })
        }),
{
}

/// cp-amm's `close_position` takes, in this order: the NFT mint, the NFT
/// account, the pool and the position (writable); the pool authority
/// (read-only); the rent receiver (writable, it receives the position's
/// rent); the position authority as the only signer; the token program, the
/// event authority and the cp-amm program (read-only).
pub proof fn lemma_close_position_layout(a: ClosePosition)
    ensures
        ({
            let m = close_position_metas(a);
            &&& m.len() == 10
            &&& m[0] == (CpiAccountMeta { pubkey: a.position_nft_mint, is_signer: false, is_writable: true })
            &&& m[1] == (CpiAccountMeta { pubkey: a.position_nft_account, is_signer: false, is_writable: true })
            &&& m[2] == (CpiAccountMeta { pubkey: a.pool, is_signer: false, is_writable: true })
            &&& m[3] == (CpiAccountMeta { pubkey: a.position, is_signer: false, is_writable: true })
            &&& m[4] == (CpiAccountMeta { pubkey: a.pool_authority, is_signer: false, is_writable: false })
            &&& m[5] == (CpiAccountMeta { pubkey: a.rent_receiver, is_signer: false, is_writable: true })
            &&& m[6] == (CpiAccountMeta { pubkey: a.position_authority, is_signer: true, is_writable: false })
            &&& m[7] == (CpiAccountMeta { pubkey: a.token_program, is_signer: false, is_writable: false })
            &&& m[8] == (CpiAccountMeta { pubkey: a.event_authority, is_signer: false, is_writable: false })
            &&& m[9] == (CpiAccountMeta { pubkey: a.cp_amm_program, is_signer: false, is_writable: false })
        }),
{
}

/// The configuration an initialization records holds exactly its inputs:
/// the accounts' addresses, the parameters, the two bumps and the time.
pub proof fn lemma_initial_vault_config_records_inputs(
    a: InitializeHonoraryPosition,
    p: InitializeHonoraryPositionParams,
    position_authority_bump: u8,
    vault_config_bump: u8,
    timestamp: i64,
)
    ensures
        ({
            let c = initial_vault_config(a, p, position_authority_bump, vault_config_bump, timestamp);
            &&& c.vault == a.vault
            &&& c.pool == a.pool
            &&& c.quote_mint == a.quote_mint
            &&& c.base_mint == a.base_mint
            &&& c.honorary_position == a.position
            &&& c.position_nft_mint == a.position_nft_mint
            &&& c.position_authority_bump == position_authority_bump
            &&& c.y0_total_allocation == p.y0_total_allocation
            &&& c.investor_fee_share_bps == p.investor_fee_share_bps
            &&& c.creator_quote_ata == a.creator_quote_ata
            &&& c.bump == vault_config_bump
            &&& c.initialized_at == timestamp
        }),
{
}

/// Each event reports exactly its instruction's accounts, amounts and time.
pub proof fn lemma_events_record_inputs(
    init: InitializeHonoraryPosition,
    p: InitializeHonoraryPositionParams,
    claim: ClaimFee,
    close: ClosePosition,
    route: RouteFees,
    balance: u64,
    split: FeeSplit,
    timestamp: i64,
)
    ensures
        ({
            let e = initialization_event(init, p, timestamp);
            &&& e.vault == init.vault
            &&& e.pool == init.pool
            &&& e.quote_mint == init.quote_mint
            &&& e.base_mint == init.base_mint
            &&& e.position == init.position
            &&& e.position_nft_mint == init.position_nft_mint
            &&& e.position_authority == init.position_authority
            &&& e.y0_total_allocation == p.y0_total_allocation
            &&& e.investor_fee_share_bps == p.investor_fee_share_bps
            &&& e.timestamp == timestamp
        }),
        ({
            let e = claim_event(claim, timestamp);
            &&& e.vault == claim.vault
            &&& e.pool == claim.pool
            &&& e.position == claim.position
            &&& e.max_amount_a == 0
            &&& e.max_amount_b == 0
            &&& e.timestamp == timestamp
        }),
        ({
            let e = close_event(close, timestamp);
            &&& e.vault == close.vault
            &&& e.pool == close.pool
            &&& e.position == close.position
            &&& e.timestamp == timestamp
        }),
        ({
            let e = routing_event(route, balance, split, timestamp);
            &&& e.vault == route.vault
            &&& e.total_amount == balance
            &&& e.investor_share == split.investor_share
            &&& e.creator_share == split.creator_share
            &&& e.timestamp == timestamp
        }),
{
}

/// The position authority signs with `[b"vault", vault, b"position_authority", [bump]]`,
/// and cp-amm's event authority is derived from `[b"__event_authority"]`.
pub proof fn lemma_seed_bytes(vault: Seq<u8>, bump: u8)
    ensures
        position_authority_seed_list(vault, bump) == seq![
            seq![118u8, 97, 117, 108, 116],
            vault,
            seq![112u8, 111, 115, 105, 116, 105, 111, 110, 95, 97, 117, 116, 104, 111, 114, 105, 116, 121],
            seq![bump],
        ],
        event_authority_seeds() == seq![
            seq![95u8, 95, 101, 118, 101, 110, 116, 95, 97, 117, 116, 104, 111, 114, 105, 116, 121],
        ],
{
    assert(position_authority_seed_list(vault, bump)[0] =~= seq![118u8, 97, 117, 108, 116]);
    assert(position_authority_seed_list(vault, bump)[2] =~= seq![
        112u8, 111, 115, 105, 116, 105, 111, 110, 95, 97, 117, 116, 104, 111, 114, 105, 116, 121,
    ]);
    assert(position_authority_seed_list(vault, bump) =~= seq![
        seq![118u8, 97, 117, 108, 116],
        vault,
        seq![112u8, 111, 115, 105, 116, 105, 111, 110, 95, 97, 117, 116, 104, 111, 114, 105, 116, 121],
        seq![bump],
    ]);
    assert(event_authority_seeds()[0] =~= seq![
        95u8, 95, 101, 118, 101, 110, 116, 95, 97, 117, 116, 104, 111, 114, 105, 116, 121,
    ]);
    assert(event_authority_seeds() =~= seq![
        seq![95u8, 95, 101, 118, 101, 110, 116, 95, 97, 117, 116, 104, 111, 114, 105, 116, 121],
    ]);
}

/// The pool fields are read from cp-amm's layout: token A mint at bytes
/// 168..200, token B mint at 200..232, `collect_fee_mode` at byte 484.
pub proof fn lemma_pool_layout(data: Seq<u8>)
    ensures
        pool_state_of(data).token_a_mint == data.subrange(168, 200),
        pool_state_of(data).token_b_mint == data.subrange(200, 232),
        pool_state_of(data).collect_fee_mode == data[484],
{
}

/// The cp-amm instructions go to the given cp-amm program with Anchor's
/// discriminators of `create_position`, `claim_position_fee` and
/// `close_position`.
pub proof fn lemma_instruction_data(
    ix: CpiInstruction,
    init: InitializeHonoraryPosition,
    claim: ClaimFee,
    close: ClosePosition,
)
    ensures
        is_create_position_instruction(ix, init) ==> ix.program_id == init.cp_amm_program && ix.data@
            == seq![48u8, 215, 197, 153, 96, 203, 180, 133],
        is_claim_position_fee_instruction(ix, claim) ==> ix.program_id == claim.cp_amm_program
            && ix.data@ == seq![180u8, 38, 154, 17, 133, 33, 162, 211],
        is_close_position_instruction(ix, close) ==> ix.program_id == close.cp_amm_program
            && ix.data@ == seq![123u8, 134, 81, 0, 49, 68, 98, 98],
{
    assert(CREATE_POSITION_DISCRIMINATOR@ =~= seq![48u8, 215, 197, 153, 96, 203, 180, 133]);
    assert(CLAIM_POSITION_FEE_DISCRIMINATOR@ =~= seq![180u8, 38, 154, 17, 133, 33, 162, 211]);
    assert(CLOSE_POSITION_DISCRIMINATOR@ =~= seq![123u8, 134, 81, 0, 49, 68, 98, 98]);
}

/// The Meteora addresses are cp-amm's program id
/// (`cpamdpZCGKUy5JxQXB4dcpGPiikHawvSWAd6mEn1sGG`) and its pool authority
/// (`HLnpSz9h2S4hiLQ43rnSD9XkcUThA7B8hQMKmDaiTLcC`), and the configuration
/// account takes 252 bytes.
pub proof fn lemma_program_constants()
    ensures
        METEORA_CP_AMM_PROGRAM_ID@ == seq![
            9u8, 45, 33, 53, 101, 122, 21, 156, 43, 135, 212, 182, 106, 112, 219, 142,
            151, 82, 56, 159, 247, 106, 175, 32, 108, 237, 6, 58, 56, 249, 90, 237,
        ],
        METEORA_POOL_AUTHORITY@ == seq![
            242u8, 204, 213, 53, 172, 165, 241, 115, 106, 200, 34, 221, 7, 115, 228, 217,
            47, 189, 138, 89, 178, 148, 3, 80, 2, 149, 169, 1, 28, 115, 169, 229,
        ],
        VaultConfig::LEN == 252,
{
    assert(METEORA_CP_AMM_PROGRAM_ID@ =~= seq![
        9u8, 45, 33, 53, 101, 122, 21, 156, 43, 135, 212, 182, 106, 112, 219, 142,
        151, 82, 56, 159, 247, 106, 175, 32, 108, 237, 6, 58, 56, 249, 90, 237,
    ]);
    assert(METEORA_POOL_AUTHORITY@ =~= seq![
        242u8, 204, 213, 53, 172, 165, 241, 115, 106, 200, 34, 221, 7, 115, 228, 217,
        47, 189, 138, 89, 178, 148, 3, 80, 2, 149, 169, 1, 28, 115, 169, 229,
    ]);
}

/// The event authority that cp-amm must use is the address found by the
/// program-address search over `[b"__event_authority"]` under the cp-amm
/// program, whatever its bump, and there is one exactly when the search
/// finds one.
pub proof fn lemma_event_authority_derivation(program: Seq<u8>)
    ensures
        ({
            let found = program_address(
                seq![seq![95u8, 95, 101, 118, 101, 110, 116, 95, 97, 117, 116, 104, 111, 114, 105, 116, 121]],
                program,
            );
            &&& derived_event_authority(program) is Some <==> found is Some
            &&& found is Some ==> derived_event_authority(program) == Some((found->0).0)
        }),
{
    lemma_seed_bytes(seq![], 0);
}

/// A pool account is read exactly when it holds at least 485 bytes.
pub proof fn lemma_pool_parse_threshold(data: Seq<u8>)
    ensures
        pool_parse_outcome(data) is Ok <==> data.len() >= 485,
        data.len() >= 485 ==> pool_parse_outcome(data) == Ok::<
            crate::instructions::initialize_honorary_position::PoolStateView,
            crate::error::FeeRoutingError,
        >(pool_state_of(data)),
{
}

/// The order on mints is strict: no mint comes before itself, and of two
/// mints at most one comes before the other; a smaller first byte decides.
pub proof fn lemma_address_order(a: Seq<u8>, b: Seq<u8>)
    requires
        a.len() == 32,
        b.len() == 32,
    ensures
        !address_lt(a, a),
        !(address_lt(a, b) && address_lt(b, a)),
        a[0] < b[0] ==> address_lt(a, b),
{
    if a[0] < b[0] {
        assert(a.subrange(0, 0) =~= b.subrange(0, 0));
    }
    if address_lt(a, b) && address_lt(b, a) {
        let i = choose|i: int|
            0 <= i < a.len() && i < b.len() && #[trigger] a.subrange(0, i) == b.subrange(0, i)
                && a[i] < b[i];
        let j = choose|j: int|
            0 <= j < b.len() && j < a.len() && #[trigger] b.subrange(0, j) == a.subrange(0, j)
                && b[j] < a[j];
        if i < j {
            assert(b.subrange(0, j)[i] == a.subrange(0, j)[i]);
        } else if j < i {
            assert(a.subrange(0, i)[j] == b.subrange(0, i)[j]);
        }
    }
}

} // verus!
