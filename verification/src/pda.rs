//! Program-derived addresses and signer seeds.
use vstd::prelude::*;

use crate::address::Address;
use crate::constants::{EVENT_AUTHORITY_SEED, POSITION_AUTHORITY_SEED, VAULT_SEED};

verus! {

/// What `Pubkey::try_find_program_address` returns for `seeds` under
/// `program_id`: the first off-curve address found by lowering the bump
/// from 255, with that bump, or nothing. A pure function of its arguments
/// (SHA-256 and an ed25519 curve test).
pub uninterp spec fn program_address(seeds: Seq<Seq<u8>>, program_id: Seq<u8>) -> Option<(Seq<u8>, u8)>;

/// Calls `anchor_lang::prelude::Pubkey::try_find_program_address`
/// (solana-pubkey). Claims only that its result, taken as bytes, is the
/// named value [`program_address`] of the seeds and the program id. When it
/// returns nothing (too many or too long seeds, or no bump gives an
/// off-curve address) is left unsaid.
#[verifier::external_body]
fn try_find_program_address(seeds: &Vec<Vec<u8>>, program_id: &Address) -> (r: Option<(Address, u8)>)
    ensures
        match r {
            Some((a, b)) => program_address(seeds.deep_view(), program_id@) == Some((a@, b)),
            None => program_address(seeds.deep_view(), program_id@) is None,
        },
{
    let refs: Vec<&[u8]> = seeds.iter().map(|s| s.as_slice()).collect();
    let id = anchor_lang::prelude::Pubkey::new_from_array(*program_id);
    anchor_lang::prelude::Pubkey::try_find_program_address(&refs, &id).map(|(k, b)| (k.to_bytes(), b))
}

/// A fresh vector holding the bytes of `s`.
pub fn bytes_of(s: &[u8]) -> (r: Vec<u8>)
    ensures
        r@ == s@,
{
    let mut v: Vec<u8> = Vec::new();
    let mut i: usize = 0;
    while i < s.len()
        invariant
            0 <= i <= s@.len(),
            v@ == s@.subrange(0, i as int),
        decreases s@.len() - i,
    {
        v.push(s[i]);
        i = i + 1;
        assert(v@ =~= s@.subrange(0, i as int));
    }
    assert(s@.subrange(0, s@.len() as int) =~= s@);
    v
}

/// The deep view of a byte vector is its plain view.
proof fn lemma_bytes_deep_view(v: Vec<u8>)
    ensures
        v.deep_view() == v@,
{
    assert(v.deep_view() =~= v@);
}

/// The seeds of cp-amm's event authority PDA: `[b"__event_authority"]`.
pub open spec fn event_authority_seeds() -> Seq<Seq<u8>> {
    seq![EVENT_AUTHORITY_SEED@]
}

/// The event authority that cp-amm at `program` must use, where one exists.
pub open spec fn derived_event_authority(program: Seq<u8>) -> Option<Seq<u8>> {
    match program_address(event_authority_seeds(), program) {
        Some((a, _)) => Some(a),
        None => None,
    }
}

/// Derives the event authority PDA of the cp-amm program at
/// `cp_amm_program` (seed `b"__event_authority"`).
pub fn event_authority_address(cp_amm_program: &Address) -> (r: Option<Address>)
    ensures
        match r {
            Some(a) => derived_event_authority(cp_amm_program@) == Some(a@),
            None => derived_event_authority(cp_amm_program@) is None,
        },
{
    let mut seeds: Vec<Vec<u8>> = Vec::new();
    let s0 = bytes_of(&EVENT_AUTHORITY_SEED);
    proof {
        lemma_bytes_deep_view(s0);
    }
    seeds.push(s0);
    assert(seeds.deep_view() =~= event_authority_seeds());
    match try_find_program_address(&seeds, cp_amm_program) {
        Some((a, _)) => Some(a),
        None => None,
    }
}

/// The signer seeds of the position authority PDA of `vault` with `bump`.
pub open spec fn position_authority_seed_list(vault: Seq<u8>, bump: u8) -> Seq<Seq<u8>> {
    seq![VAULT_SEED@, vault, POSITION_AUTHORITY_SEED@, seq![bump]]
}

/// The seeds with which the program signs for the position authority of
/// `vault`: `[b"vault", vault, b"position_authority", [bump]]`.
pub fn position_authority_seeds(vault: &Address, bump: u8) -> (r: Vec<Vec<u8>>)
    ensures
        r.deep_view() == position_authority_seed_list(vault@, bump),
{
    let mut seeds: Vec<Vec<u8>> = Vec::new();
    let s0 = bytes_of(&VAULT_SEED);
    let s1 = bytes_of(vault);
    let s2 = bytes_of(&POSITION_AUTHORITY_SEED);
    let mut s3: Vec<u8> = Vec::new();
    s3.push(bump);
    proof {
        lemma_bytes_deep_view(s0);
        lemma_bytes_deep_view(s1);
        lemma_bytes_deep_view(s2);
        lemma_bytes_deep_view(s3);
        assert(s3@ =~= seq![bump]);
    }
    seeds.push(s0);
    seeds.push(s1);
    seeds.push(s2);
    seeds.push(s3);
    assert(seeds.deep_view() =~= position_authority_seed_list(vault@, bump));
    seeds
}

} // verus!
