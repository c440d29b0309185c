//! Cross-program instructions as plain data: the program id, the ordered
//! account metas and the instruction data handed to `invoke_signed`.
use vstd::prelude::*;

use crate::address::Address;

verus! {

/// One account of an instruction, with its signer and writable flags.
#[derive(Debug, Clone, Copy, PartialEq, Eq)]
pub struct CpiAccountMeta {
    pub pubkey: Address,
    pub is_signer: bool,
    pub is_writable: bool,
}

/// A writable account meta (`AccountMeta::new`).
pub open spec fn writable(pubkey: Address, is_signer: bool) -> CpiAccountMeta {
    CpiAccountMeta { pubkey, is_signer, is_writable: true }
}

/// A read-only account meta (`AccountMeta::new_readonly`).
pub open spec fn readonly(pubkey: Address, is_signer: bool) -> CpiAccountMeta {
    CpiAccountMeta { pubkey, is_signer, is_writable: false }
}

impl CpiAccountMeta {
    /// A writable account meta.
    pub fn new(pubkey: Address, is_signer: bool) -> (m: CpiAccountMeta)
        ensures
            m == writable(pubkey, is_signer),
    {
        CpiAccountMeta { pubkey, is_signer, is_writable: true }
    }

    /// A read-only account meta.
    pub fn new_readonly(pubkey: Address, is_signer: bool) -> (m: CpiAccountMeta)
        ensures
            m == readonly(pubkey, is_signer),
    {
        CpiAccountMeta { pubkey, is_signer, is_writable: false }
    }
}

/// An instruction for another program.
#[derive(Debug, PartialEq, Eq)]
pub struct CpiInstruction {
    pub program_id: Address,
    pub accounts: Vec<CpiAccountMeta>,
    pub data: Vec<u8>,
}

} // verus!
