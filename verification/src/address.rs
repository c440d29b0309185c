//! Account addresses as plain 32-byte arrays.
use vstd::prelude::*;

verus! {

/// A Solana account address (public key), as its 32 raw bytes.
pub type Address = [u8; 32];

/// Exact byte-wise equality of two addresses.
pub fn same_address(a: &Address, b: &Address) -> (r: bool)
    ensures
        r == (a@ == b@),
{
    let mut i: usize = 0;
    while i < 32
        invariant
            0 <= i <= 32,
            a@.len() == 32,
            b@.len() == 32,
            forall|j: int| 0 <= j < i ==> a@[j] == b@[j],
        decreases 32 - i,
    {
        if a[i] != b[i] {
            return false;
        }
        i = i + 1;
    }
    assert(a@ =~= b@);
    true
}

/// `a` comes strictly before `b` in lexicographic byte order (the order of
/// `Pubkey`): they agree up to some position, where `a` holds the smaller
/// byte.
pub open spec fn address_lt(a: Seq<u8>, b: Seq<u8>) -> bool {
    exists|i: int|
        0 <= i < a.len() && i < b.len() && #[trigger] a.subrange(0, i) == b.subrange(0, i) && a[i]
            < b[i]
}

/// Lexicographic byte order of two addresses: `a < b`.
pub fn address_less_than(a: &Address, b: &Address) -> (r: bool)
    ensures
        r == address_lt(a@, b@),
{
    let mut i: usize = 0;
    while i < 32
        invariant
            0 <= i <= 32,
            a@.len() == 32,
            b@.len() == 32,
            forall|j: int| 0 <= j < i ==> a@[j] == b@[j],
        decreases 32 - i,
    {
        if a[i] < b[i] {
            assert(a@.subrange(0, i as int) =~= b@.subrange(0, i as int));
            return true;
        }
        if a[i] > b[i] {
            assert forall|k: int|
                0 <= k < a@.len() && k < b@.len() && #[trigger] a@.subrange(0, k) == b@.subrange(0, k)
                    implies !(a@[k] < b@[k]) by {
                if k > i {
                    assert(a@.subrange(0, k)[i as int] == b@.subrange(0, k)[i as int]);
                }
            }
            return false;
        }
        i = i + 1;
    }
    assert forall|k: int|
        0 <= k < a@.len() && k < b@.len() && #[trigger] a@.subrange(0, k) == b@.subrange(0, k)
            implies !(a@[k] < b@[k]) by {}
    false
}

/// The 32 bytes of `data` that start at `offset`, as an address.
pub fn read_address(data: &[u8], offset: usize) -> (r: Address)
    requires
        offset + 32 <= data@.len(),
    ensures
        r@ == data@.subrange(offset as int, offset + 32),
{
    let mut out: Address = [0u8; 32];
    let mut i: usize = 0;
    while i < 32
        invariant
            0 <= i <= 32,
            offset + 32 <= data.len(),
            out@.len() == 32,
            forall|j: int| 0 <= j < i ==> out@[j] == data@[offset + j],
        decreases 32 - i,
    {
        out[i] = data[offset + i];
        i = i + 1;
    }
    assert(out@ =~= data@.subrange(offset as int, offset + 32));
    out
}

} // verus!
