//! Opaque 32-byte identities: account addresses and session hashes.
//!
//! The host addresses every record by a 32-byte key (account identities and
//! the opaque session hash). The billing logic never inspects the bytes; it
//! only compares identities for equality, so the two wrapper types below
//! carry the bytes as plain values and offer verified equality tests.

use vstd::prelude::*;

verus! {

/// The identity of an account: the administrator, the token mint, the
/// custody vault, a user's wallet, or the derived address of a record.
#[derive(Clone, Copy, Debug, PartialEq, Eq)]
pub struct AccountId {
    pub bytes: [u8; 32],
}

/// The opaque 32-byte hash identifying one billable session.
#[derive(Clone, Copy, Debug, PartialEq, Eq)]
pub struct SessionHash {
    pub bytes: [u8; 32],
}

/// Compares two 32-byte arrays; the result agrees with mathematical equality.
pub fn bytes32_eq(a: &[u8; 32], b: &[u8; 32]) -> (r: bool)
    ensures
        r == (*a == *b),
{
    let mut i: usize = 0;
    while i < 32
        invariant
            i <= 32,
            forall|j: int| 0 <= j < i ==> a[j] == b[j],
        decreases 32 - i,
    {
        if a[i] != b[i] {
            return false;
        }
        i += 1;
    }
    proof {
        // Pointwise equality of all 32 bytes gives equality of the arrays.
        assert(*a =~= *b);
    }
    true
}

/// Compares two account identities; the result agrees with `==` on the type.
pub fn id_eq(a: &AccountId, b: &AccountId) -> (r: bool)
    ensures
        r == (*a == *b),
{
    bytes32_eq(&a.bytes, &b.bytes)
}

/// Compares two session hashes; the result agrees with `==` on the type.
pub fn session_hash_eq(a: &SessionHash, b: &SessionHash) -> (r: bool)
    ensures
        r == (*a == *b),
{
    bytes32_eq(&a.bytes, &b.bytes)
}

} // verus!
