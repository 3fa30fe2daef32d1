//! Validation-and-state-transition core of two ledger-custody services:
//! an escrow swap and a capped faucet. The hosting runtime hands each call
//! a raw instruction payload and an ordered list of account handles; the
//! core decodes and validates them, updates the persisted records, and
//! returns the delegated ledger operations to be issued on its behalf.

pub mod account;
pub mod authority;
pub mod error;
pub mod escrow;
pub mod instruction;
pub mod laws;
pub mod ledger;
pub mod ops;
pub mod processor;
pub mod state;

use vstd::prelude::*;

verus! {

/// Compares two 32-byte identities for equality.
pub fn key_eq(a: &[u8; 32], b: &[u8; 32]) -> (r: bool)
    ensures
        r == (a@ == b@),
{
    let mut i: usize = 0;
    while i < 32
        invariant
            0 <= i <= 32,
            forall|j: int| 0 <= j < i ==> a@[j] == b@[j],
        decreases 32 - i,
    {
        if a[i] != b[i] {
            assert(a@ != b@);
            return false;
        }
        i += 1;
    }
    assert(a@ =~= b@);
    true
}

} // verus!
