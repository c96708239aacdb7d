//! A verified conservation ledger for a 1:1 wrapped token.
//!
//! The library models a custodial wrapper: a reserve asset is deposited into a
//! program-controlled vault and a derivative token is issued one-for-one
//! against it. The three operations — initialize, wrap, unwrap — are verified
//! to keep the tracked total, the vault balance and the outstanding derivative
//! supply in lockstep, and to reject invalid requests without touching any
//! state.

use vstd::prelude::*;

pub mod accounts;
pub mod authority;
pub mod custodian;
pub mod errors;
pub mod laws;
pub mod ledger;
pub mod supply;

verus! {

/// A fixed-width account or asset identity, as the hosting ledger assigns it.
pub type AccountId = [u8; 32];

/// Compares two identities byte for byte.
pub fn id_eq(a: &AccountId, b: &AccountId) -> (r: bool)
    ensures
        r == (a@ == b@),
{
    let mut i: usize = 0;
    while i < 32
        invariant
            i <= 32,
            forall|j: int| 0 <= j < i ==> a@[j] == b@[j],
        decreases 32 - i,
    {
        if a[i] != b[i] {
            assert(a@ != b@);
            return false;
        }
        i += 1;
    }
    assert(a@ =~= b@);
    true
}

} // verus!
