//! Opaque account identities.
//!
//! Every record and authority in the protocol is addressed by an identity
//! that the core only ever compares for equality. The zero identity is the
//! sentinel for "no account", as in a cleared pending-admin slot.

use vstd::prelude::*;

verus! {

/// An opaque account identity, compared only by equality.
#[derive(Clone, Copy, PartialEq, Eq, Structural, Hash, Debug)]
pub struct Pubkey {
    /// The identity value; `0` is the "no account" sentinel.
    pub id: u64,
}

impl Pubkey {
    /// The sentinel identity standing for "no account".
    pub fn zero() -> (r: Pubkey)
        ensures
            r == Pubkey::zero_key(),
    {
        Pubkey { id: 0 }
    }

    /// The sentinel identity, as a specification value.
    pub open spec fn zero_key() -> Pubkey {
        Pubkey { id: 0 }
    }
}

} // verus!
