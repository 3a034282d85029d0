//! The authorization gate: every exposed operation routes through it first.

use vstd::prelude::*;

use crate::types::{AccountId, Error, Origin};

verus! {

/// Validates that a call carries a verified caller identity.
///
/// Accepts only origins bearing a signed claim of identity and returns that
/// identity; rejects anonymous calls with [`Error::Unauthorized`]. Pure
/// function of the origin, no side effects. The returned identity is not
/// checked against any permission list: any authenticated caller may
/// register, remove, or vote for any candidate.
pub fn authenticate(origin: Origin) -> (r: Result<AccountId, Error>)
    ensures
        match origin {
            Origin::Signed(who) => r == Ok::<AccountId, Error>(who),
            Origin::Unsigned => r == Err::<AccountId, Error>(Error::Unauthorized),
        },
{
    match origin {
        Origin::Signed(who) => Ok(who),
        Origin::Unsigned => Err(Error::Unauthorized),
    }
}

} // verus!
