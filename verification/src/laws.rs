//! Laws the operations obey, stated over the registry model that the
//! operations' contracts use and proved once and for all.

use vstd::prelude::*;

use crate::pallet::{next_count, vote_allowed};
use crate::types::AccountId;

verus! {

/// Idempotent removal: removing a candidate twice leaves the same registry as
/// removing it once. Together with `remove_candidate`'s contract — which pins
/// the new registry to `remove` of the old and promises success for every
/// signed origin — two successive removals of the same candidate both succeed
/// and leave identical registries.
pub proof fn lemma_remove_idempotent(m: Map<AccountId, u32>, x: AccountId)
    ensures
        m.remove(x).remove(x) == m.remove(x),
{
    assert(m.remove(x).remove(x) =~= m.remove(x));
}

/// Monotonic vote count: a candidate whose current count is below `u32::MAX`
/// may be voted for, and the registry a successful vote leaves behind stores
/// exactly one more vote for it.
pub proof fn lemma_vote_increments(m: Map<AccountId, u32>, candidate: AccountId)
    requires
        m.contains_key(candidate),
        m[candidate] < u32::MAX,
    ensures
        vote_allowed(m, candidate),
        m.insert(candidate, next_count(m, candidate))[candidate] == m[candidate] + 1,
{
}

/// A vote for a candidate with no record is allowed and creates the record
/// with count 1 (implicit creation, flagged on `vote` itself).
pub proof fn lemma_vote_creates_record(m: Map<AccountId, u32>, candidate: AccountId)
    requires
        !m.contains_key(candidate),
    ensures
        vote_allowed(m, candidate),
        m.insert(candidate, next_count(m, candidate))[candidate] == 1u32,
{
}

/// Overflow guard: a candidate whose count stands at `u32::MAX` may not be
/// voted for. By `vote`'s contract the call then fails with
/// `Error::StorageOverflow` and leaves registry and event log unchanged.
pub proof fn lemma_overflow_guard(m: Map<AccountId, u32>, candidate: AccountId)
    requires
        m.contains_key(candidate),
        m[candidate] == u32::MAX,
    ensures
        !vote_allowed(m, candidate),
{
}

/// Adding a candidate and then removing it always leaves it absent from the
/// registry.
pub proof fn lemma_add_remove_absent(m: Map<AccountId, u32>, x: AccountId)
    ensures
        !m.insert(x, 0u32).remove(x).contains_key(x),
{
}

/// Add-then-remove round trip: for a candidate not yet registered, adding it
/// and then removing it restores the initial registry exactly. (When the
/// candidate is already registered the round trip still leaves it absent —
/// see `lemma_add_remove_absent` — but its old record is gone, so the initial
/// registry is not restored.)
pub proof fn lemma_add_remove_round_trip(m: Map<AccountId, u32>, x: AccountId)
    requires
        !m.contains_key(x),
    ensures
        m.insert(x, 0u32).remove(x) == m,
{
    assert(m.insert(x, 0u32).remove(x) =~= m);
}

} // verus!
