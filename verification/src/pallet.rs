//! The candidate registry and vote tally, with the three exposed operations.

use std::collections::HashMap;

use vstd::prelude::*;

use crate::auth::authenticate;
use crate::types::{AccountId, Error, Event, Origin};

verus! {

broadcast use vstd::std_specs::hash::group_hash_axioms;

/// Whether a vote for `candidate` can be counted in registry `m`: either the
/// candidate has no record yet (the vote will create one), or its count has
/// room for one more.
pub open spec fn vote_allowed(m: Map<AccountId, u32>, candidate: AccountId) -> bool {
    m.contains_key(candidate) ==> m[candidate] < u32::MAX
}

/// The count a successful vote for `candidate` stores in registry `m`: one
/// more than the current count, or 1 for a candidate with no record yet.
pub open spec fn next_count(m: Map<AccountId, u32>, candidate: AccountId) -> u32 {
    if m.contains_key(candidate) {
        (m[candidate] + 1) as u32
    } else {
        1u32
    }
}

/// The candidate registry together with the log of events owed to the host's
/// event sink. The host passes it by reference into each operation and owns
/// its persistence; the operations own the transition logic.
pub struct Pallet {
    candidates: HashMap<AccountId, u32>,
    events: Vec<Event>,
}

impl Pallet {
    /// The registry's contents: one record per candidate, mapping its
    /// identity to its vote count.
    pub closed spec fn registry(&self) -> Map<AccountId, u32> {
        self.candidates@
    }

    /// The events emitted so far, oldest first: exactly one per successful
    /// state-changing operation, none for a failed one.
    pub closed spec fn emitted(&self) -> Seq<Event> {
        self.events@
    }

    /// An empty registry with an empty event log.
    pub fn new() -> (r: Pallet)
        ensures
            r.registry() == Map::<AccountId, u32>::empty(),
            r.emitted() == Seq::<Event>::empty(),
    {
        Pallet { candidates: HashMap::new(), events: Vec::new() }
    }

    /// Writes a candidate's stored count directly, bypassing authorization
    /// and event emission. This is the host's persistence hook: restoring a
    /// previously persisted registry is a sequence of these writes. It is not
    /// one of the exposed operations.
    pub fn set_count(&mut self, candidate: AccountId, count: u32)
        ensures
            final(self).registry() == old(self).registry().insert(candidate, count),
            final(self).emitted() == old(self).emitted(),
    {
        self.candidates.insert(candidate, count);
    }

    /// The stored vote count for `candidate`, or `None` when no record
    /// exists.
    pub fn get_votes(&self, candidate: AccountId) -> (r: Option<u32>)
        ensures
            match r {
                Some(count) => self.registry().contains_key(candidate) && count
                    == self.registry()[candidate],
                None => !self.registry().contains_key(candidate),
            },
    {
        match self.candidates.get(&candidate) {
            Some(count) => Some(*count),
            None => None,
        }
    }

    /// The event log, oldest first.
    pub fn events(&self) -> (r: &Vec<Event>)
        ensures
            r@ == self.emitted(),
    {
        &self.events
    }

    /// Registers `candidate_id`, creating its record with count 0 and
    /// overwriting any existing record unconditionally. Requires an
    /// authenticated caller; emits [`Event::CandidateAdded`] on success.
    pub fn add_candidate(&mut self, origin: Origin, candidate_id: AccountId) -> (r: Result<
        (),
        Error,
    >)
        ensures
            match origin {
                Origin::Signed(_) => {
                    &&& r == Ok::<(), Error>(())
                    &&& final(self).registry() == old(self).registry().insert(candidate_id, 0u32)
                    &&& final(self).emitted() == old(self).emitted().push(
                        Event::CandidateAdded(candidate_id),
                    )
                },
                Origin::Unsigned => {
                    &&& r == Err::<(), Error>(Error::Unauthorized)
                    &&& final(self).registry() == old(self).registry()
                    &&& final(self).emitted() == old(self).emitted()
                },
            },
    {
        match authenticate(origin) {
            Ok(_) => {},
            Err(e) => {
                return Err(e);
            },
        }
        self.candidates.insert(candidate_id, 0);
        self.events.push(Event::CandidateAdded(candidate_id));
        Ok(())
    }

    /// Unregisters `candidate_id`, deleting its record if present; a no-op
    /// (not an error) if absent. Requires an authenticated caller; emits
    /// [`Event::CandidateRemoved`] on success even when nothing was removed,
    /// consistent with map remove semantics.
    pub fn remove_candidate(&mut self, origin: Origin, candidate_id: AccountId) -> (r: Result<
        (),
        Error,
    >)
        ensures
            match origin {
                Origin::Signed(_) => {
                    &&& r == Ok::<(), Error>(())
                    &&& final(self).registry() == old(self).registry().remove(candidate_id)
                    &&& final(self).emitted() == old(self).emitted().push(
                        Event::CandidateRemoved(candidate_id),
                    )
                },
                Origin::Unsigned => {
                    &&& r == Err::<(), Error>(Error::Unauthorized)
                    &&& final(self).registry() == old(self).registry()
                    &&& final(self).emitted() == old(self).emitted()
                },
            },
    {
        match authenticate(origin) {
            Ok(_) => {},
            Err(e) => {
                return Err(e);
            },
        }
        self.candidates.remove(&candidate_id);
        self.events.push(Event::CandidateRemoved(candidate_id));
        Ok(())
    }

    /// Casts a vote for `candidate`: reads the current count, computes one
    /// more with an overflow check, and writes the result back. A vote for a
    /// candidate with no record silently creates one with count 1 — the
    /// registry deliberately does not require prior registration, so a vote
    /// can implicitly create a record. Requires an authenticated caller.
    ///
    /// Fails with [`Error::StorageOverflow`], leaving the registry unchanged,
    /// when the count is already at `u32::MAX`. On success emits
    /// [`Event::Voted`], where `who` is the authenticated caller (not the
    /// candidate); caller and candidate may coincide.
    pub fn vote(&mut self, origin: Origin, candidate: AccountId) -> (r: Result<(), Error>)
        ensures
            match origin {
                Origin::Signed(who) => {
                    if vote_allowed(old(self).registry(), candidate) {
                        &&& r == Ok::<(), Error>(())
                        &&& final(self).registry() == old(self).registry().insert(
                            candidate,
                            next_count(old(self).registry(), candidate),
                        )
                        &&& final(self).emitted() == old(self).emitted().push(
                            Event::Voted { who, candidate },
                        )
                    } else {
                        &&& r == Err::<(), Error>(Error::StorageOverflow)
                        &&& final(self).registry() == old(self).registry()
                        &&& final(self).emitted() == old(self).emitted()
                    }
                },
                Origin::Unsigned => {
                    &&& r == Err::<(), Error>(Error::Unauthorized)
                    &&& final(self).registry() == old(self).registry()
                    &&& final(self).emitted() == old(self).emitted()
                },
            },
    {
        let who = match authenticate(origin) {
            Ok(who) => who,
            Err(e) => {
                return Err(e);
            },
        };
        let current: Option<u32> = match self.candidates.get(&candidate) {
            Some(count) => Some(*count),
            None => None,
        };
        let new_count: u32 = match current {
            Some(count) => {
                if count == u32::MAX {
                    return Err(Error::StorageOverflow);
                }
                count + 1
            },
            None => 1,
        };
        self.candidates.insert(candidate, new_count);
        self.events.push(Event::Voted { who, candidate });
        Ok(())
    }
}

} // verus!
