//! Core data types: caller identities, call origins, events, and errors.

use vstd::prelude::*;

verus! {

/// An authenticated principal: the key under which candidates are stored and
/// the identity in whose name votes are cast. Identities are opaque to the
/// registry; all it needs is a comparable key.
pub type AccountId = u64;

/// The context a call arrives with: either it carries a verified signed
/// identity, or it is anonymous.
#[derive(Clone, Copy, PartialEq, Eq, Structural, Debug)]
pub enum Origin {
    /// The call bears a verified signed claim of this identity.
    Signed(AccountId),
    /// The call carries no verifiable identity.
    Unsigned,
}

/// Notifications handed to the host's event sink, one per successful
/// state-changing operation and never on failure.
#[derive(Clone, Copy, PartialEq, Eq, Structural, Debug)]
pub enum Event {
    /// `who` cast a vote for `candidate`. The two may coincide: self-voting
    /// is not restricted.
    Voted { who: AccountId, candidate: AccountId },
    /// A record for this candidate was created or overwritten.
    CandidateAdded(AccountId),
    /// A removal of this candidate was performed (emitted even when the
    /// candidate was already absent).
    CandidateRemoved(AccountId),
}

/// Typed failures. Every failure aborts the whole operation with no state
/// change and no emitted event.
#[derive(Clone, Copy, PartialEq, Eq, Structural, Debug)]
pub enum Error {
    /// The call lacks a verified identity.
    Unauthorized,
    /// The checked increment would exceed the counter's range.
    StorageOverflow,
}

} // verus!
