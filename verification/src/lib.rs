//! A minimal candidate registry and vote-tally state machine.
//!
//! Callers register and unregister candidates and cast votes that increment a
//! per-candidate counter. Every operation is gated on an authenticated caller
//! identity, registry mutation is idempotent, and vote accumulation is
//! overflow-safe. The host delivers one authenticated operation at a time and
//! owns persistence and event delivery; this crate owns the state-transition
//! logic and its invariants.

pub mod auth;
pub mod laws;
pub mod pallet;
pub mod types;
