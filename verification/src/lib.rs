//! Verified core of a pair of token programs: a semi-fungible "DNA" genome
//! token with a one-time market/founder supply split, a genesis engine that
//! burns "RNA" to derive new genome identifiers, and a fungible "RSM" token
//! whose mint amounts come from a weighted quality score.
//!
//! Every state transition is a plain function from old state and request to
//! new state and outcome, with a contract that pins down exactly which inputs
//! succeed, which error each rejected input earns, and how the state changes.
//! The host that owns the accounts performs the resulting balance movements;
//! this crate decides them.

pub mod accounts;
pub mod dna;
pub mod genesis;
pub mod keys;
pub mod rsm;
pub mod scoring;
pub mod wire;
