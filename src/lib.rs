//! A custodial staking protocol: a user locks a fixed principal in a per-user
//! escrow account and, on withdrawal, receives the principal back together
//! with a reward proportional to the time it was locked.

pub mod reward;
pub mod ledger;
pub mod program;
pub mod derivation;
