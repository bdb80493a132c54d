//! Deposit slots, lockups and voting weight of a token-staking registry.
//!
//! A [`voter::Voter`] holds a fixed array of deposit slots. Each slot holds one asset of the
//! [`registrar::Registrar`] under a [`lockup::Lockup`]. The operations in [`funding`],
//! [`staking`] and [`release`] move a voter from one state to the next and say what the
//! caller still has to do outside: move tokens in or out of custody, and deliver a
//! [`notice::RewardNotice`] to the reward service. An operation that fails leaves the voter
//! as it was. [`laws`] states what holds across operations.
pub mod address;
pub mod deposit_entry;
pub mod error;
pub mod funding;
pub mod laws;
pub mod lockup;
pub mod notice;
pub mod registrar;
pub mod release;
pub mod staking;
pub mod voter;
