//! Multisig-governed program-upgrade library.
//!
//! `upgrade_manager` holds the governance state machine: membership
//! configuration, the proposal lifecycle (propose, approve, execute, cancel),
//! timelock gating and per-record migration flags, all with verified
//! contracts.
//!
//! `upgrade_service` holds the upgrade coordinator, which sequences a
//! proposal end-to-end over injected collaborators (a multisig backend, a
//! notification channel, a program client) and preserves its partial-failure
//! policy.

pub mod upgrade_manager;
pub mod upgrade_service;

pub use upgrade_manager::Pubkey;
