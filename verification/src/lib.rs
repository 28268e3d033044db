//! Verified instruction logic of three Solana vault programs and their
//! account checks: a plain lamport vault, a vault keyed by a secp256r1
//! public key with signed, expiring withdrawals, and an Anchor-style vault.
//!
//! The on-chain I/O (reading accounts and sysvars, invoking the system
//! program) is left to the caller; this crate decides what is checked,
//! which error is returned, and which transfer is to be made.

pub mod account;
pub mod anchor_rent_vault;
pub mod anchor_vault;
pub mod bytes;
pub mod error;
pub mod pda;
pub mod pinocchio_vault;
pub mod scep_vault;
pub mod secp256r1;
pub mod transfer;
