use vstd::prelude::*;
use crate::account::Pubkey;

verus! {

/// A lamport transfer through the system program that an instruction asks for.
#[derive(Clone, Copy, Debug)]
pub struct Transfer {
    /// The account that pays.
    pub from: Pubkey,
    /// The account that receives.
    pub to: Pubkey,
    /// The amount moved.
    pub lamports: u64,
}

/// A transfer out of a program-derived account, with the seeds that sign for it.
#[derive(Debug)]
pub struct SignedTransfer {
    /// The transfer itself.
    pub transfer: Transfer,
    /// The seeds, bump seed last, from which the paying account's address derives.
    pub signer_seeds: Vec<Vec<u8>>,
}

} // verus!
