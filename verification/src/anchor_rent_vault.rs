//! The vault of `anchor_vault`, in the version that refuses deposits that
//! would not lift the vault above the rent-exempt minimum of an empty
//! account.
use vstd::prelude::*;
use crate::anchor_vault::{VaultContext, spec_withdraw_signer_seeds};
use crate::transfer::{SignedTransfer, Transfer};

verus! {

/// The checked accounts of a vault instruction; the same checks as
/// `anchor_vault::VaultContext`.
pub type VaultTransfer = VaultContext;

/// The errors of this program.
#[derive(Clone, Copy, Debug, PartialEq, Eq, Structural)]
pub enum VaultError {
    /// The deposit does not exceed the rent-exempt minimum ("More amount required").
    InvalidAmount,
}

/// The transfer of a deposit, given the rent-exempt minimum balance of an
/// account without data: an amount that does not exceed it is refused with
/// `InvalidAmount`; otherwise `amount` moves from the signer to its vault.
pub fn deposit(ctx: &VaultTransfer, amount: u64, minimum_balance: u64) -> (r: Result<Transfer, VaultError>)
    ensures
        amount <= minimum_balance ==> r == Err::<Transfer, VaultError>(VaultError::InvalidAmount),
        amount > minimum_balance ==> r == Ok::<Transfer, VaultError>(Transfer { from: ctx.signer.key, to: ctx.vault.key, lamports: amount }),
{
    if amount <= minimum_balance {
        return Err(VaultError::InvalidAmount);
    }
    Ok(Transfer { from: ctx.signer.key, to: ctx.vault.key, lamports: amount })
}

/// The transfer of a withdrawal: the vault's whole balance, from the vault
/// to the signer, signed by the signer's vault seeds and the bump seed.
pub fn withdraw(ctx: &VaultTransfer) -> (r: SignedTransfer)
    ensures
        r.transfer == (Transfer { from: ctx.vault.key, to: ctx.signer.key, lamports: ctx.vault.lamports }),
        r.signer_seeds.deep_view() == spec_withdraw_signer_seeds(*ctx),
{
    crate::anchor_vault::withdraw(ctx)
}

} // verus!
