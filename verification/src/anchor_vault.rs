//! A lamport vault per signer, at the address derived from `b"vault"` and
//! the signer's key, with the account checks that the vault's account
//! context declares: the signer signs and may be written, the vault belongs
//! to the system program, sits at its derived address and may be written,
//! and the system program follows.
use vstd::prelude::*;
use crate::account::{AccountState, Pubkey, is_owned_by, keys_eq, spec_system_program_id};
use crate::pda::{derived_view, program_address, sdk_find_program_address, seeds_with_bump};

pub use crate::pda::{spec_vault_seeds, vault_seeds};
use crate::transfer::{SignedTransfer, Transfer};

verus! {

/// The errors of the account checks, named as the framework's error codes.
#[derive(Clone, Copy, Debug, PartialEq, Eq, Structural)]
pub enum ErrorCode {
    /// Fewer accounts than the context names.
    AccountNotEnoughKeys,
    /// An account that must sign did not.
    AccountNotSigner,
    /// An account that must belong to the system program does not.
    AccountNotSystemOwned,
    /// The program account is not the expected program.
    InvalidProgramId,
    /// The program account is not executable.
    InvalidProgramExecutable,
    /// An account that must be writable is not.
    ConstraintMut,
    /// An account is not at the address derived from its seeds.
    ConstraintSeeds,
}

/// Returns `anchor_lang::system_program::ID`, the address of the system
/// program, declared there as the base58 address of 32 zero bytes.
#[verifier::external_body]
pub(crate) fn sdk_system_program_id() -> (r: Pubkey)
    ensures
        r@ == spec_system_program_id(),
{
    anchor_lang::system_program::ID.to_bytes()
}

/// The checked accounts of a vault instruction, and the bump seed of the
/// vault's address.
#[derive(Clone, Copy, Debug)]
pub struct VaultContext {
    pub signer: AccountState,
    pub vault: AccountState,
    pub system_account: AccountState,
    pub vault_bump: u8,
}

/// The checks made while the accounts are read, in order: the signer signs,
/// the vault belongs to the system program, the third account is the
/// executable system program; each account missing is
/// `AccountNotEnoughKeys` when its turn comes. Accounts past the third are
/// left alone.
pub open spec fn spec_read_accounts(accounts: Seq<AccountState>) -> Result<(), ErrorCode> {
    if accounts.len() < 1 {
        Err(ErrorCode::AccountNotEnoughKeys)
    } else if !accounts[0].is_signer {
        Err(ErrorCode::AccountNotSigner)
    } else if accounts.len() < 2 {
        Err(ErrorCode::AccountNotEnoughKeys)
    } else if accounts[1].owner@ != spec_system_program_id() {
        Err(ErrorCode::AccountNotSystemOwned)
    } else if accounts.len() < 3 {
        Err(ErrorCode::AccountNotEnoughKeys)
    } else if accounts[2].key@ != spec_system_program_id() {
        Err(ErrorCode::InvalidProgramId)
    } else if !accounts[2].executable {
        Err(ErrorCode::InvalidProgramExecutable)
    } else {
        Ok(())
    }
}

/// The outcome of the account checks, given the address and bump seed
/// `derived` from the signer's vault seeds (`None` where none exists): after
/// the checks made while reading, the signer must be writable, the vault
/// must sit at the derived address and be writable.
pub open spec fn spec_vault_context(accounts: Seq<AccountState>, derived: Option<(Seq<u8>, u8)>) -> Result<VaultContext, ErrorCode> {
    match spec_read_accounts(accounts) {
        Err(e) => Err(e),
        Ok(()) => if !accounts[0].is_writable {
            Err(ErrorCode::ConstraintMut)
        } else {
            match derived {
                None => Err(ErrorCode::ConstraintSeeds),
                Some((key, bump)) => if accounts[1].key@ != key {
                    Err(ErrorCode::ConstraintSeeds)
                } else if !accounts[1].is_writable {
                    Err(ErrorCode::ConstraintMut)
                } else {
                    Ok(VaultContext {
                        signer: accounts[0],
                        vault: accounts[1],
                        system_account: accounts[2],
                        vault_bump: bump,
                    })
                },
            }
        },
    }
}

fn read_accounts(accounts: &[AccountState]) -> (r: Result<(), ErrorCode>)
    ensures
        r == spec_read_accounts(accounts@),
{
    if accounts.len() < 1 {
        return Err(ErrorCode::AccountNotEnoughKeys);
    }
    if !accounts[0].is_signer {
        return Err(ErrorCode::AccountNotSigner);
    }
    if accounts.len() < 2 {
        return Err(ErrorCode::AccountNotEnoughKeys);
    }
    let system = sdk_system_program_id();
    if !is_owned_by(&accounts[1], &system) {
        return Err(ErrorCode::AccountNotSystemOwned);
    }
    if accounts.len() < 3 {
        return Err(ErrorCode::AccountNotEnoughKeys);
    }
    if !keys_eq(&accounts[2].key, &system) {
        return Err(ErrorCode::InvalidProgramId);
    }
    if !accounts[2].executable {
        return Err(ErrorCode::InvalidProgramExecutable);
    }
    Ok(())
}

impl VaultContext {
    /// Checks the accounts of a vault instruction against the vault address
    /// and bump seed `derived` from the signer's vault seeds.
    pub fn validate(accounts: &[AccountState], derived: Option<(Pubkey, u8)>) -> (r: Result<VaultContext, ErrorCode>)
        ensures
            r == spec_vault_context(accounts@, derived_view(derived)),
    {
        read_accounts(accounts)?;
        if !accounts[0].is_writable {
            return Err(ErrorCode::ConstraintMut);
        }
        match derived {
            None => Err(ErrorCode::ConstraintSeeds),
            Some((key, bump)) => {
                if !keys_eq(&accounts[1].key, &key) {
                    return Err(ErrorCode::ConstraintSeeds);
                }
                if !accounts[1].is_writable {
                    return Err(ErrorCode::ConstraintMut);
                }
                Ok(VaultContext {
                    signer: accounts[0],
                    vault: accounts[1],
                    system_account: accounts[2],
                    vault_bump: bump,
                })
            },
        }
    }

    /// Checks the accounts of a vault instruction of program `program_id`,
    /// deriving the vault's address from the signer's vault seeds once the
    /// checks made while reading the accounts and the signer's writability
    /// pass.
    pub fn try_accounts(accounts: &[AccountState], program_id: &Pubkey) -> (r: Result<VaultContext, ErrorCode>)
        ensures
            spec_read_accounts(accounts@) is Err ==> r == spec_vault_context(accounts@, None),
            spec_read_accounts(accounts@) is Ok ==> r == spec_vault_context(
                accounts@,
                program_address(spec_vault_seeds(accounts@[0].key@), program_id@),
            ),
    {
        read_accounts(accounts)?;
        if !accounts[0].is_writable {
            return Err(ErrorCode::ConstraintMut);
        }
        let seeds = vault_seeds(&accounts[0].key);
        let derived = sdk_find_program_address(&seeds, program_id);
        Self::validate(accounts, derived)
    }
}

/// The transfer of a deposit: `amount` from the signer to its vault.
pub fn deposit(ctx: &VaultContext, amount: u64) -> (r: Transfer)
    ensures
        r == (Transfer { from: ctx.signer.key, to: ctx.vault.key, lamports: amount }),
{
    Transfer { from: ctx.signer.key, to: ctx.vault.key, lamports: amount }
}

/// The seeds that sign for the vault in a withdrawal: the signer's vault
/// seeds followed by the vault's bump seed.
pub open spec fn spec_withdraw_signer_seeds(ctx: VaultContext) -> Seq<Seq<u8>> {
    spec_vault_seeds(ctx.signer.key@).push(seq![ctx.vault_bump])
}

/// The transfer of a withdrawal: the vault's whole balance, from the vault
/// to the signer, signed by the signer's vault seeds and the bump seed.
pub fn withdraw(ctx: &VaultContext) -> (r: SignedTransfer)
    ensures
        r.transfer == (Transfer { from: ctx.vault.key, to: ctx.signer.key, lamports: ctx.vault.lamports }),
        r.signer_seeds.deep_view() == spec_withdraw_signer_seeds(*ctx),
{
    let signer_seeds = seeds_with_bump(vault_seeds(&ctx.signer.key), ctx.vault_bump);
    SignedTransfer {
        transfer: Transfer { from: ctx.vault.key, to: ctx.signer.key, lamports: ctx.vault.lamports },
        signer_seeds,
    }
}

/// Whatever the accounts, a context that the checks accept names a vault at
/// the address derived from the signer's vault seeds, with the bump seed
/// found there, and a withdrawal through it is signed by exactly those seeds
/// and that bump seed.
pub proof fn lemma_withdraw_signs_with_derivation(accounts: Seq<AccountState>, program_id: Seq<u8>)
    requires
        spec_vault_context(accounts, program_address(spec_vault_seeds(accounts[0].key@), program_id)) is Ok,
    ensures
        ({
            let ctx = spec_vault_context(accounts, program_address(spec_vault_seeds(accounts[0].key@), program_id))->Ok_0;
            &&& program_address(spec_vault_seeds(ctx.signer.key@), program_id) == Some((ctx.vault.key@, ctx.vault_bump))
            &&& spec_withdraw_signer_seeds(ctx) == spec_vault_seeds(ctx.signer.key@).push(seq![ctx.vault_bump])
        }),
{
}

} // verus!
