//! A lamport vault per owner, at the address derived from `b"vault"` and the
//! owner's key: the owner deposits into an empty vault and later withdraws
//! its whole balance.
use vstd::prelude::*;
use crate::account::{AccountState, Pubkey, spec_system_program_id, system_program_id, is_owned_by, keys_eq};
use crate::bytes::{le_value, u64_from_le_bytes};
use crate::error::ProgramError;
use crate::pda::{derived_view, runtime_find_program_address, runtime_program_address, seeds_with_bump};
use crate::transfer::{SignedTransfer, Transfer};

pub use crate::pda::{spec_vault_seeds, vault_seeds};

verus! {

/// The address and bump seed at which the runtime finds the vault of
/// `owner` for program `program_id`, where it finds one.
pub open spec fn spec_runtime_vault(owner: Seq<u8>, program_id: Seq<u8>) -> Option<(Seq<u8>, u8)> {
    runtime_program_address(spec_vault_seeds(owner), program_id)
}

/// Whether `vault` sits at the derived address: `None` (no address could be
/// derived) is refused with `InvalidSeeds`, another address with
/// `InvalidAccountOwner`; otherwise gives the bump seed.
pub open spec fn spec_vault_address_check(vault: AccountState, derived: Option<(Seq<u8>, u8)>) -> Result<u8, ProgramError> {
    match derived {
        None => Err(ProgramError::InvalidSeeds),
        Some((key, bump)) => if vault.key@ == key {
            Ok(bump)
        } else {
            Err(ProgramError::InvalidAccountOwner)
        },
    }
}

fn vault_address_check(vault: &AccountState, derived: Option<(Pubkey, u8)>) -> (r: Result<u8, ProgramError>)
    ensures
        r == spec_vault_address_check(*vault, derived_view(derived)),
{
    match derived {
        None => Err(ProgramError::InvalidSeeds),
        Some((key, bump)) => {
            if keys_eq(&vault.key, &key) {
                Ok(bump)
            } else {
                Err(ProgramError::InvalidAccountOwner)
            }
        },
    }
}

/// The accounts of a deposit: the signing owner and its empty vault.
#[derive(Clone, Copy, Debug)]
pub struct DepositAccounts {
    pub owner: AccountState,
    pub vault: AccountState,
}

/// The checks on the accounts of a deposit that come before the vault's
/// address is derived; `Ok` when all pass.
pub open spec fn spec_deposit_precheck(accounts: Seq<AccountState>) -> Result<(), ProgramError> {
    if accounts.len() != 3 {
        Err(ProgramError::NotEnoughAccountKeys)
    } else if !accounts[0].is_signer {
        Err(ProgramError::InvalidAccountOwner)
    } else if accounts[1].owner@ != spec_system_program_id() {
        Err(ProgramError::InvalidAccountOwner)
    } else if accounts[1].lamports != 0 {
        Err(ProgramError::InvalidAccountData)
    } else {
        Ok(())
    }
}

/// The outcome of the deposit account checks, given the address derived
/// from the owner's vault seeds.
pub open spec fn spec_deposit_accounts(accounts: Seq<AccountState>, derived: Option<(Seq<u8>, u8)>) -> Result<DepositAccounts, ProgramError> {
    match spec_deposit_precheck(accounts) {
        Err(e) => Err(e),
        Ok(()) => match spec_vault_address_check(accounts[1], derived) {
            Err(e) => Err(e),
            Ok(_) => Ok(DepositAccounts { owner: accounts[0], vault: accounts[1] }),
        },
    }
}

fn deposit_precheck(accounts: &[AccountState]) -> (r: Result<(), ProgramError>)
    ensures
        r == spec_deposit_precheck(accounts@),
{
    if accounts.len() != 3 {
        return Err(ProgramError::NotEnoughAccountKeys);
    }
    let owner = &accounts[0];
    let vault = &accounts[1];
    if !owner.is_signer {
        return Err(ProgramError::InvalidAccountOwner);
    }
    if !is_owned_by(vault, &system_program_id()) {
        return Err(ProgramError::InvalidAccountOwner);
    }
    if vault.lamports != 0 {
        return Err(ProgramError::InvalidAccountData);
    }
    Ok(())
}

impl DepositAccounts {
    /// Checks the accounts of a deposit against the vault address `derived`
    /// from the owner's vault seeds: exactly three accounts, the owner
    /// signs, the vault belongs to the system program, holds no lamports and
    /// sits at the derived address.
    pub fn validate(accounts: &[AccountState], derived: Option<(Pubkey, u8)>) -> (r: Result<DepositAccounts, ProgramError>)
        ensures
            r == spec_deposit_accounts(accounts@, derived_view(derived)),
    {
        deposit_precheck(accounts)?;
        vault_address_check(&accounts[1], derived)?;
        Ok(DepositAccounts { owner: accounts[0], vault: accounts[1] })
    }

    /// Checks the accounts of a deposit, deriving the vault's address from
    /// `b"vault"`, the owner's key and `program_id` once the other checks
    /// pass. The outcome is that of the checks against the address the
    /// runtime finds, or, where no address is found, `InvalidSeeds`.
    pub fn try_from(accounts: &[AccountState], program_id: &Pubkey) -> (r: Result<DepositAccounts, ProgramError>)
        ensures
            r == spec_deposit_accounts(accounts@, spec_runtime_vault(accounts@[0].key@, program_id@))
                || r == spec_deposit_accounts(accounts@, None),
            spec_deposit_precheck(accounts@) is Err ==> r == spec_deposit_accounts(accounts@, None),
            r is Ok ==> (spec_runtime_vault(accounts@[0].key@, program_id@) matches Some((k, _))
                && k == accounts@[1].key@),
    {
        deposit_precheck(accounts)?;
        let seeds = vault_seeds(&accounts[0].key);
        let derived = runtime_find_program_address(&seeds, program_id);
        Self::validate(accounts, derived)
    }
}

/// The data of a deposit instruction: a non-zero amount of lamports.
#[derive(Clone, Copy, Debug, PartialEq, Eq, Structural)]
pub struct DepositInstructionData {
    pub amount: u64,
}

/// The outcome of reading deposit instruction data: exactly eight bytes,
/// a little-endian amount that is not zero.
pub open spec fn spec_deposit_instruction_data(data: Seq<u8>) -> Result<DepositInstructionData, ProgramError> {
    if data.len() != 8 || le_value(data) == 0 {
        Err(ProgramError::InvalidInstructionData)
    } else {
        Ok(DepositInstructionData { amount: le_value(data) as u64 })
    }
}

impl DepositInstructionData {
    /// A deposit never asks for zero lamports.
    pub open spec fn wf(self) -> bool {
        self.amount != 0
    }

    /// Reads the amount of a deposit from the instruction data.
    pub fn try_from(data: &[u8]) -> (r: Result<DepositInstructionData, ProgramError>)
        ensures
            r == spec_deposit_instruction_data(data@),
            r matches Ok(d) ==> d.wf(),
            data@.len() == 8 ==> (r is Ok <==> le_value(data@) != 0),
            data@.len() != 8 ==> r == Err::<DepositInstructionData, ProgramError>(ProgramError::InvalidInstructionData),
            r matches Ok(d) ==> d.amount as nat == le_value(data@),
    {
        if data.len() != 8 {
            return Err(ProgramError::InvalidInstructionData);
        }
        let amount: u64 = u64_from_le_bytes(data);
        if amount == 0 {
            return Err(ProgramError::InvalidInstructionData);
        }
        Ok(DepositInstructionData { amount })
    }
}

/// Eight bytes of deposit data are read as the unsigned little-endian number
/// of all eight bytes: the read succeeds exactly when that number is not
/// zero, and then it is the amount.
pub proof fn lemma_deposit_amount_is_all_eight_bytes(data: Seq<u8>)
    requires
        data.len() == 8,
    ensures
        le_value(data) == data[0] as int + 0x100 * data[1] + 0x1_0000 * data[2] + 0x100_0000 * data[3]
            + 0x1_0000_0000 * data[4] + 0x100_0000_0000 * data[5] + 0x1_0000_0000_0000 * data[6]
            + 0x100_0000_0000_0000 * data[7],
        spec_deposit_instruction_data(data) is Ok <==> le_value(data) != 0,
        spec_deposit_instruction_data(data) matches Ok(d) ==> d.amount as int == data[0] as int + 0x100 * data[1]
            + 0x1_0000 * data[2] + 0x100_0000 * data[3] + 0x1_0000_0000 * data[4] + 0x100_0000_0000 * data[5]
            + 0x1_0000_0000_0000 * data[6] + 0x100_0000_0000_0000 * data[7],
{
    reveal_with_fuel(le_value, 9);
    assert(data.drop_first().drop_first().drop_first().drop_first().drop_first().drop_first().drop_first().drop_first().len() == 0);
}

/// The accounts of a withdrawal: the signing owner, its vault and the bump
/// seed of the vault's address.
#[derive(Clone, Copy, Debug)]
pub struct WithdrawAccounts {
    pub owner: AccountState,
    pub vault: AccountState,
    pub bumps: [u8; 1],
}

/// The outcome of the withdrawal account checks, given the address derived
/// from the owner's vault seeds.
pub open spec fn spec_withdraw_accounts(accounts: Seq<AccountState>, derived: Option<(Seq<u8>, u8)>) -> Result<WithdrawAccounts, ProgramError> {
    if accounts.len() != 3 {
        Err(ProgramError::NotEnoughAccountKeys)
    } else if !accounts[0].is_signer {
        Err(ProgramError::InvalidAccountOwner)
    } else {
        match spec_vault_address_check(accounts[1], derived) {
            Err(e) => Err(e),
            Ok(bump) => Ok(WithdrawAccounts { owner: accounts[0], vault: accounts[1], bumps: [bump] }),
        }
    }
}

impl WithdrawAccounts {
    /// Checks the accounts of a withdrawal against the vault address
    /// `derived` from the owner's vault seeds: exactly three accounts, the
    /// owner signs and the vault sits at the derived address, whose bump seed
    /// is kept.
    pub fn validate(accounts: &[AccountState], derived: Option<(Pubkey, u8)>) -> (r: Result<WithdrawAccounts, ProgramError>)
        ensures
            r == spec_withdraw_accounts(accounts@, derived_view(derived)),
    {
        if accounts.len() != 3 {
            return Err(ProgramError::NotEnoughAccountKeys);
        }
        if !accounts[0].is_signer {
            return Err(ProgramError::InvalidAccountOwner);
        }
        let bump: u8 = vault_address_check(&accounts[1], derived)?;
        Ok(WithdrawAccounts { owner: accounts[0], vault: accounts[1], bumps: [bump] })
    }

    /// Checks the accounts of a withdrawal, deriving the vault's address from
    /// `b"vault"`, the owner's key and `program_id` once the other checks
    /// pass. The outcome is that of the checks against the address and bump
    /// seed the runtime finds, or, where no address is found, `InvalidSeeds`.
    pub fn try_from(accounts: &[AccountState], program_id: &Pubkey) -> (r: Result<WithdrawAccounts, ProgramError>)
        ensures
            r == spec_withdraw_accounts(accounts@, spec_runtime_vault(accounts@[0].key@, program_id@))
                || r == spec_withdraw_accounts(accounts@, None),
            (accounts@.len() != 3 || !accounts@[0].is_signer) ==> r == spec_withdraw_accounts(accounts@, None),
            r matches Ok(w) ==> spec_runtime_vault(accounts@[0].key@, program_id@) == Some((accounts@[1].key@, w.bumps[0])),
    {
        if accounts.len() != 3 || !accounts[0].is_signer {
            return Self::validate(accounts, None);
        }
        let seeds = vault_seeds(&accounts[0].key);
        let derived = runtime_find_program_address(&seeds, program_id);
        Self::validate(accounts, derived)
    }
}

/// A deposit: its checked accounts and its amount.
#[derive(Clone, Copy, Debug)]
pub struct Deposit {
    pub accounts: DepositAccounts,
    pub instruction_datas: DepositInstructionData,
}

/// The outcome of taking a deposit apart: the outcome of the account checks,
/// then, where they pass, that of reading the instruction data.
pub open spec fn spec_deposit(data: Seq<u8>, accounts: Seq<AccountState>, derived: Option<(Seq<u8>, u8)>) -> Result<Deposit, ProgramError> {
    match spec_deposit_accounts(accounts, derived) {
        Err(e) => Err(e),
        Ok(a) => match spec_deposit_instruction_data(data) {
            Err(e) => Err(e),
            Ok(d) => Ok(Deposit { accounts: a, instruction_datas: d }),
        },
    }
}

impl Deposit {
    /// The first byte of a deposit instruction.
    pub const DISCRIMINATOR: u8 = 0;

    /// Checks the accounts of a deposit against the `derived` vault address,
    /// then reads its amount.
    pub fn validate(data: &[u8], accounts: &[AccountState], derived: Option<(Pubkey, u8)>) -> (r: Result<Deposit, ProgramError>)
        ensures
            r == spec_deposit(data@, accounts@, derived_view(derived)),
    {
        let accounts = DepositAccounts::validate(accounts, derived)?;
        let instruction_datas = DepositInstructionData::try_from(data)?;
        Ok(Deposit { accounts, instruction_datas })
    }

    /// Checks the accounts of a deposit, deriving the vault's address, then
    /// reads its amount: the outcome for the address the runtime finds, or,
    /// where no address is found, `InvalidSeeds`.
    pub fn try_from(data: &[u8], accounts: &[AccountState], program_id: &Pubkey) -> (r: Result<Deposit, ProgramError>)
        ensures
            r == spec_deposit(data@, accounts@, spec_runtime_vault(accounts@[0].key@, program_id@))
                || r == spec_deposit(data@, accounts@, None),
            spec_deposit_precheck(accounts@) is Err ==> r == spec_deposit(data@, accounts@, None),
            r is Ok ==> (spec_runtime_vault(accounts@[0].key@, program_id@) matches Some((k, _))
                && k == accounts@[1].key@),
    {
        let a = DepositAccounts::try_from(accounts, program_id);
        let accounts_checked = match a {
            Err(e) => return Err(e),
            Ok(x) => x,
        };
        match DepositInstructionData::try_from(data) {
            Err(e) => Err(e),
            Ok(instruction_datas) => Ok(Deposit { accounts: accounts_checked, instruction_datas }),
        }
    }

    /// The transfer a deposit makes: its amount, from the owner to the vault.
    pub fn process(&self) -> (r: Transfer)
        ensures
            r == (Transfer {
                from: self.accounts.owner.key,
                to: self.accounts.vault.key,
                lamports: self.instruction_datas.amount,
            }),
    {
        Transfer {
            from: self.accounts.owner.key,
            to: self.accounts.vault.key,
            lamports: self.instruction_datas.amount,
        }
    }
}

/// A withdrawal: its checked accounts.
#[derive(Clone, Copy, Debug)]
pub struct Withdraw {
    pub accounts: WithdrawAccounts,
}

/// The outcome of taking a withdrawal apart: that of its account checks.
pub open spec fn spec_withdraw(accounts: Seq<AccountState>, derived: Option<(Seq<u8>, u8)>) -> Result<Withdraw, ProgramError> {
    match spec_withdraw_accounts(accounts, derived) {
        Ok(a) => Ok(Withdraw { accounts: a }),
        Err(e) => Err(e),
    }
}

/// The seeds that sign for the vault in a withdrawal: the vault seeds of the
/// owner followed by the bump seed.
pub open spec fn spec_withdraw_signer_seeds(accounts: WithdrawAccounts) -> Seq<Seq<u8>> {
    spec_vault_seeds(accounts.owner.key@).push(seq![accounts.bumps[0]])
}

impl Withdraw {
    /// The first byte of a withdrawal instruction.
    pub const DISCRIMINATOR: u8 = 1;

    /// Checks the accounts of a withdrawal against the `derived` vault address.
    pub fn validate(accounts: &[AccountState], derived: Option<(Pubkey, u8)>) -> (r: Result<Withdraw, ProgramError>)
        ensures
            r == spec_withdraw(accounts@, derived_view(derived)),
    {
        let accounts = WithdrawAccounts::validate(accounts, derived)?;
        Ok(Withdraw { accounts })
    }

    /// Checks the accounts of a withdrawal, deriving the vault's address: the
    /// outcome for the address the runtime finds, or, where no address is
    /// found, `InvalidSeeds`.
    pub fn try_from(accounts: &[AccountState], program_id: &Pubkey) -> (r: Result<Withdraw, ProgramError>)
        ensures
            r == spec_withdraw(accounts@, spec_runtime_vault(accounts@[0].key@, program_id@))
                || r == spec_withdraw(accounts@, None),
            (accounts@.len() != 3 || !accounts@[0].is_signer) ==> r == spec_withdraw(accounts@, None),
            r matches Ok(w) ==> spec_runtime_vault(accounts@[0].key@, program_id@)
                == Some((accounts@[1].key@, w.accounts.bumps[0])),
    {
        let accounts = WithdrawAccounts::try_from(accounts, program_id)?;
        Ok(Withdraw { accounts })
    }

    /// The transfer a withdrawal makes: the vault's whole balance, from the
    /// vault to the owner, signed by the vault seeds and bump seed.
    pub fn process(&self) -> (r: SignedTransfer)
        ensures
            r.transfer == (Transfer {
                from: self.accounts.vault.key,
                to: self.accounts.owner.key,
                lamports: self.accounts.vault.lamports,
            }),
            r.signer_seeds.deep_view() == spec_withdraw_signer_seeds(self.accounts),
    {
        let signer_seeds = seeds_with_bump(vault_seeds(&self.accounts.owner.key), self.accounts.bumps[0]);
        SignedTransfer {
            transfer: Transfer {
                from: self.accounts.vault.key,
                to: self.accounts.owner.key,
                lamports: self.accounts.vault.lamports,
            },
            signer_seeds,
        }
    }
}

/// Whatever address is derived, accounts that pass the deposit checks pass
/// the withdrawal checks too, naming the same owner and vault, and the seeds
/// that sign the withdrawal are the seeds the vault's address was derived
/// from followed by its bump seed: the vault a deposit pays into is the one a
/// withdrawal by the same owner can empty.
pub proof fn lemma_deposit_vault_is_withdrawable(accounts: Seq<AccountState>, derived: Option<(Seq<u8>, u8)>)
    requires
        spec_deposit_accounts(accounts, derived) is Ok,
    ensures
        spec_withdraw_accounts(accounts, derived) is Ok,
        spec_withdraw_accounts(accounts, derived)->Ok_0.owner == spec_deposit_accounts(accounts, derived)->Ok_0.owner,
        spec_withdraw_accounts(accounts, derived)->Ok_0.vault == spec_deposit_accounts(accounts, derived)->Ok_0.vault,
        derived is Some,
        derived->Some_0.0 == accounts[1].key@,
        spec_withdraw_signer_seeds(spec_withdraw_accounts(accounts, derived)->Ok_0)
            == spec_vault_seeds(accounts[0].key@).push(seq![derived->Some_0.1]),
{
}

/// Taking a deposit apart is checking its accounts and then, where they
/// pass, reading its data; an account error wins over a data error. This
/// holds for every derivation outcome, in particular for the address the
/// runtime finds and for none, the two outcomes `Deposit::try_from` and
/// `DepositAccounts::try_from` can end in.
pub proof fn lemma_deposit_is_accounts_then_data(data: Seq<u8>, accounts: Seq<AccountState>, derived: Option<(Seq<u8>, u8)>)
    ensures
        spec_deposit_accounts(accounts, derived) matches Err(e) ==> spec_deposit(data, accounts, derived) == Err::<Deposit, ProgramError>(e),
        spec_deposit_accounts(accounts, derived) is Ok ==> spec_deposit(data, accounts, derived) == (match spec_deposit_instruction_data(data) {
            Err(e) => Err(e),
            Ok(d) => Ok(Deposit { accounts: spec_deposit_accounts(accounts, derived)->Ok_0, instruction_datas: d }),
        }),
{
}

} // verus!
