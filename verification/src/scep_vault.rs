//! A lamport vault per secp256r1 public key, at the address derived from
//! `b"vault"` and the key's 33 bytes. Anyone deposits into it; a withdrawal
//! needs, in the same transaction, a secp256r1 instruction in which that key
//! signs a message naming the payer who receives the lamports and a time
//! after which the signature expires.
use vstd::prelude::*;
use crate::account::{AccountState, Pubkey, bytes_eq, is_owned_by, keys_eq, spec_system_program_id, system_program_id};
use crate::bytes::{le_i64, le_value, i64_from_le_bytes, u64_from_le_bytes};
use crate::error::ProgramError;
use crate::pda::{derived_view, runtime_find_program_address, runtime_program_address, seeds_with_bump, vault_seed, vault_seed_bytes};
use crate::secp256r1::{
    secp256r1_data_ok, secp256r1_get_message_data, secp256r1_get_signer, secp256r1_instruction,
    secp256r1_num_signatures, num_signatures, spec_get_message_data,
    spec_get_signer, spec_secp256r1_program_id, u16_at,
};
use crate::transfer::{SignedTransfer, Transfer};

verus! {

/// The address of this program.
pub const ID: Pubkey = [
    0x0f, 0x1e, 0x6b, 0x14, 0x21, 0xc0, 0x4a, 0x07, 0x04, 0x31, 0x26, 0x5c, 0x19, 0xc5, 0xbb, 0xee,
    0x19, 0x92, 0xba, 0xe8, 0xaf, 0xd1, 0xcd, 0x07, 0x8e, 0xf8, 0xaf, 0x70, 0x47, 0xdc, 0x11, 0xf7,
];

/// Calls std's `<[u8; 33]>::try_from(&[u8])`, which succeeds exactly on 33
/// bytes and then holds them.
#[verifier::external_body]
fn array33_from_slice(s: &[u8]) -> (r: Result<[u8; 33], ()>)
    ensures
        r is Ok <==> s@.len() == 33,
        r matches Ok(k) ==> k@ == s@,
{
    <[u8; 33]>::try_from(s).map_err(|_| ())
}

/// The seeds of the vault of a secp256r1 key: `b"vault"`, the key's first
/// byte and its other 32 bytes.
pub open spec fn spec_vault_seeds(key: Seq<u8>) -> Seq<Seq<u8>> {
    seq![vault_seed(), key.subrange(0, 1), key.subrange(1, 33)]
}

/// Builds the seeds of the vault of a secp256r1 key.
pub fn vault_seeds(key: &[u8; 33]) -> (r: Vec<Vec<u8>>)
    ensures
        r.deep_view() == spec_vault_seeds(key@),
        r.deep_view().len() == 3,
        r.deep_view()[0] == seq![118u8, 97u8, 117u8, 108u8, 116u8],
        r.deep_view()[1] == seq![key@[0]],
        r.deep_view()[1] + r.deep_view()[2] == key@,
{
    let mut r: Vec<Vec<u8>> = Vec::new();
    r.push(vault_seed_bytes());
    r.push(vstd::slice::slice_to_vec(vstd::slice::slice_subrange(key.as_slice(), 0, 1)));
    r.push(vstd::slice::slice_to_vec(vstd::slice::slice_subrange(key.as_slice(), 1, 33)));
    assert(r@[0].deep_view() =~= r@[0]@);
    assert(r@[1].deep_view() =~= r@[1]@);
    assert(r@[2].deep_view() =~= r@[2]@);
    assert(r.deep_view() =~= spec_vault_seeds(key@));
    assert(r.deep_view()[1] + r.deep_view()[2] =~= key@);
    assert(r.deep_view()[1] =~= seq![key@[0]]);
    r
}

/// The vault seeds of every 33-byte key are the bytes of the word `vault`,
/// the key's first byte, and its remaining 32 bytes: together the key's own
/// bytes, in order.
pub proof fn lemma_vault_seeds_split_the_key(key: Seq<u8>)
    requires
        key.len() == 33,
    ensures
        spec_vault_seeds(key).len() == 3,
        spec_vault_seeds(key)[0] == seq![118u8, 97u8, 117u8, 108u8, 116u8],
        spec_vault_seeds(key)[1] == seq![key[0]],
        spec_vault_seeds(key)[2].len() == 32,
        spec_vault_seeds(key)[1] + spec_vault_seeds(key)[2] == key,
{
    assert(spec_vault_seeds(key)[1] + spec_vault_seeds(key)[2] =~= key);
    assert(spec_vault_seeds(key)[1] =~= seq![key[0]]);
}

/// The address and bump seed at which the runtime finds the vault of a
/// secp256r1 key for this program, where it finds one.
pub open spec fn spec_runtime_vault(key: Seq<u8>) -> Option<(Seq<u8>, u8)> {
    runtime_program_address(spec_vault_seeds(key), ID@)
}

/// The accounts of a deposit: the signing payer and the vault.
#[derive(Clone, Copy, Debug)]
pub struct DepositAccounts {
    pub payer: AccountState,
    pub vault: AccountState,
}

/// The outcome of the deposit account checks: exactly three accounts, the
/// payer signs and belongs to the system program.
pub open spec fn spec_deposit_accounts(accounts: Seq<AccountState>) -> Result<DepositAccounts, ProgramError> {
    if accounts.len() != 3 {
        Err(ProgramError::NotEnoughAccountKeys)
    } else if !accounts[0].is_signer {
        Err(ProgramError::InvalidAccountOwner)
    } else if accounts[0].owner@ != spec_system_program_id() {
        Err(ProgramError::InvalidAccountOwner)
    } else {
        Ok(DepositAccounts { payer: accounts[0], vault: accounts[1] })
    }
}

impl DepositAccounts {
    /// Checks the accounts of a deposit.
    pub fn try_from(accounts: &[AccountState]) -> (r: Result<DepositAccounts, ProgramError>)
        ensures
            r == spec_deposit_accounts(accounts@),
    {
        if accounts.len() != 3 {
            return Err(ProgramError::NotEnoughAccountKeys);
        }
        if !accounts[0].is_signer {
            return Err(ProgramError::InvalidAccountOwner);
        }
        if !is_owned_by(&accounts[0], &system_program_id()) {
            return Err(ProgramError::InvalidAccountOwner);
        }
        Ok(DepositAccounts { payer: accounts[0], vault: accounts[1] })
    }
}

/// The data of a deposit: the secp256r1 key whose vault receives, and the amount.
#[derive(Clone, Copy, Debug)]
pub struct DepositIxData {
    pub sceppubkey: [u8; 33],
    pub amount: u64,
}

/// Whether `r` is what reading deposit data gives: exactly 41 bytes, the
/// 33-byte key followed by the little-endian amount.
pub open spec fn spec_deposit_ix_data(data: Seq<u8>, r: Result<DepositIxData, ProgramError>) -> bool {
    match r {
        Ok(d) => data.len() == 41 && d.sceppubkey@ == data.subrange(0, 33)
            && d.amount as nat == le_value(data.subrange(33, 41)),
        Err(e) => data.len() != 41 && e == ProgramError::InvalidInstructionData,
    }
}

impl DepositIxData {
    /// Reads the key and the amount of a deposit.
    pub fn try_from(data: &[u8]) -> (r: Result<DepositIxData, ProgramError>)
        ensures
            spec_deposit_ix_data(data@, r),
    {
        if data.len() != 41 {
            return Err(ProgramError::InvalidInstructionData);
        }
        let pubkey = match array33_from_slice(vstd::slice::slice_subrange(data, 0, 33)) {
            Ok(k) => k,
            Err(()) => return Err(ProgramError::InvalidInstructionData),
        };
        let amount: u64 = u64_from_le_bytes(vstd::slice::slice_subrange(data, 33, 41));
        Ok(DepositIxData { sceppubkey: pubkey, amount })
    }
}

/// A deposit: its checked accounts and its data.
#[derive(Clone, Copy, Debug)]
pub struct Deposit {
    pub accounts: DepositAccounts,
    pub ix_data: DepositIxData,
}

/// Whether `r` is what taking a deposit apart gives: the accounts are
/// checked first, then the data is read.
pub open spec fn spec_deposit(data: Seq<u8>, accounts: Seq<AccountState>, r: Result<Deposit, ProgramError>) -> bool {
    match spec_deposit_accounts(accounts) {
        Err(e) => r == Err::<Deposit, ProgramError>(e),
        Ok(a) => match r {
            Ok(d) => d.accounts == a && spec_deposit_ix_data(data, Ok(d.ix_data)),
            Err(e) => spec_deposit_ix_data(data, Err(e)),
        },
    }
}

/// The outcome of a deposit, given the address derived from the key's vault
/// seeds: the vault must sit there; then the amount moves from the payer to
/// the vault.
pub open spec fn spec_deposit_process(deposit: Deposit, derived: Option<(Seq<u8>, u8)>) -> Result<Transfer, ProgramError> {
    match derived {
        None => Err(ProgramError::InvalidSeeds),
        Some((key, _)) => if key != deposit.accounts.vault.key@ {
            Err(ProgramError::InvalidAccountOwner)
        } else {
            Ok(Transfer {
                from: deposit.accounts.payer.key,
                to: deposit.accounts.vault.key,
                lamports: deposit.ix_data.amount,
            })
        },
    }
}

impl Deposit {
    /// The first byte of a deposit instruction.
    pub const DISCRIMINATOR: u8 = 0;

    /// Checks the accounts of a deposit, then reads its data.
    pub fn try_from(data: &[u8], accounts: &[AccountState]) -> (r: Result<Deposit, ProgramError>)
        ensures
            spec_deposit(data@, accounts@, r),
    {
        let accounts = DepositAccounts::try_from(accounts)?;
        let ix_data = DepositIxData::try_from(data)?;
        Ok(Deposit { accounts, ix_data })
    }

    /// The transfer of a deposit, given the address `derived` from the key's
    /// vault seeds.
    pub fn process_derived(&self, derived: Option<(Pubkey, u8)>) -> (r: Result<Transfer, ProgramError>)
        ensures
            r == spec_deposit_process(*self, derived_view(derived)),
    {
        match derived {
            None => Err(ProgramError::InvalidSeeds),
            Some((key, _)) => {
                if !keys_eq(&key, &self.accounts.vault.key) {
                    return Err(ProgramError::InvalidAccountOwner);
                }
                Ok(Transfer {
                    from: self.accounts.payer.key,
                    to: self.accounts.vault.key,
                    lamports: self.ix_data.amount,
                })
            },
        }
    }

    /// The transfer of a deposit, deriving the vault's address from the key's
    /// vault seeds and this program's address: the outcome for the address
    /// the runtime finds, or, where no address is found, `InvalidSeeds`.
    pub fn process(&self) -> (r: Result<Transfer, ProgramError>)
        ensures
            r == spec_deposit_process(*self, spec_runtime_vault(self.ix_data.sceppubkey@))
                || r == spec_deposit_process(*self, None),
            r is Ok ==> (spec_runtime_vault(self.ix_data.sceppubkey@) matches Some((k, _))
                && k == self.accounts.vault.key@),
    {
        let seeds = vault_seeds(&self.ix_data.sceppubkey);
        let derived = runtime_find_program_address(&seeds, &ID);
        self.process_derived(derived)
    }
}

/// The accounts of a withdrawal: the payer, the vault and the instructions
/// sysvar, followed by the system program.
#[derive(Clone, Copy, Debug)]
pub struct WithdrawAccounts {
    pub payer: AccountState,
    pub vault: AccountState,
    pub ix: AccountState,
}

/// The outcome of the withdrawal account checks: exactly four accounts, the
/// vault belongs to the system program and holds lamports.
pub open spec fn spec_withdraw_accounts(accounts: Seq<AccountState>) -> Result<WithdrawAccounts, ProgramError> {
    if accounts.len() != 4 {
        Err(ProgramError::NotEnoughAccountKeys)
    } else if accounts[1].owner@ != spec_system_program_id() {
        Err(ProgramError::InvalidAccountOwner)
    } else if accounts[1].lamports == 0 {
        Err(ProgramError::InvalidAccountData)
    } else {
        Ok(WithdrawAccounts { payer: accounts[0], vault: accounts[1], ix: accounts[2] })
    }
}

impl WithdrawAccounts {
    /// Checks the accounts of a withdrawal.
    pub fn try_from(accounts: &[AccountState]) -> (r: Result<WithdrawAccounts, ProgramError>)
        ensures
            r == spec_withdraw_accounts(accounts@),
    {
        if accounts.len() != 4 {
            return Err(ProgramError::NotEnoughAccountKeys);
        }
        if !is_owned_by(&accounts[1], &system_program_id()) {
            return Err(ProgramError::InvalidAccountOwner);
        }
        if accounts[1].lamports == 0 {
            return Err(ProgramError::InvalidAccountData);
        }
        Ok(WithdrawAccounts { payer: accounts[0], vault: accounts[1], ix: accounts[2] })
    }
}

/// The data of a withdrawal: the bump seed of the vault's address.
#[derive(Clone, Copy, Debug)]
pub struct WithdrawIxData {
    pub bump: [u8; 1],
}

/// The outcome of reading withdrawal data: exactly one byte, the bump seed.
pub open spec fn spec_withdraw_ix_data(data: Seq<u8>) -> Result<WithdrawIxData, ProgramError> {
    if data.len() != 1 {
        Err(ProgramError::InvalidInstructionData)
    } else {
        Ok(WithdrawIxData { bump: [data[0]] })
    }
}

impl WithdrawIxData {
    /// Reads the bump seed of a withdrawal.
    pub fn try_from(data: &[u8]) -> (r: Result<WithdrawIxData, ProgramError>)
        ensures
            r == spec_withdraw_ix_data(data@),
    {
        if data.len() != 1 {
            return Err(ProgramError::InvalidInstructionData);
        }
        Ok(WithdrawIxData { bump: [data[0]] })
    }
}

/// A withdrawal: its checked accounts and its data.
#[derive(Clone, Copy, Debug)]
pub struct Withdraw {
    pub accounts: WithdrawAccounts,
    pub ix_data: WithdrawIxData,
}

/// The outcome of taking a withdrawal apart: the accounts are checked
/// first, then the data is read.
pub open spec fn spec_withdraw(data: Seq<u8>, accounts: Seq<AccountState>) -> Result<Withdraw, ProgramError> {
    match spec_withdraw_accounts(accounts) {
        Err(e) => Err(e),
        Ok(a) => match spec_withdraw_ix_data(data) {
            Err(e) => Err(e),
            Ok(d) => Ok(Withdraw { accounts: a, ix_data: d }),
        },
    }
}

/// What a withdrawal learns from the secp256r1 instruction: the key that
/// signed and the time after which the signature expires.
#[derive(Clone, Copy, Debug)]
pub struct WithdrawAuthorization {
    pub signer: [u8; 33],
    pub expiry: i64,
}

/// The outcome of reading the secp256r1 instruction for a withdrawal to
/// `payer`: the instruction must be for the secp256r1 program and carry
/// exactly one signature, whose key and message are in the instruction
/// itself; the message holds at least 40 bytes, the payer's key and then the
/// little-endian expiry time. Gives the signing key and the expiry.
pub open spec fn spec_authorize(payer: Seq<u8>, program_id: Seq<u8>, data: Seq<u8>) -> Result<(Seq<u8>, int), ProgramError> {
    if program_id != spec_secp256r1_program_id() {
        Err(ProgramError::IncorrectProgramId)
    } else if !secp256r1_data_ok(data) || num_signatures(data) != 1 {
        Err(ProgramError::InvalidInstructionData)
    } else {
        match spec_get_signer(data, 0) {
            Err(e) => Err(e),
            Ok(signer) => match spec_get_message_data(data, 0) {
                Err(e) => Err(e),
                Ok(message) => if message.len() < 40 {
                    Err(ProgramError::InvalidInstructionData)
                } else if payer != message.subrange(0, 32) {
                    Err(ProgramError::InvalidAccountOwner)
                } else {
                    Ok((signer, le_i64(message.subrange(32, 40))))
                },
            },
        }
    }
}

/// The seeds that sign for the vault of `signer` in a withdrawal: its vault
/// seeds followed by the bump seed.
pub open spec fn spec_withdraw_signer_seeds(signer: Seq<u8>, bump: u8) -> Seq<Seq<u8>> {
    spec_vault_seeds(signer).push(seq![bump])
}

/// The outcome of a withdrawal signed by `signer` until `expiry`, at time
/// `now`: after the expiry it is refused with `InvalidInstructionData`;
/// otherwise the vault's whole balance moves to the payer, signed by the
/// signer's vault seeds and the bump seed.
pub open spec fn spec_withdraw_process(w: Withdraw, signer: Seq<u8>, expiry: int, now: int) -> Result<(Transfer, Seq<Seq<u8>>), ProgramError> {
    if now > expiry {
        Err(ProgramError::InvalidInstructionData)
    } else {
        Ok((
            Transfer { from: w.accounts.vault.key, to: w.accounts.payer.key, lamports: w.accounts.vault.lamports },
            spec_withdraw_signer_seeds(signer, w.ix_data.bump[0]),
        ))
    }
}

impl Withdraw {
    /// The first byte of a withdrawal instruction.
    pub const DISCRIMINATOR: u8 = 1;

    /// Checks the accounts of a withdrawal, then reads its data.
    pub fn try_from(data: &[u8], accounts: &[AccountState]) -> (r: Result<Withdraw, ProgramError>)
        ensures
            r == spec_withdraw(data@, accounts@),
    {
        let accounts = WithdrawAccounts::try_from(accounts)?;
        let ix_data = WithdrawIxData::try_from(data)?;
        Ok(Withdraw { accounts, ix_data })
    }

    /// Reads the secp256r1 instruction that follows the withdrawal in the
    /// transaction, given the program it calls and its data, and checks that
    /// its one signed message names this withdrawal's payer.
    pub fn authorize(&self, program_id: &Pubkey, instruction_data: &[u8]) -> (r: Result<WithdrawAuthorization, ProgramError>)
        ensures
            spec_authorize(self.accounts.payer.key@, program_id@, instruction_data@) == (match r {
                Ok(a) => Ok((a.signer@, a.expiry as int)),
                Err(e) => Err(e),
            }),
    {
        let ix = secp256r1_instruction(program_id, instruction_data)?;
        if secp256r1_num_signatures(&ix) != 1 {
            return Err(ProgramError::InvalidInstructionData);
        }
        let signer = secp256r1_get_signer(&ix, 0)?;
        let message = secp256r1_get_message_data(&ix, 0)?;
        if message.len() < 40 {
            return Err(ProgramError::InvalidInstructionData);
        }
        let payer = vstd::slice::slice_subrange(message.as_slice(), 0, 32);
        let expiry: i64 = i64_from_le_bytes(vstd::slice::slice_subrange(message.as_slice(), 32, 40));
        if !bytes_eq(self.accounts.payer.key.as_slice(), payer) {
            return Err(ProgramError::InvalidAccountOwner);
        }
        Ok(WithdrawAuthorization { signer, expiry })
    }

    /// The transfer of a withdrawal, given what `authorize` read and the
    /// current time: an expired signature is refused with
    /// `InvalidInstructionData`; otherwise the vault's whole balance moves to
    /// the payer, signed by the signer's vault seeds and the bump seed.
    pub fn process(&self, authorization: &WithdrawAuthorization, now: i64) -> (r: Result<SignedTransfer, ProgramError>)
        ensures
            spec_withdraw_process(*self, authorization.signer@, authorization.expiry as int, now as int) == (match r {
                Ok(t) => Ok((t.transfer, t.signer_seeds.deep_view())),
                Err(e) => Err(e),
            }),
    {
        if now > authorization.expiry {
            return Err(ProgramError::InvalidInstructionData);
        }
        let signer_seeds = seeds_with_bump(vault_seeds(&authorization.signer), self.ix_data.bump[0]);
        Ok(SignedTransfer {
            transfer: Transfer {
                from: self.accounts.vault.key,
                to: self.accounts.payer.key,
                lamports: self.accounts.vault.lamports,
            },
            signer_seeds,
        })
    }
}

/// An instruction of this program, with its accounts checked and its data read.
#[derive(Clone, Copy, Debug)]
pub enum Instruction {
    Deposit(Deposit),
    Withdraw(Withdraw),
}

/// The deposit that an outcome carries, if it carries one.
pub open spec fn deposit_part(r: Result<Instruction, ProgramError>) -> Result<Deposit, ProgramError> {
    match r {
        Ok(Instruction::Deposit(d)) => Ok(d),
        Ok(Instruction::Withdraw(_)) => Err(ProgramError::InvalidArgument),
        Err(e) => Err(e),
    }
}

/// The withdrawal that an outcome carries, if it carries one.
pub open spec fn withdraw_part(r: Result<Instruction, ProgramError>) -> Result<Withdraw, ProgramError> {
    match r {
        Ok(Instruction::Withdraw(w)) => Ok(w),
        Ok(Instruction::Deposit(_)) => Err(ProgramError::InvalidArgument),
        Err(e) => Err(e),
    }
}

/// Decides which instruction the data asks for by its first byte (0 for a
/// deposit, 1 for a withdrawal, anything else or no byte at all is
/// `InvalidInstructionData`) and takes it apart with the rest of the data.
pub fn process_instruction(accounts: &[AccountState], instruction_data: &[u8]) -> (r: Result<Instruction, ProgramError>)
    ensures
        (instruction_data@.len() == 0 || (instruction_data@[0] != Deposit::DISCRIMINATOR
            && instruction_data@[0] != Withdraw::DISCRIMINATOR))
            ==> r == Err::<Instruction, ProgramError>(ProgramError::InvalidInstructionData),
        instruction_data@.len() > 0 && instruction_data@[0] == Deposit::DISCRIMINATOR ==> {
            &&& r matches Ok(i) ==> i is Deposit
            &&& spec_deposit(instruction_data@.drop_first(), accounts@, deposit_part(r))
        },
        instruction_data@.len() > 0 && instruction_data@[0] == Withdraw::DISCRIMINATOR ==> {
            &&& r matches Ok(i) ==> i is Withdraw
            &&& withdraw_part(r) == spec_withdraw(instruction_data@.drop_first(), accounts@)
        },
{
    if instruction_data.len() == 0 {
        return Err(ProgramError::InvalidInstructionData);
    }
    let data = vstd::slice::slice_subrange(instruction_data, 1, instruction_data.len());
    assert(data@ =~= instruction_data@.drop_first());
    if instruction_data[0] == Deposit::DISCRIMINATOR {
        let d = Deposit::try_from(data, accounts)?;
        Ok(Instruction::Deposit(d))
    } else if instruction_data[0] == Withdraw::DISCRIMINATOR {
        let w = Withdraw::try_from(data, accounts)?;
        Ok(Instruction::Withdraw(w))
    } else {
        Err(ProgramError::InvalidInstructionData)
    }
}

/// The seeds that sign a withdrawal for the vault of a key are the seeds
/// that a deposit for that key derives the vault's address from, followed
/// by the bump seed: a vault that deposits for a key pay into is the vault
/// that withdrawals signed by that key draw from.
pub proof fn lemma_withdraw_signs_for_deposit_vault(key: Seq<u8>, bump: u8)
    ensures
        spec_withdraw_signer_seeds(key, bump).len() == spec_vault_seeds(key).len() + 1,
        spec_withdraw_signer_seeds(key, bump).take(3) == spec_vault_seeds(key),
        spec_withdraw_signer_seeds(key, bump)[3] == seq![bump],
{
    assert(spec_withdraw_signer_seeds(key, bump).take(3) =~= spec_vault_seeds(key));
}

/// Lamports leave a vault only as the secp256r1 instruction allows: when
/// reading the instruction and then processing the withdrawal both succeed,
/// the instruction is for the secp256r1 program and carries one signature,
/// its message names the receiving payer in its first 32 bytes, the
/// withdrawal happens no later than the expiry in the next 8 bytes, the
/// whole balance leaves the vault, and the transfer is signed by the vault
/// seeds of the key that signed the message.
pub proof fn lemma_withdrawal_is_authorized(w: Withdraw, program_id: Seq<u8>, data: Seq<u8>, now: int)
    requires
        spec_authorize(w.accounts.payer.key@, program_id, data) is Ok,
        spec_withdraw_process(
            w,
            spec_authorize(w.accounts.payer.key@, program_id, data)->Ok_0.0,
            spec_authorize(w.accounts.payer.key@, program_id, data)->Ok_0.1,
            now,
        ) is Ok,
    ensures
        ({
            let signer = spec_authorize(w.accounts.payer.key@, program_id, data)->Ok_0.0;
            let expiry = spec_authorize(w.accounts.payer.key@, program_id, data)->Ok_0.1;
            let message = spec_get_message_data(data, 0)->Ok_0;
            let (transfer, seeds) = spec_withdraw_process(w, signer, expiry, now)->Ok_0;
            &&& program_id == spec_secp256r1_program_id()
            &&& num_signatures(data) == 1
            &&& spec_get_signer(data, 0) == Ok::<Seq<u8>, ProgramError>(signer)
            &&& spec_get_message_data(data, 0) is Ok
            &&& message.len() >= 40
            &&& transfer.to@ == message.subrange(0, 32)
            &&& now <= le_i64(message.subrange(32, 40))
            &&& transfer.from == w.accounts.vault.key
            &&& transfer.lamports == w.accounts.vault.lamports
            &&& seeds == spec_vault_seeds(signer).push(seq![w.ix_data.bump[0]])
        }),
{
}

/// A withdrawal to `payer` is authorized by every instruction of the
/// secp256r1 program whose data announces exactly one signature, whose
/// public key (33 bytes) and message both lie in this instruction's data,
/// and whose message holds at least 40 bytes starting with the payer's key.
/// Whatever the 33 key bytes are, they are the signer that comes back, and
/// the expiry is the little-endian number in the message's bytes 32 to 40.
/// (The offsets of the one signature sit at bytes 2 to 16 of the data: the
/// public key's offset at 6, its instruction index at 8, the message's
/// offset at 10, its size at 12 and its instruction index at 14, each a
/// little-endian `u16`; 0xffff marks this instruction.)
pub proof fn lemma_authorize_accepts_any_signer_key(payer: Seq<u8>, data: Seq<u8>)
    requires
        data.len() >= 16,
        data[0] == 1,
        u16_at(data, 8) == 0xffff,
        u16_at(data, 6) + 33 <= data.len(),
        u16_at(data, 14) == 0xffff,
        u16_at(data, 12) >= 40,
        u16_at(data, 10) + u16_at(data, 12) <= data.len(),
        data.subrange(u16_at(data, 10), u16_at(data, 10) + 32) == payer,
    ensures
        spec_authorize(payer, spec_secp256r1_program_id(), data) == Ok::<(Seq<u8>, int), ProgramError>((
            data.subrange(u16_at(data, 6), u16_at(data, 6) + 33),
            le_i64(data.subrange(u16_at(data, 10) + 32, u16_at(data, 10) + 40)),
        )),
{
    let m = u16_at(data, 10);
    let message = data.subrange(m, m + u16_at(data, 12));
    assert(message.subrange(0, 32) =~= data.subrange(m, m + 32));
    assert(message.subrange(32, 40) =~= data.subrange(m + 32, m + 40));
}

} // verus!
