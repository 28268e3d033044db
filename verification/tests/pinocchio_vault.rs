use vaults::account::AccountState;
use vaults::error::ProgramError;
use vaults::pinocchio_vault::{
    vault_seeds, Deposit, DepositAccounts, DepositInstructionData, Withdraw, WithdrawAccounts,
};

const PROGRAM: [u8; 32] = [7; 32];
const VAULT_KEY: [u8; 32] = [0xaa; 32];

fn owner() -> AccountState {
    AccountState {
        key: [1; 32],
        owner: [0; 32],
        is_signer: true,
        is_writable: true,
        executable: false,
        lamports: 5_000_000,
    }
}

fn vault(lamports: u64) -> AccountState {
    AccountState {
        key: VAULT_KEY,
        owner: [0; 32],
        is_signer: false,
        is_writable: true,
        executable: false,
        lamports,
    }
}

fn system_program() -> AccountState {
    AccountState {
        key: [0; 32],
        owner: [3; 32],
        is_signer: false,
        is_writable: false,
        executable: true,
        lamports: 1,
    }
}

fn derived() -> Option<([u8; 32], u8)> {
    Some((VAULT_KEY, 254))
}

#[test]
fn deposit_amount_is_eight_little_endian_bytes() {
    let d = DepositInstructionData::try_from(&1_000u64.to_le_bytes()).unwrap();
    assert_eq!(d.amount, 1_000);
    assert_eq!(d, DepositInstructionData { amount: 1_000 });
}

#[test]
fn deposit_amount_of_zero_is_refused() {
    assert_eq!(DepositInstructionData::try_from(&[0; 8]), Err(ProgramError::InvalidInstructionData));
}

#[test]
fn deposit_data_of_wrong_length_is_refused() {
    assert_eq!(DepositInstructionData::try_from(&[1; 7]), Err(ProgramError::InvalidInstructionData));
    assert_eq!(DepositInstructionData::try_from(&[1; 9]), Err(ProgramError::InvalidInstructionData));
    assert_eq!(DepositInstructionData::try_from(&[]), Err(ProgramError::InvalidInstructionData));
}

#[test]
fn deposit_accounts_accept_an_empty_vault_at_the_derived_address() {
    let accounts = [owner(), vault(0), system_program()];
    let checked = DepositAccounts::validate(&accounts, derived()).unwrap();
    assert_eq!(checked.owner.key, [1; 32]);
    assert_eq!(checked.vault.key, VAULT_KEY);
}

#[test]
fn deposit_accounts_need_exactly_three_accounts() {
    let two = [owner(), vault(0)];
    let four = [owner(), vault(0), system_program(), system_program()];
    assert_eq!(DepositAccounts::validate(&two, derived()).err(), Some(ProgramError::NotEnoughAccountKeys));
    assert_eq!(DepositAccounts::validate(&four, derived()).err(), Some(ProgramError::NotEnoughAccountKeys));
}

#[test]
fn deposit_accounts_refuse_each_failed_check() {
    let mut unsigned = owner();
    unsigned.is_signer = false;
    assert_eq!(
        DepositAccounts::validate(&[unsigned, vault(0), system_program()], derived()).err(),
        Some(ProgramError::InvalidAccountOwner)
    );
    let mut foreign = vault(0);
    foreign.owner = [9; 32];
    assert_eq!(
        DepositAccounts::validate(&[owner(), foreign, system_program()], derived()).err(),
        Some(ProgramError::InvalidAccountOwner)
    );
    assert_eq!(
        DepositAccounts::validate(&[owner(), vault(1), system_program()], derived()).err(),
        Some(ProgramError::InvalidAccountData)
    );
    assert_eq!(
        DepositAccounts::validate(&[owner(), vault(0), system_program()], Some(([0xbb; 32], 255))).err(),
        Some(ProgramError::InvalidAccountOwner)
    );
    assert_eq!(
        DepositAccounts::validate(&[owner(), vault(0), system_program()], None).err(),
        Some(ProgramError::InvalidSeeds)
    );
}

#[test]
fn deposit_accounts_report_the_first_failed_check() {
    let mut unsigned = owner();
    unsigned.is_signer = false;
    // The signer check comes before the balance check.
    assert_eq!(
        DepositAccounts::validate(&[unsigned, vault(10), system_program()], derived()).err(),
        Some(ProgramError::InvalidAccountOwner)
    );
}

#[test]
fn deposit_accounts_fail_their_own_checks_before_any_derivation() {
    let mut unsigned = owner();
    unsigned.is_signer = false;
    assert_eq!(
        DepositAccounts::try_from(&[unsigned, vault(0), system_program()], &PROGRAM).err(),
        Some(ProgramError::InvalidAccountOwner)
    );
    assert_eq!(
        DepositAccounts::try_from(&[owner(), vault(3), system_program()], &PROGRAM).err(),
        Some(ProgramError::InvalidAccountData)
    );
}

#[test]
fn deposit_checks_accounts_before_data() {
    let accounts = [owner(), vault(0)];
    assert_eq!(
        Deposit::validate(&[0; 8], &accounts, derived()).err(),
        Some(ProgramError::NotEnoughAccountKeys)
    );
    let accounts = [owner(), vault(0), system_program()];
    assert_eq!(
        Deposit::validate(&[0; 8], &accounts, derived()).err(),
        Some(ProgramError::InvalidInstructionData)
    );
}

#[test]
fn deposit_moves_its_amount_from_owner_to_vault() {
    let accounts = [owner(), vault(0), system_program()];
    let deposit = Deposit::validate(&250u64.to_le_bytes(), &accounts, derived()).unwrap();
    let t = deposit.process();
    assert_eq!(t.from, [1; 32]);
    assert_eq!(t.to, VAULT_KEY);
    assert_eq!(t.lamports, 250);
}

#[test]
fn withdraw_accounts_keep_the_bump_seed() {
    let accounts = [owner(), vault(77), system_program()];
    let checked = WithdrawAccounts::validate(&accounts, Some((VAULT_KEY, 251))).unwrap();
    assert_eq!(checked.bumps, [251]);
    assert_eq!(checked.vault.lamports, 77);
}

#[test]
fn withdraw_accounts_refuse_each_failed_check() {
    assert_eq!(
        WithdrawAccounts::validate(&[owner(), vault(1)], derived()).err(),
        Some(ProgramError::NotEnoughAccountKeys)
    );
    let mut unsigned = owner();
    unsigned.is_signer = false;
    assert_eq!(
        WithdrawAccounts::validate(&[unsigned, vault(1), system_program()], derived()).err(),
        Some(ProgramError::InvalidAccountOwner)
    );
    assert_eq!(
        WithdrawAccounts::validate(&[owner(), vault(1), system_program()], Some(([5; 32], 1))).err(),
        Some(ProgramError::InvalidAccountOwner)
    );
    assert_eq!(
        WithdrawAccounts::validate(&[owner(), vault(1), system_program()], None).err(),
        Some(ProgramError::InvalidSeeds)
    );
}

#[test]
fn withdraw_empties_the_vault_signed_by_its_seeds() {
    let accounts = [owner(), vault(123_456), system_program()];
    let w = Withdraw::validate(&accounts, Some((VAULT_KEY, 200))).unwrap();
    let signed = w.process();
    assert_eq!(signed.transfer.from, VAULT_KEY);
    assert_eq!(signed.transfer.to, [1; 32]);
    assert_eq!(signed.transfer.lamports, 123_456);
    assert_eq!(signed.signer_seeds, vec![b"vault".to_vec(), vec![1u8; 32], vec![200u8]]);
}

#[test]
fn vault_seeds_are_the_word_vault_and_the_owner() {
    assert_eq!(vault_seeds(&[4; 32]), vec![b"vault".to_vec(), vec![4u8; 32]]);
}

#[test]
fn a_deposit_vault_is_withdrawable_by_the_same_owner() {
    let accounts = [owner(), vault(0), system_program()];
    assert!(DepositAccounts::validate(&accounts, derived()).is_ok());
    let w = WithdrawAccounts::validate(&accounts, derived()).unwrap();
    assert_eq!(w.owner.key, accounts[0].key);
    assert_eq!(w.vault.key, accounts[1].key);
    assert_eq!(w.bumps, [254]);
}

#[test]
fn discriminators_are_zero_and_one() {
    assert_eq!(Deposit::DISCRIMINATOR, 0);
    assert_eq!(Withdraw::DISCRIMINATOR, 1);
}

#[test]
fn off_the_chain_no_vault_address_is_derived() {
    // Outside the Solana runtime pinocchio derives no program address.
    assert_eq!(
        DepositAccounts::try_from(&[owner(), vault(0), system_program()], &PROGRAM).err(),
        Some(ProgramError::InvalidSeeds)
    );
    assert_eq!(
        WithdrawAccounts::try_from(&[owner(), vault(9), system_program()], &PROGRAM).err(),
        Some(ProgramError::InvalidSeeds)
    );
    assert_eq!(
        Withdraw::try_from(&[owner(), vault(9)], &PROGRAM).err(),
        Some(ProgramError::NotEnoughAccountKeys)
    );
}

#[test]
fn deposit_try_from_reports_account_errors_before_deriving() {
    let mut unsigned = owner();
    unsigned.is_signer = false;
    assert_eq!(
        Deposit::try_from(&[0; 8], &[unsigned, vault(0), system_program()], &PROGRAM).err(),
        Some(ProgramError::InvalidAccountOwner)
    );
    // Off the chain no address is found, so passing accounts end in InvalidSeeds
    // before the (bad) data is read.
    assert_eq!(
        Deposit::try_from(&[0; 8], &[owner(), vault(0), system_program()], &PROGRAM).err(),
        Some(ProgramError::InvalidSeeds)
    );
}
