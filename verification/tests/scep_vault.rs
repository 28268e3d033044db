use pinocchio_secp256r1_instruction::SECP256R1_PROGRAM_ID;
use vaults::account::AccountState;
use vaults::error::ProgramError;
use vaults::scep_vault::{
    process_instruction, vault_seeds, Deposit, DepositAccounts, DepositIxData, Instruction, Withdraw,
    WithdrawAccounts, WithdrawAuthorization, WithdrawIxData, ID,
};

const PAYER: [u8; 32] = [0x11; 32];
const VAULT: [u8; 32] = [0x22; 32];

fn signer_key() -> [u8; 33] {
    let mut k = [0x5a; 33];
    k[0] = 0x03;
    k
}

fn payer(owner: [u8; 32]) -> AccountState {
    AccountState { key: PAYER, owner, is_signer: true, is_writable: true, executable: false, lamports: 9_000 }
}

fn vault(lamports: u64) -> AccountState {
    AccountState { key: VAULT, owner: [0; 32], is_signer: false, is_writable: true, executable: false, lamports }
}

fn other(key: u8) -> AccountState {
    AccountState { key: [key; 32], owner: [0; 32], is_signer: false, is_writable: false, executable: false, lamports: 1 }
}

fn le16(v: u16) -> [u8; 2] {
    v.to_le_bytes()
}

/// Secp256r1 instruction data with one signature over `message`, with all
/// payloads in this instruction.
fn secp_data(num: u8, pk_ix: u16, msg_ix: u16, message: &[u8]) -> Vec<u8> {
    let mut d = vec![num, 0];
    d.extend_from_slice(&le16(49)); // signature offset
    d.extend_from_slice(&le16(u16::MAX));
    d.extend_from_slice(&le16(16)); // public key offset
    d.extend_from_slice(&le16(pk_ix));
    d.extend_from_slice(&le16(113)); // message offset
    d.extend_from_slice(&le16(message.len() as u16));
    d.extend_from_slice(&le16(msg_ix));
    assert_eq!(d.len(), 16);
    d.extend_from_slice(&signer_key());
    d.extend_from_slice(&[0x77; 64]);
    assert_eq!(d.len(), 113);
    d.extend_from_slice(message);
    d
}

fn message(payer: [u8; 32], expiry: i64) -> Vec<u8> {
    let mut m = payer.to_vec();
    m.extend_from_slice(&expiry.to_le_bytes());
    m
}

fn withdraw() -> Withdraw {
    Withdraw::try_from(&[254], &[payer([0; 32]), vault(4_000), other(0x33), other(0)]).unwrap()
}

#[test]
fn deposit_data_is_key_then_amount() {
    let mut data = signer_key().to_vec();
    data.extend_from_slice(&600u64.to_le_bytes());
    let d = DepositIxData::try_from(&data).unwrap();
    assert_eq!(d.sceppubkey, signer_key());
    assert_eq!(d.amount, 600);
}

#[test]
fn deposit_key_data_of_wrong_length_is_refused() {
    assert_eq!(DepositIxData::try_from(&[0; 40]).err(), Some(ProgramError::InvalidInstructionData));
    assert_eq!(DepositIxData::try_from(&[0; 42]).err(), Some(ProgramError::InvalidInstructionData));
}

#[test]
fn deposit_accounts_need_a_signing_system_owned_payer() {
    assert!(DepositAccounts::try_from(&[payer([0; 32]), vault(0), other(0)]).is_ok());
    assert_eq!(
        DepositAccounts::try_from(&[payer([0; 32]), vault(0)]).err(),
        Some(ProgramError::NotEnoughAccountKeys)
    );
    let mut unsigned = payer([0; 32]);
    unsigned.is_signer = false;
    assert_eq!(
        DepositAccounts::try_from(&[unsigned, vault(0), other(0)]).err(),
        Some(ProgramError::InvalidAccountOwner)
    );
    assert_eq!(
        DepositAccounts::try_from(&[payer([8; 32]), vault(0), other(0)]).err(),
        Some(ProgramError::InvalidAccountOwner)
    );
}

#[test]
fn deposit_pays_into_the_vault_at_the_derived_address() {
    let mut data = signer_key().to_vec();
    data.extend_from_slice(&600u64.to_le_bytes());
    let deposit = Deposit::try_from(&data, &[payer([0; 32]), vault(0), other(0)]).unwrap();
    let t = deposit.process_derived(Some((VAULT, 250))).unwrap();
    assert_eq!(t.from, PAYER);
    assert_eq!(t.to, VAULT);
    assert_eq!(t.lamports, 600);
    assert_eq!(deposit.process_derived(Some(([1; 32], 250))).err(), Some(ProgramError::InvalidAccountOwner));
    assert_eq!(deposit.process_derived(None).err(), Some(ProgramError::InvalidSeeds));
}

#[test]
fn vault_seeds_split_the_key_after_its_first_byte() {
    let seeds = vault_seeds(&signer_key());
    assert_eq!(seeds, vec![b"vault".to_vec(), vec![0x03], vec![0x5a; 32]]);
}

#[test]
fn withdraw_accounts_need_four_accounts_and_a_funded_system_vault() {
    assert!(WithdrawAccounts::try_from(&[payer([0; 32]), vault(1), other(3), other(0)]).is_ok());
    assert_eq!(
        WithdrawAccounts::try_from(&[payer([0; 32]), vault(1), other(3)]).err(),
        Some(ProgramError::NotEnoughAccountKeys)
    );
    let mut foreign = vault(1);
    foreign.owner = [4; 32];
    assert_eq!(
        WithdrawAccounts::try_from(&[payer([0; 32]), foreign, other(3), other(0)]).err(),
        Some(ProgramError::InvalidAccountOwner)
    );
    assert_eq!(
        WithdrawAccounts::try_from(&[payer([0; 32]), vault(0), other(3), other(0)]).err(),
        Some(ProgramError::InvalidAccountData)
    );
}

#[test]
fn withdraw_data_is_one_bump_byte() {
    assert_eq!(WithdrawIxData::try_from(&[9]).unwrap().bump, [9]);
    assert_eq!(WithdrawIxData::try_from(&[]).err(), Some(ProgramError::InvalidInstructionData));
    assert_eq!(WithdrawIxData::try_from(&[9, 9]).err(), Some(ProgramError::InvalidInstructionData));
}

#[test]
fn authorize_reads_signer_and_expiry() {
    let data = secp_data(1, u16::MAX, u16::MAX, &message(PAYER, 1_700_000_000));
    let auth = withdraw().authorize(&SECP256R1_PROGRAM_ID, &data).unwrap();
    assert_eq!(auth.signer, signer_key());
    assert_eq!(auth.expiry, 1_700_000_000);
}

#[test]
fn authorize_accepts_a_longer_message() {
    let mut m = message(PAYER, -5);
    m.extend_from_slice(&[1, 2, 3]);
    let data = secp_data(1, u16::MAX, u16::MAX, &m);
    let auth = withdraw().authorize(&SECP256R1_PROGRAM_ID, &data).unwrap();
    assert_eq!(auth.expiry, -5);
}

#[test]
fn authorize_refuses_an_instruction_of_another_program() {
    let data = secp_data(1, u16::MAX, u16::MAX, &message(PAYER, 10));
    assert_eq!(withdraw().authorize(&[0; 32], &data).err(), Some(ProgramError::IncorrectProgramId));
}

#[test]
fn authorize_refuses_short_instruction_data() {
    assert_eq!(
        withdraw().authorize(&SECP256R1_PROGRAM_ID, &[1]).err(),
        Some(ProgramError::InvalidInstructionData)
    );
    // One signature announced, fewer than fourteen bytes of offsets.
    assert_eq!(
        withdraw().authorize(&SECP256R1_PROGRAM_ID, &[1, 0, 0, 0]).err(),
        Some(ProgramError::InvalidInstructionData)
    );
}

#[test]
fn authorize_needs_exactly_one_signature() {
    let mut data = secp_data(1, u16::MAX, u16::MAX, &message(PAYER, 10));
    data[0] = 0;
    assert_eq!(
        withdraw().authorize(&SECP256R1_PROGRAM_ID, &data).err(),
        Some(ProgramError::InvalidInstructionData)
    );
    let mut two = vec![2, 0];
    two.extend_from_slice(&data[2..16]);
    two.extend_from_slice(&data[2..16]);
    two.extend_from_slice(&data[16..]);
    assert_eq!(
        withdraw().authorize(&SECP256R1_PROGRAM_ID, &two).err(),
        Some(ProgramError::InvalidInstructionData)
    );
}

#[test]
fn authorize_needs_key_and_message_in_this_instruction() {
    let data = secp_data(1, 0, u16::MAX, &message(PAYER, 10));
    assert_eq!(
        withdraw().authorize(&SECP256R1_PROGRAM_ID, &data).err(),
        Some(ProgramError::InvalidInstructionData)
    );
    let data = secp_data(1, u16::MAX, 2, &message(PAYER, 10));
    assert_eq!(
        withdraw().authorize(&SECP256R1_PROGRAM_ID, &data).err(),
        Some(ProgramError::InvalidInstructionData)
    );
}

#[test]
fn authorize_refuses_a_message_past_the_end_of_the_data() {
    let mut data = secp_data(1, u16::MAX, u16::MAX, &message(PAYER, 10));
    data.truncate(data.len() - 1);
    assert_eq!(
        withdraw().authorize(&SECP256R1_PROGRAM_ID, &data).err(),
        Some(ProgramError::InvalidInstructionData)
    );
}

#[test]
fn authorize_refuses_a_message_shorter_than_forty_bytes() {
    let m = message(PAYER, 10);
    let data = secp_data(1, u16::MAX, u16::MAX, &m[..39]);
    assert_eq!(
        withdraw().authorize(&SECP256R1_PROGRAM_ID, &data).err(),
        Some(ProgramError::InvalidInstructionData)
    );
}

#[test]
fn authorize_refuses_a_message_for_another_payer() {
    let data = secp_data(1, u16::MAX, u16::MAX, &message([0x99; 32], 10));
    assert_eq!(
        withdraw().authorize(&SECP256R1_PROGRAM_ID, &data).err(),
        Some(ProgramError::InvalidAccountOwner)
    );
}

#[test]
fn withdraw_before_expiry_empties_the_vault_to_the_payer() {
    let w = withdraw();
    let auth = WithdrawAuthorization { signer: signer_key(), expiry: 100 };
    let signed = w.process(&auth, 100).unwrap();
    assert_eq!(signed.transfer.from, VAULT);
    assert_eq!(signed.transfer.to, PAYER);
    assert_eq!(signed.transfer.lamports, 4_000);
    assert_eq!(signed.signer_seeds, vec![b"vault".to_vec(), vec![0x03], vec![0x5a; 32], vec![254]]);
}

#[test]
fn withdraw_after_expiry_is_refused() {
    let auth = WithdrawAuthorization { signer: signer_key(), expiry: 100 };
    assert_eq!(withdraw().process(&auth, 101).err(), Some(ProgramError::InvalidInstructionData));
}

#[test]
fn instructions_dispatch_on_their_first_byte() {
    let accounts = [payer([0; 32]), vault(0), other(0)];
    let mut data = vec![0];
    data.extend_from_slice(&signer_key());
    data.extend_from_slice(&5u64.to_le_bytes());
    match process_instruction(&accounts, &data).unwrap() {
        Instruction::Deposit(d) => assert_eq!(d.ix_data.amount, 5),
        Instruction::Withdraw(_) => panic!("expected a deposit"),
    }
    let accounts = [payer([0; 32]), vault(3), other(3), other(0)];
    match process_instruction(&accounts, &[1, 7]).unwrap() {
        Instruction::Withdraw(w) => assert_eq!(w.ix_data.bump, [7]),
        Instruction::Deposit(_) => panic!("expected a withdrawal"),
    }
    assert_eq!(process_instruction(&accounts, &[2, 7]).err(), Some(ProgramError::InvalidInstructionData));
    assert_eq!(process_instruction(&accounts, &[]).err(), Some(ProgramError::InvalidInstructionData));
    assert_eq!(process_instruction(&accounts, &[0, 1]).err(), Some(ProgramError::NotEnoughAccountKeys));
}

#[test]
fn program_address_is_fixed() {
    assert_eq!(ID[0], 0x0f);
    assert_eq!(ID[31], 0xf7);
}

#[test]
fn a_signed_message_lets_its_payer_withdraw_until_it_expires() {
    let data = secp_data(1, u16::MAX, u16::MAX, &message(PAYER, 500));
    let w = withdraw();
    let auth = w.authorize(&SECP256R1_PROGRAM_ID, &data).unwrap();
    let signed = w.process(&auth, 499).unwrap();
    assert_eq!(signed.transfer.to, PAYER);
    assert_eq!(signed.transfer.lamports, 4_000);
    assert_eq!(&signed.signer_seeds[..3], &vault_seeds(&auth.signer)[..]);
    assert!(w.process(&auth, 500).is_ok());
    assert_eq!(w.process(&auth, 501).err(), Some(ProgramError::InvalidInstructionData));
}

#[test]
fn deposit_process_derives_before_paying() {
    let mut data = signer_key().to_vec();
    data.extend_from_slice(&600u64.to_le_bytes());
    let deposit = Deposit::try_from(&data, &[payer([0; 32]), vault(0), other(0)]).unwrap();
    // Off the chain no program address is found.
    assert_eq!(deposit.process().err(), Some(ProgramError::InvalidSeeds));
}
