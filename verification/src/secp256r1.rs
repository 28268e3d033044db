//! Reading a secp256r1 signature-verification instruction through the
//! `pinocchio-secp256r1-instruction` crate.
//!
//! The instruction data holds a one-byte signature count, one byte of
//! padding, then fourteen bytes of offsets per signature (seven
//! little-endian `u16`: signature offset and instruction index, public key
//! offset and instruction index, message offset, message size and
//! instruction index), then the payloads. The crate reads the offsets as
//! packed native-endian fields, which is little-endian on the Solana
//! runtime and on the little-endian hosts that this crate is built for.
use vstd::prelude::*;
use pinocchio_secp256r1_instruction::Secp256r1Instruction;
use crate::account::{Pubkey, keys_eq};
use crate::error::ProgramError;

verus! {

#[verifier::external_type_specification]
#[verifier::external_body]
pub struct ExSecp256r1Instruction<'a>(Secp256r1Instruction<'a>);

/// The instruction data that a `Secp256r1Instruction` reads.
pub uninterp spec fn secp256r1_instruction_bytes(ix: Secp256r1Instruction<'_>) -> Seq<u8>;

/// The little-endian `u16` at `pos` in `s`.
pub open spec fn u16_at(s: Seq<u8>, pos: int) -> int {
    s[pos] as int + 256 * (s[pos + 1] as int)
}

/// Where the offsets of signature `index` start.
pub open spec fn offsets_at(index: int) -> int {
    2 + 14 * index
}

/// The number of signatures that the instruction data announces.
pub open spec fn num_signatures(s: Seq<u8>) -> int {
    s[0] as int
}

/// Whether the data is long enough for its header and all its offsets.
pub open spec fn secp256r1_data_ok(s: Seq<u8>) -> bool {
    s.len() >= 2 && s.len() >= 2 + 14 * num_signatures(s)
}

/// The marker in an instruction-index field for "this instruction".
pub open spec fn current_instruction() -> int {
    0xffff
}

pub open spec fn public_key_offset(s: Seq<u8>, index: int) -> int {
    u16_at(s, offsets_at(index) + 4)
}

pub open spec fn public_key_instruction_index(s: Seq<u8>, index: int) -> int {
    u16_at(s, offsets_at(index) + 6)
}

pub open spec fn message_data_offset(s: Seq<u8>, index: int) -> int {
    u16_at(s, offsets_at(index) + 8)
}

pub open spec fn message_data_size(s: Seq<u8>, index: int) -> int {
    u16_at(s, offsets_at(index) + 10)
}

pub open spec fn message_instruction_index(s: Seq<u8>, index: int) -> int {
    u16_at(s, offsets_at(index) + 12)
}

/// What reading the public key of signature `index` gives: `InvalidArgument`
/// past the announced signatures, `InvalidInstructionData` where the key is
/// not in this instruction or runs past the data's end, else the 33 bytes at
/// the key's offset.
pub open spec fn spec_get_signer(s: Seq<u8>, index: int) -> Result<Seq<u8>, ProgramError> {
    if index >= num_signatures(s) {
        Err(ProgramError::InvalidArgument)
    } else if public_key_instruction_index(s, index) != current_instruction()
        || public_key_offset(s, index) + 33 > s.len() {
        Err(ProgramError::InvalidInstructionData)
    } else {
        Ok(s.subrange(public_key_offset(s, index), public_key_offset(s, index) + 33))
    }
}

/// What reading the message of signature `index` gives: `InvalidArgument`
/// past the announced signatures, `InvalidInstructionData` where the message
/// is not in this instruction or runs past the data's end, else the message
/// bytes.
pub open spec fn spec_get_message_data(s: Seq<u8>, index: int) -> Result<Seq<u8>, ProgramError> {
    let start = message_data_offset(s, index);
    let end = start + message_data_size(s, index);
    if index >= num_signatures(s) {
        Err(ProgramError::InvalidArgument)
    } else if message_instruction_index(s, index) != current_instruction() || end > s.len() {
        Err(ProgramError::InvalidInstructionData)
    } else {
        Ok(s.subrange(start, end))
    }
}

/// Calls `Secp256r1Instruction::try_from(&[u8])`.
///
/// As its source shows, it accepts the data when it holds the two header
/// bytes and fourteen bytes of offsets for each announced signature, and
/// otherwise fails with `InvalidInstructionData`; the instruction reads the
/// data it was made from.
#[verifier::external_body]
pub(crate) fn secp256r1_instruction_from_bytes<'a>(data: &'a [u8]) -> (r: Result<Secp256r1Instruction<'a>, ProgramError>)
    ensures
        r is Ok <==> secp256r1_data_ok(data@),
        r matches Ok(ix) ==> secp256r1_instruction_bytes(ix) == data@,
        r matches Err(e) ==> e == ProgramError::InvalidInstructionData,
{
    Secp256r1Instruction::try_from(data).map_err(|_| ProgramError::InvalidInstructionData)
}

/// Calls `Secp256r1Instruction::num_signatures`, which returns the first byte
/// of the instruction data.
#[verifier::external_body]
pub(crate) fn secp256r1_num_signatures(ix: &Secp256r1Instruction<'_>) -> (r: u8)
    requires
        secp256r1_data_ok(secp256r1_instruction_bytes(*ix)),
    ensures
        r as int == num_signatures(secp256r1_instruction_bytes(*ix)),
{
    ix.num_signatures()
}

/// Calls `Secp256r1Instruction::get_signer`.
///
/// As its source shows, it fails with `InvalidArgument` for an index past
/// the announced signatures, with `InvalidInstructionData` where the public
/// key is not in this instruction or runs past the data's end, and otherwise
/// returns the 33 bytes at the public key offset.
#[verifier::external_body]
pub(crate) fn secp256r1_get_signer(ix: &Secp256r1Instruction<'_>, index: usize) -> (r: Result<[u8; 33], ProgramError>)
    requires
        secp256r1_data_ok(secp256r1_instruction_bytes(*ix)),
    ensures
        spec_get_signer(secp256r1_instruction_bytes(*ix), index as int) == (match r {
            Ok(k) => Ok(k@),
            Err(e) => Err(e),
        }),
{
    match ix.get_signer(index) {
        Ok(key) => Ok(*key),
        Err(pinocchio::program_error::ProgramError::InvalidArgument) => Err(ProgramError::InvalidArgument),
        Err(_) => Err(ProgramError::InvalidInstructionData),
    }
}

/// Calls `Secp256r1Instruction::get_message_data`.
///
/// As its source shows, it fails with `InvalidArgument` for an index past
/// the announced signatures, with `InvalidInstructionData` where the message
/// is not in this instruction or runs past the data's end, and otherwise
/// returns the message bytes at the message offset.
#[verifier::external_body]
pub(crate) fn secp256r1_get_message_data(ix: &Secp256r1Instruction<'_>, index: usize) -> (r: Result<Vec<u8>, ProgramError>)
    requires
        secp256r1_data_ok(secp256r1_instruction_bytes(*ix)),
    ensures
        spec_get_message_data(secp256r1_instruction_bytes(*ix), index as int) == (match r {
            Ok(m) => Ok(m@),
            Err(e) => Err(e),
        }),
{
    match ix.get_message_data(index) {
        Ok(message) => Ok(message.to_vec()),
        Err(pinocchio::program_error::ProgramError::InvalidArgument) => Err(ProgramError::InvalidArgument),
        Err(_) => Err(ProgramError::InvalidInstructionData),
    }
}

/// The address of the secp256r1 signature-verification program.
pub open spec fn spec_secp256r1_program_id() -> Seq<u8> {
    seq![0x06u8, 0x92u8, 0x0du8, 0xecu8, 0x2fu8, 0xeau8, 0x71u8, 0xb5u8, 0xb7u8, 0x23u8, 0x81u8, 0x4du8, 0x74u8, 0x2du8, 0xa9u8, 0x03u8, 0x1cu8, 0x83u8, 0xe7u8, 0x5fu8, 0xdbu8, 0x79u8, 0x5du8, 0x56u8, 0x8eu8, 0x75u8, 0x47u8, 0x80u8, 0x20u8, 0x00u8, 0x00u8, 0x00u8]
}

/// Returns `SECP256R1_PROGRAM_ID` of `pinocchio-secp256r1-instruction`, the
/// address of the secp256r1 program, whose bytes its source lists.
#[verifier::external_body]
pub(crate) fn secp256r1_program_id() -> (r: Pubkey)
    ensures
        r@ == spec_secp256r1_program_id(),
{
    pinocchio_secp256r1_instruction::SECP256R1_PROGRAM_ID
}

/// Reads a secp256r1 instruction found in the transaction, given the program
/// it calls and its data: an instruction for another program is refused
/// with `IncorrectProgramId`, then the data is read.
pub fn secp256r1_instruction<'a>(program_id: &Pubkey, data: &'a [u8]) -> (r: Result<Secp256r1Instruction<'a>, ProgramError>)
    ensures
        program_id@ != spec_secp256r1_program_id() ==> r == Err::<Secp256r1Instruction<'a>, ProgramError>(ProgramError::IncorrectProgramId),
        program_id@ == spec_secp256r1_program_id() ==> (r is Ok <==> secp256r1_data_ok(data@)),
        program_id@ == spec_secp256r1_program_id() && !secp256r1_data_ok(data@)
            ==> r == Err::<Secp256r1Instruction<'a>, ProgramError>(ProgramError::InvalidInstructionData),
        r matches Ok(ix) ==> secp256r1_instruction_bytes(ix) == data@,
{
    if !keys_eq(&secp256r1_program_id(), program_id) {
        return Err(ProgramError::IncorrectProgramId);
    }
    secp256r1_instruction_from_bytes(data)
}

} // verus!
