use vstd::prelude::*;

verus! {

/// The program errors that the instruction logic of this crate can return.
///
/// The variants carry the names of the runtime's builtin program errors.
#[derive(Clone, Copy, Debug, PartialEq, Eq, Structural)]
pub enum ProgramError {
    /// The arguments provided to an instruction were invalid.
    InvalidArgument,
    /// An instruction's data contents were invalid.
    InvalidInstructionData,
    /// An account's data contents were invalid.
    InvalidAccountData,
    /// The account did not have the expected program id.
    IncorrectProgramId,
    /// The instruction expected additional account keys.
    NotEnoughAccountKeys,
    /// The provided seeds do not result in a valid address.
    InvalidSeeds,
    /// The account does not have the expected owner.
    InvalidAccountOwner,
}

} // verus!
