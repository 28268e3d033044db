use vstd::prelude::*;

verus! {

/// The address of an account or of a program: 32 bytes.
pub type Pubkey = [u8; 32];

/// The address of the system program: 32 zero bytes.
pub open spec fn spec_system_program_id() -> Seq<u8> {
    Seq::new(32, |i: int| 0u8)
}

/// Returns `pinocchio_system::ID`, the address of the system program, which
/// that crate defines as 32 zero bytes.
#[verifier::external_body]
pub(crate) fn system_program_id() -> (r: Pubkey)
    ensures
        r@ == spec_system_program_id(),
{
    pinocchio_system::ID
}

/// What the instruction logic reads of an account handed to a program.
#[derive(Clone, Copy, Debug)]
pub struct AccountState {
    /// The account's address.
    pub key: Pubkey,
    /// The program that owns the account.
    pub owner: Pubkey,
    /// Whether the transaction carries the account's signature.
    pub is_signer: bool,
    /// Whether the account may be written by this instruction.
    pub is_writable: bool,
    /// Whether the account holds a program.
    pub executable: bool,
    /// The account's balance in lamports.
    pub lamports: u64,
}

/// Whether two byte strings are equal.
pub fn bytes_eq(a: &[u8], b: &[u8]) -> (r: bool)
    ensures
        r == (a@ == b@),
{
    if a.len() != b.len() {
        return false;
    }
    let mut i: usize = 0;
    while i < a.len()
        invariant
            a@.len() == b@.len(),
            i <= a@.len(),
            forall|j: int| 0 <= j < i ==> a@[j] == b@[j],
        decreases a@.len() - i,
    {
        if a[i] != b[i] {
            return false;
        }
        i = i + 1;
    }
    assert(a@ =~= b@);
    true
}

/// Whether two addresses are equal.
pub fn keys_eq(a: &Pubkey, b: &Pubkey) -> (r: bool)
    ensures
        r == (a@ == b@),
{
    bytes_eq(a.as_slice(), b.as_slice())
}

/// Whether the account is owned by the given program.
pub fn is_owned_by(account: &AccountState, program: &Pubkey) -> (r: bool)
    ensures
        r == (account.owner@ == program@),
{
    keys_eq(&account.owner, program)
}

} // verus!
