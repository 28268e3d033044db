use vstd::prelude::*;
use crate::account::Pubkey;

verus! {

/// The seed that every vault address in this crate starts with: `b"vault"`.
pub open spec fn vault_seed() -> Seq<u8> {
    seq![118u8, 97u8, 117u8, 108u8, 116u8]
}

/// Builds the seed `b"vault"`.
pub fn vault_seed_bytes() -> (r: Vec<u8>)
    ensures
        r@ == vault_seed(),
{
    let r: Vec<u8> = vec![118u8, 97u8, 117u8, 108u8, 116u8];
    assert(r@ =~= vault_seed());
    r
}

/// The seeds of the vault of a 32-byte key: `b"vault"` and the key.
pub open spec fn spec_vault_seeds(key: Seq<u8>) -> Seq<Seq<u8>> {
    seq![vault_seed(), key]
}

/// Builds the seeds of the vault of a 32-byte key.
pub fn vault_seeds(key: &Pubkey) -> (r: Vec<Vec<u8>>)
    ensures
        r.deep_view() == spec_vault_seeds(key@),
        r.deep_view().len() == 2,
        r.deep_view()[0] == seq![118u8, 97u8, 117u8, 108u8, 116u8],
        r.deep_view()[1] == key@,
{
    let mut r: Vec<Vec<u8>> = Vec::new();
    r.push(vault_seed_bytes());
    r.push(vstd::slice::slice_to_vec(key.as_slice()));
    assert(r@[0].deep_view() =~= r@[0]@);
    assert(r@[1].deep_view() =~= r@[1]@);
    assert(r.deep_view() =~= spec_vault_seeds(key@));
    r
}

/// The vault seeds of every 32-byte key are the bytes of the word `vault`
/// followed by the key's own bytes, in order.
pub proof fn lemma_vault_seeds_are_the_word_then_the_key(key: Seq<u8>)
    ensures
        spec_vault_seeds(key).len() == 2,
        spec_vault_seeds(key)[0] == seq![118u8, 97u8, 117u8, 108u8, 116u8],
        spec_vault_seeds(key)[1] == key,
{
}

/// Appends the one-byte bump seed to derivation seeds, giving the seeds
/// that sign for the derived address.
pub fn seeds_with_bump(seeds: Vec<Vec<u8>>, bump: u8) -> (r: Vec<Vec<u8>>)
    ensures
        r.deep_view() == seeds.deep_view().push(seq![bump]),
{
    let mut r = seeds;
    let b: Vec<u8> = vec![bump];
    assert(b.deep_view() =~= seq![bump]);
    let ghost before = r.deep_view();
    r.push(b);
    assert(r.deep_view() =~= before.push(seq![bump]));
    r
}

/// The program-derived address and bump seed that the Solana runtime finds
/// for the seeds and program id, where it finds one.
pub uninterp spec fn runtime_program_address(seeds: Seq<Seq<u8>>, program_id: Seq<u8>) -> Option<(Seq<u8>, u8)>;

/// Calls `pinocchio::pubkey::try_find_program_address` with the given seeds.
///
/// Inside the Solana runtime this is the runtime's deterministic search for
/// the program-derived address and its bump seed; elsewhere pinocchio
/// returns `None`. So only a found address is claimed: it is the one the
/// runtime finds for these seeds and this program id. Whether one is found
/// here is left open.
#[verifier::external_body]
pub(crate) fn runtime_find_program_address(seeds: &Vec<Vec<u8>>, program_id: &Pubkey) -> (r: Option<(Pubkey, u8)>)
    ensures
        r is Some ==> derived_view(r) == runtime_program_address(seeds.deep_view(), program_id@),
{
    let refs: Vec<&[u8]> = seeds.iter().map(|s| s.as_slice()).collect();
    pinocchio::pubkey::try_find_program_address(&refs, program_id)
}

/// The program-derived address and bump seed that
/// `Pubkey::try_find_program_address` finds for the seeds and program id,
/// or `None` where it finds none.
pub uninterp spec fn program_address(seeds: Seq<Seq<u8>>, program_id: Seq<u8>) -> Option<(Seq<u8>, u8)>;

/// The address and bump seed of a derivation result, by value.
pub open spec fn derived_view(d: Option<(Pubkey, u8)>) -> Option<(Seq<u8>, u8)> {
    match d {
        Some((key, bump)) => Some((key@, bump)),
        None => None,
    }
}

/// Calls `Pubkey::try_find_program_address` of the Solana SDK (as re-exported
/// by `anchor_lang`), which hashes the seeds, the bump seed and the program id
/// and searches the bump seeds from 255 down.
///
/// The contract only ties the result to the seeds and the program id through
/// the name `program_address`; the hash search itself is not stated.
#[verifier::external_body]
pub(crate) fn sdk_find_program_address(seeds: &Vec<Vec<u8>>, program_id: &Pubkey) -> (r: Option<(Pubkey, u8)>)
    ensures
        derived_view(r) == program_address(seeds.deep_view(), program_id@),
{
    let refs: Vec<&[u8]> = seeds.iter().map(|s| s.as_slice()).collect();
    let id = anchor_lang::prelude::Pubkey::new_from_array(*program_id);
    anchor_lang::prelude::Pubkey::try_find_program_address(&refs, &id).map(|(key, bump)| (key.to_bytes(), bump))
}

} // verus!
