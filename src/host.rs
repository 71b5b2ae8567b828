use vstd::prelude::*;

verus! {

/// The SHA-256 digest of `data`.
pub uninterp spec fn sha256_of(data: Seq<u8>) -> Seq<u8>;

/// Whether the 32 bytes `id` are the address of the Ed25519 signature-verification
/// program.
pub uninterp spec fn is_ed25519_program_id(id: Seq<u8>) -> bool;

/// Relies on `solana_program::hash::hash`: the SHA-256 digest of its input, which
/// depends on the bytes alone.
#[verifier::external_body]
pub(crate) fn sha256(data: &[u8]) -> (r: [u8; 32])
    ensures
        r@ == sha256_of(data@),
{
    solana_program::hash::hash(data).to_bytes()
}

/// Relies on `solana_program::ed25519_program::id`: the fixed address of the
/// Ed25519 signature-verification program.
#[verifier::external_body]
pub(crate) fn is_ed25519_program(id: &[u8; 32]) -> (r: bool)
    ensures
        r == is_ed25519_program_id(id@),
{
    solana_program::pubkey::Pubkey::new_from_array(*id) == solana_program::ed25519_program::id()
}

} // verus!
