use vstd::prelude::*;

verus! {

/// Why a settlement attempt was refused. Each variant aborts the whole attempt
/// before any value moves.
#[derive(Debug, Clone, Copy, PartialEq, Eq, Structural)]
pub enum DiceError {
    /// The signature-check record is absent or cannot be decoded.
    MalformedHeader,
    /// The record was not issued by the Ed25519 signature-verification program.
    WrongVerifierProgram,
    /// The record carries no signature entry.
    NoSignaturePresent,
    /// The first entry has no public key.
    MissingPublicKey,
    /// The first entry was signed by someone other than the house.
    SignerMismatch,
    /// The first entry has no signature bytes.
    MissingSignatureBytes,
    /// The entry's signature differs from the one supplied with the request.
    SignatureValueMismatch,
    /// The first entry has no message.
    MissingMessage,
    /// The signed message is not the canonical encoding of the bet.
    MessageMismatch,
    /// The payout does not fit the arithmetic that computes it.
    Overflow,
    /// The transfer of the payout could not be carried out.
    TransferFailed,
}

} // verus!
