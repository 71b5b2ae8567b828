use vstd::prelude::*;

use crate::error::DiceError;
use crate::host::{is_ed25519_program, is_ed25519_program_id};

verus! {

/// One entry of a signature-check record: what the verification program checked.
#[derive(Debug, Clone)]
pub struct SignatureEntry {
    pub public_key: Option<[u8; 32]>,
    pub signature: Option<[u8; 64]>,
    pub message: Option<Vec<u8>>,
}

/// The signature-check record that accompanies a settlement request: the program
/// that issued it, and its entries, or `None` where they could not be unpacked.
#[derive(Debug, Clone)]
pub struct VerifierInstruction {
    pub program_id: [u8; 32],
    pub entries: Option<Vec<SignatureEntry>>,
}

/// The outcome of checking one entry against the expected signer, the signature
/// supplied with the request and the expected message, in that order.
pub open spec fn entry_result(e: SignatureEntry, sig: Seq<u8>, signer: Seq<u8>, msg: Seq<u8>) -> Result<(), DiceError> {
    match e.public_key {
        None => Err(DiceError::MissingPublicKey),
        Some(k) => if k@ != signer {
            Err(DiceError::SignerMismatch)
        } else {
            match e.signature {
                None => Err(DiceError::MissingSignatureBytes),
                Some(s) => if s@ != sig {
                    Err(DiceError::SignatureValueMismatch)
                } else {
                    match e.message {
                        None => Err(DiceError::MissingMessage),
                        Some(m) => if m@ != msg {
                            Err(DiceError::MessageMismatch)
                        } else {
                            Ok(())
                        },
                    }
                },
            }
        },
    }
}

/// The outcome of checking a signature-check record: it must be present, issued by
/// the Ed25519 program, unpacked, non-empty, and its first entry must pass.
pub open spec fn binding_result(ix: Option<VerifierInstruction>, sig: Seq<u8>, signer: Seq<u8>, msg: Seq<u8>) -> Result<(), DiceError> {
    match ix {
        None => Err(DiceError::MalformedHeader),
        Some(ix) => if !is_ed25519_program_id(ix.program_id@) {
            Err(DiceError::WrongVerifierProgram)
        } else {
            match ix.entries {
                None => Err(DiceError::MalformedHeader),
                Some(es) => if es@.len() == 0 {
                    Err(DiceError::NoSignaturePresent)
                } else {
                    entry_result(es@[0], sig, signer, msg)
                },
            }
        },
    }
}

/// Byte-for-byte equality.
pub fn bytes_eq(a: &[u8], b: &[u8]) -> (r: bool)
    ensures
        r == (a@ == b@),
{
    if a.len() != b.len() {
        return false;
    }
    let mut i: usize = 0;
    while i < a.len()
        invariant
            a@.len() == b@.len(),
            i <= a@.len(),
            forall|j: int| 0 <= j < i ==> a@[j] == b@[j],
        decreases a.len() - i,
    {
        if a[i] != b[i] {
            return false;
        }
        i = i + 1;
    }
    assert(a@ =~= b@);
    true
}

/// Checks one entry against the expected signer, supplied signature and message.
pub fn check_entry(e: &SignatureEntry, sig: &[u8], signer: &[u8; 32], msg: &[u8]) -> (r: Result<(), DiceError>)
    ensures
        r == entry_result(*e, sig@, signer@, msg@),
{
    let key = match &e.public_key {
        None => return Err(DiceError::MissingPublicKey),
        Some(k) => k,
    };
    if !bytes_eq(key.as_slice(), signer.as_slice()) {
        return Err(DiceError::SignerMismatch);
    }
    let s = match &e.signature {
        None => return Err(DiceError::MissingSignatureBytes),
        Some(s) => s,
    };
    if !bytes_eq(s.as_slice(), sig) {
        return Err(DiceError::SignatureValueMismatch);
    }
    let m = match &e.message {
        None => return Err(DiceError::MissingMessage),
        Some(m) => m,
    };
    if !bytes_eq(m.as_slice(), msg) {
        return Err(DiceError::MessageMismatch);
    }
    Ok(())
}

/// Checks that a signature-check record binds `sig` to `signer` and `msg`.
pub fn check_binding(ix: &Option<VerifierInstruction>, sig: &[u8], signer: &[u8; 32], msg: &[u8]) -> (r: Result<(), DiceError>)
    ensures
        r == binding_result(*ix, sig@, signer@, msg@),
{
    let ix = match ix {
        None => return Err(DiceError::MalformedHeader),
        Some(ix) => ix,
    };
    if !is_ed25519_program(&ix.program_id) {
        return Err(DiceError::WrongVerifierProgram);
    }
    let entries = match &ix.entries {
        None => return Err(DiceError::MalformedHeader),
        Some(es) => es,
    };
    if entries.len() == 0 {
        return Err(DiceError::NoSignaturePresent);
    }
    check_entry(&entries[0], sig, signer, msg)
}

} // verus!
