use vstd::prelude::*;

use crate::bet::{bet_message, lemma_bet_message_injective, Bet};
use crate::binder::{binding_result, check_binding, SignatureEntry, VerifierInstruction};
use crate::error::DiceError;
use crate::host::{is_ed25519_program_id, sha256, sha256_of};
use crate::outcome::{outcome_from_digest, outcome_of_digest};
use crate::payout::{settle_outcome, settlement_of};

verus! {

/// A transfer of `lamports` from the vault to the player, authorised by the vault's
/// address derivation: the label `vault`, the house's key and the bump.
#[derive(Debug, Clone, Copy)]
pub struct TransferOrder {
    pub from: [u8; 32],
    pub to: [u8; 32],
    pub lamports: u64,
    pub house: [u8; 32],
    pub vault_bump: u8,
}

/// The accounts of one settlement request, as plain values, and the signature-check
/// record that came with it (`None` where it could not be loaded).
#[derive(Debug, Clone)]
pub struct ResolveBet {
    pub house: [u8; 32],
    pub player: [u8; 32],
    pub vault: [u8; 32],
    pub bet: Bet,
    pub verifier: Option<VerifierInstruction>,
}

/// The outcome that a signature determines: that of its SHA-256 digest.
pub open spec fn outcome_of_signature(sig: Seq<u8>) -> int {
    outcome_of_digest(sha256_of(sig))
}

impl ResolveBet {
    /// The transfer that a settlement paying `lamports` orders.
    pub open spec fn order_for(&self, lamports: u64, vault_bump: u8) -> TransferOrder {
        TransferOrder {
            from: self.vault,
            to: self.player,
            lamports,
            house: self.house,
            vault_bump,
        }
    }

    /// What settling this bet gives for a drawn outcome: no transfer on a loss, the
    /// payout's transfer on a win, or the payout's error.
    pub open spec fn result_for_outcome(&self, outcome: int, vault_bump: u8) -> Result<Option<TransferOrder>, DiceError> {
        match settlement_of(outcome, self.bet.amount, self.bet.roll) {
            Ok(Some(p)) => Ok(Some(self.order_for(p, vault_bump))),
            Ok(None) => Ok(None),
            Err(e) => Err(e),
        }
    }

    /// What a whole settlement attempt with signature `sig` gives: the signature
    /// check's error, or else the settlement for the outcome that `sig` draws.
    pub open spec fn settle_result(&self, sig: Seq<u8>, vault_bump: u8) -> Result<Option<TransferOrder>, DiceError> {
        match binding_result(self.verifier, sig, self.house@, bet_message(self.bet)) {
            Err(e) => Err(e),
            Ok(()) => self.result_for_outcome(outcome_of_signature(sig), vault_bump),
        }
    }

    /// Checks that the accompanying record shows the house's Ed25519 signature
    /// `sig` over this bet's canonical encoding.
    pub fn verify_ed25519_signature(&self, sig: &[u8]) -> (r: Result<(), DiceError>)
        ensures
            r == binding_result(self.verifier, sig@, self.house@, bet_message(self.bet)),
    {
        let msg = self.bet.to_slice();
        check_binding(&self.verifier, sig, &self.house, msg.as_slice())
    }

    /// Settles the bet for an outcome already drawn.
    pub fn settle_with_outcome(&self, outcome: u8, vault_bump: u8) -> (r: Result<Option<TransferOrder>, DiceError>)
        ensures
            r == self.result_for_outcome(outcome as int, vault_bump),
    {
        match settle_outcome(outcome, self.bet.amount, self.bet.roll) {
            Ok(Some(p)) => Ok(Some(TransferOrder {
                from: self.vault,
                to: self.player,
                lamports: p,
                house: self.house,
                vault_bump,
            })),
            Ok(None) => Ok(None),
            Err(e) => Err(e),
        }
    }

    /// Draws the outcome from the signature `sig` and settles the bet: on a win,
    /// returns the transfer of the payout from the vault to the player.
    pub fn resolve_bet(&self, sig: &[u8], vault_bump: u8) -> (r: Result<Option<TransferOrder>, DiceError>)
        ensures
            r == self.result_for_outcome(outcome_of_signature(sig@), vault_bump),
    {
        let digest = sha256(sig);
        let outcome = outcome_from_digest(&digest);
        self.settle_with_outcome(outcome, vault_bump)
    }

    /// A whole settlement attempt: the signature check, then, only if it passes,
    /// the draw and the payout.
    pub fn settle(&self, sig: &[u8], vault_bump: u8) -> (r: Result<Option<TransferOrder>, DiceError>)
        ensures
            r == self.settle_result(sig@, vault_bump),
    {
        match self.verify_ed25519_signature(sig) {
            Err(e) => Err(e),
            Ok(()) => self.resolve_bet(sig, vault_bump),
        }
    }
}

/// The first entry of a record that passed the program check and was unpacked
/// into at least one entry.
pub open spec fn first_entry(ix: Option<VerifierInstruction>) -> Option<SignatureEntry> {
    match ix {
        Some(v) => if is_ed25519_program_id(v.program_id@) {
            match v.entries {
                Some(es) => if es@.len() > 0 {
                    Some(es@[0])
                } else {
                    None
                },
                None => None,
            }
        } else {
            None
        },
        None => None,
    }
}

/// A record signed under any key other than the house's is refused with
/// `SignerMismatch`, whatever its message and signature, and nothing is paid.
pub proof fn lemma_foreign_signer_refused(rb: ResolveBet, sig: Seq<u8>, vault_bump: u8)
    requires
        first_entry(rb.verifier) is Some,
        first_entry(rb.verifier)->Some_0.public_key is Some,
        first_entry(rb.verifier)->Some_0.public_key->Some_0@ != rb.house@,
    ensures
        rb.settle_result(sig, vault_bump) == Err::<Option<TransferOrder>, DiceError>(DiceError::SignerMismatch),
{
}

/// A supplied signature that differs in any bit from the one in the record is
/// refused with `SignatureValueMismatch`: it never draws an outcome.
pub proof fn lemma_tampered_signature_refused(rb: ResolveBet, sig: Seq<u8>, vault_bump: u8)
    requires
        first_entry(rb.verifier) is Some,
        first_entry(rb.verifier)->Some_0.public_key == Some(rb.house),
        first_entry(rb.verifier)->Some_0.signature is Some,
        first_entry(rb.verifier)->Some_0.signature->Some_0@ != sig,
    ensures
        rb.settle_result(sig, vault_bump) == Err::<Option<TransferOrder>, DiceError>(DiceError::SignatureValueMismatch),
{
}

/// A record that binds a signature to one bet is refused with `MessageMismatch` for
/// any bet that differs from it in some field.
pub proof fn lemma_altered_bet_refused(rb: ResolveBet, other: Bet, sig: Seq<u8>, vault_bump: u8)
    requires
        binding_result(rb.verifier, sig, rb.house@, bet_message(rb.bet)) is Ok,
        other != rb.bet,
    ensures
        (ResolveBet { bet: other, ..rb }).settle_result(sig, vault_bump)
            == Err::<Option<TransferOrder>, DiceError>(DiceError::MessageMismatch),
{
    if bet_message(other) == bet_message(rb.bet) {
        lemma_bet_message_injective(other, rb.bet);
    }
}

/// The outcome is a function of the signature bytes alone and lies in `1..=100`;
/// settling twice with the same signature gives the same result.
pub proof fn lemma_outcome_deterministic(rb: ResolveBet, s1: Seq<u8>, s2: Seq<u8>, vault_bump: u8)
    requires
        s1 == s2,
    ensures
        outcome_of_signature(s1) == outcome_of_signature(s2),
        1 <= outcome_of_signature(s1) <= 100,
        rb.settle_result(s1, vault_bump) == rb.settle_result(s2, vault_bump),
{
}

} // verus!
