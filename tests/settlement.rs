use dice_settle::bet::Bet;
use dice_settle::binder::{bytes_eq, SignatureEntry, VerifierInstruction};
use dice_settle::error::DiceError;
use dice_settle::outcome::outcome_from_digest;
use dice_settle::payout::{payout, settle_outcome};
use dice_settle::resolve::ResolveBet;

const HOUSE: [u8; 32] = [11u8; 32];
const PLAYER: [u8; 32] = [22u8; 32];
const VAULT: [u8; 32] = [33u8; 32];

fn sample_bet() -> Bet {
    Bet {
        player: PLAYER,
        seed: 0x0102,
        slot: 9,
        amount: 1_000_000,
        roll: 50,
        bump: 254,
    }
}

fn ed25519_id() -> [u8; 32] {
    solana_program::ed25519_program::id().to_bytes()
}

fn signed_entry(bet: &Bet, sig: [u8; 64]) -> SignatureEntry {
    SignatureEntry {
        public_key: Some(HOUSE),
        signature: Some(sig),
        message: Some(bet.to_slice()),
    }
}

fn request(bet: Bet, entries: Option<Vec<SignatureEntry>>) -> ResolveBet {
    ResolveBet {
        house: HOUSE,
        player: PLAYER,
        vault: VAULT,
        bet,
        verifier: Some(VerifierInstruction {
            program_id: ed25519_id(),
            entries,
        }),
    }
}

#[test]
fn payout_example_wager() {
    assert_eq!(payout(1_000_000, 50), Ok(2_000_000));
}

#[test]
fn payout_overflow_near_max() {
    assert_eq!(payout(u64::MAX, 1), Err(DiceError::Overflow));
    assert_eq!(payout(u64::MAX - 5, 1), Err(DiceError::Overflow));
}

#[test]
fn payout_zero_roll_fails() {
    assert_eq!(payout(10, 0), Err(DiceError::Overflow));
}

#[test]
fn payout_extremes() {
    assert_eq!(payout(100, 99), Ok(101));
    assert_eq!(payout(5, 1), Ok(500));
    assert_eq!(payout(7, 3), Ok(233));
}

#[test]
fn settle_outcome_win_and_loss() {
    assert_eq!(settle_outcome(73, 1_000_000, 50), Ok(Some(2_000_000)));
    assert_eq!(settle_outcome(12, 1_000_000, 50), Ok(None));
}

#[test]
fn settle_outcome_boundaries() {
    assert_eq!(settle_outcome(50, 1_000_000, 50), Ok(None));
    assert_eq!(settle_outcome(100, 1_000, 99), Ok(Some(1_010)));
    for roll in 1u8..100 {
        assert_eq!(settle_outcome(1, 1_000, roll), Ok(None));
    }
}

#[test]
fn outcome_of_zero_digest() {
    assert_eq!(outcome_from_digest(&[0u8; 32]), 1);
}

#[test]
fn outcome_reads_chunks_little_endian() {
    let mut d = [0u8; 32];
    d[0] = 2;
    d[16] = 1;
    assert_eq!(outcome_from_digest(&d), 4);
    let mut e = [0u8; 32];
    e[1] = 1;
    assert_eq!(outcome_from_digest(&e), 57);
}

#[test]
fn outcome_wraps_the_sum() {
    assert_eq!(outcome_from_digest(&[0xffu8; 32]), 55);
    let d: Vec<u8> = (0u8..32).collect();
    let mut a = [0u8; 32];
    a.copy_from_slice(&d);
    assert_eq!(outcome_from_digest(&a), 97);
}

#[test]
fn outcome_is_deterministic() {
    let d = [0x5au8; 32];
    let first = outcome_from_digest(&d);
    assert_eq!(first, outcome_from_digest(&d));
    assert!((1..=100).contains(&first));
}

#[test]
fn bet_encoding_layout() {
    let msg = sample_bet().to_slice();
    let mut want: Vec<u8> = PLAYER.to_vec();
    want.extend_from_slice(&0x0102u128.to_le_bytes());
    want.extend_from_slice(&9u64.to_le_bytes());
    want.extend_from_slice(&1_000_000u64.to_le_bytes());
    want.push(50);
    want.push(254);
    assert_eq!(msg, want);
}

#[test]
fn bet_encoding_changes_with_each_field() {
    let b = sample_bet();
    let base = b.to_slice();
    assert_ne!(Bet { seed: 0x0103, ..b }.to_slice(), base);
    assert_ne!(Bet { slot: 10, ..b }.to_slice(), base);
    assert_ne!(Bet { amount: 999_999, ..b }.to_slice(), base);
    assert_ne!(Bet { roll: 51, ..b }.to_slice(), base);
    assert_ne!(Bet { bump: 253, ..b }.to_slice(), base);
    assert_ne!(Bet { player: [23u8; 32], ..b }.to_slice(), base);
}

#[test]
fn bytes_eq_compares_contents() {
    assert!(bytes_eq(&[1, 2, 3], &[1, 2, 3]));
    assert!(!bytes_eq(&[1, 2, 3], &[1, 2, 4]));
    assert!(!bytes_eq(&[1, 2], &[1, 2, 3]));
    assert!(bytes_eq(&[], &[]));
}

#[test]
fn verify_accepts_bound_signature() {
    let bet = sample_bet();
    let sig = [7u8; 64];
    let rb = request(bet, Some(vec![signed_entry(&bet, sig)]));
    assert_eq!(rb.verify_ed25519_signature(&sig), Ok(()));
}

#[test]
fn verify_missing_record() {
    let mut rb = request(sample_bet(), Some(vec![]));
    rb.verifier = None;
    assert_eq!(rb.verify_ed25519_signature(&[7u8; 64]), Err(DiceError::MalformedHeader));
}

#[test]
fn verify_wrong_program() {
    let bet = sample_bet();
    let sig = [7u8; 64];
    let mut rb = request(bet, Some(vec![signed_entry(&bet, sig)]));
    rb.verifier = Some(VerifierInstruction {
        program_id: [1u8; 32],
        entries: Some(vec![signed_entry(&bet, sig)]),
    });
    assert_eq!(rb.verify_ed25519_signature(&sig), Err(DiceError::WrongVerifierProgram));
}

#[test]
fn verify_undecodable_entries() {
    let rb = request(sample_bet(), None);
    assert_eq!(rb.verify_ed25519_signature(&[7u8; 64]), Err(DiceError::MalformedHeader));
}

#[test]
fn verify_no_entries() {
    let rb = request(sample_bet(), Some(vec![]));
    assert_eq!(rb.verify_ed25519_signature(&[7u8; 64]), Err(DiceError::NoSignaturePresent));
}

#[test]
fn verify_missing_public_key() {
    let bet = sample_bet();
    let sig = [7u8; 64];
    let mut e = signed_entry(&bet, sig);
    e.public_key = None;
    let rb = request(bet, Some(vec![e]));
    assert_eq!(rb.verify_ed25519_signature(&sig), Err(DiceError::MissingPublicKey));
}

#[test]
fn verify_foreign_signer() {
    let bet = sample_bet();
    let sig = [7u8; 64];
    let mut e = signed_entry(&bet, sig);
    e.public_key = Some([12u8; 32]);
    let rb = request(bet, Some(vec![e]));
    assert_eq!(rb.verify_ed25519_signature(&sig), Err(DiceError::SignerMismatch));
    assert_eq!(rb.settle(&sig, 255).err(), Some(DiceError::SignerMismatch));
}

#[test]
fn verify_missing_signature_bytes() {
    let bet = sample_bet();
    let sig = [7u8; 64];
    let mut e = signed_entry(&bet, sig);
    e.signature = None;
    let rb = request(bet, Some(vec![e]));
    assert_eq!(rb.verify_ed25519_signature(&sig), Err(DiceError::MissingSignatureBytes));
}

#[test]
fn verify_tampered_signature() {
    let bet = sample_bet();
    let sig = [7u8; 64];
    let rb = request(bet, Some(vec![signed_entry(&bet, sig)]));
    for i in 0..64 {
        for bit in 0..8 {
            let mut t = sig;
            t[i] ^= 1 << bit;
            assert_eq!(rb.settle(&t, 255).err(), Some(DiceError::SignatureValueMismatch));
        }
    }
}

#[test]
fn verify_missing_message() {
    let bet = sample_bet();
    let sig = [7u8; 64];
    let mut e = signed_entry(&bet, sig);
    e.message = None;
    let rb = request(bet, Some(vec![e]));
    assert_eq!(rb.verify_ed25519_signature(&sig), Err(DiceError::MissingMessage));
}

#[test]
fn verify_altered_bet() {
    let bet = sample_bet();
    let sig = [7u8; 64];
    let entries = vec![signed_entry(&bet, sig)];
    let altered = [
        Bet { seed: 1, ..bet },
        Bet { roll: 10, ..bet },
        Bet { amount: 2_000_000, ..bet },
        Bet { bump: 1, ..bet },
        Bet { player: [0u8; 32], ..bet },
    ];
    for other in altered {
        let rb = request(other, Some(entries.clone()));
        assert_eq!(rb.verify_ed25519_signature(&sig), Err(DiceError::MessageMismatch));
    }
}

#[test]
fn resolve_win_from_signature_digest() {
    // SHA-256 of 64 bytes of 7 draws an outcome of 96.
    let sig = [7u8; 64];
    let bet = Bet { roll: 95, ..sample_bet() };
    let rb = request(bet, Some(vec![signed_entry(&bet, sig)]));
    let order = rb.resolve_bet(&sig, 200).unwrap().unwrap();
    assert_eq!(order.lamports, 1_000_000 * 10000 / 95 / 100);
    assert_eq!(order.from, VAULT);
    assert_eq!(order.to, PLAYER);
    assert_eq!(order.house, HOUSE);
    assert_eq!(order.vault_bump, 200);
    let lose = Bet { roll: 96, ..sample_bet() };
    let rb = request(lose, Some(vec![signed_entry(&lose, sig)]));
    assert!(rb.resolve_bet(&sig, 200).unwrap().is_none());
}

#[test]
fn settle_runs_checks_then_pays() {
    // SHA-256 of the bytes 0..64 draws an outcome of 10.
    let sig: Vec<u8> = (0u8..64).collect();
    let mut arr = [0u8; 64];
    arr.copy_from_slice(&sig);
    let win = Bet { roll: 9, amount: 900, ..sample_bet() };
    let rb = request(win, Some(vec![signed_entry(&win, arr)]));
    let order = rb.settle(&sig, 1).unwrap().unwrap();
    assert_eq!(order.lamports, 10_000);
    let lose = Bet { roll: 10, ..sample_bet() };
    let rb = request(lose, Some(vec![signed_entry(&lose, arr)]));
    assert!(rb.settle(&sig, 1).unwrap().is_none());
}

#[test]
fn settle_overflow_on_win() {
    let sig = [7u8; 64];
    let bet = Bet { roll: 1, amount: u64::MAX, ..sample_bet() };
    let rb = request(bet, Some(vec![signed_entry(&bet, sig)]));
    assert_eq!(rb.settle(&sig, 1).err(), Some(DiceError::Overflow));
}
