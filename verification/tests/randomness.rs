//! The randomness protocol, with a contract that is played by the tests.

use hbbft_node::randomness::{
    transaction_pushed, Advance, CommitCheck, CommitEncryption, CommitTransaction, LoadStep,
    PhaseAnswer, PhaseError, PhaseFacts, PhaseLoader, PhaseQuestion, RandomnessPhase, RevealCheck,
    RevealDecryption,
};
use hbbft_node::types::{Address, H256, U256};
use parity_crypto::publickey::{ecies, Generator, KeyPair, Random};

type Failure = PhaseError<&'static str, &'static str>;

const OUR_ADDRESS: Address = Address([7; 20]);
const ROUND: U256 = U256([5, 0, 0, 0]);

fn facts(reveal: bool, commit: bool, committed: bool, revealed: bool) -> PhaseFacts {
    PhaseFacts {
        round: ROUND,
        is_reveal_phase: reveal,
        is_commit_phase: commit,
        committed,
        revealed,
    }
}

/// Loads the phase question by question.
fn load(facts: PhaseFacts) -> Result<RandomnessPhase, Failure> {
    let mut loader = PhaseLoader::Start;
    loop {
        let answer = match loader.question(OUR_ADDRESS) {
            PhaseQuestion::CurrentCollectRound => PhaseAnswer::Round(facts.round),
            PhaseQuestion::IsRevealPhase => PhaseAnswer::Flag(facts.is_reveal_phase),
            PhaseQuestion::IsCommitPhase => PhaseAnswer::Flag(facts.is_commit_phase),
            PhaseQuestion::IsCommitted(round, address) => {
                assert_eq!((round, address), (ROUND, OUR_ADDRESS));
                PhaseAnswer::Flag(facts.committed)
            }
            PhaseQuestion::SentReveal(round, address) => {
                assert_eq!((round, address), (ROUND, OUR_ADDRESS));
                PhaseAnswer::Flag(facts.revealed)
            }
        };
        match loader.answer(OUR_ADDRESS, Ok(answer)) {
            LoadStep::Ask(next) => loader = next,
            LoadStep::Done(phase) => return phase,
        }
    }
}

#[test]
fn phases_are_loaded() {
    let before = RandomnessPhase::BeforeCommit { our_address: OUR_ADDRESS, round: ROUND };
    let reveal = RandomnessPhase::Reveal { our_address: OUR_ADDRESS, round: ROUND };
    assert_eq!(load(facts(false, true, false, false)).unwrap(), before);
    assert_eq!(load(facts(false, true, true, false)).unwrap(), RandomnessPhase::Committed);
    assert_eq!(load(facts(true, false, true, false)).unwrap(), reveal);
    assert_eq!(load(facts(false, false, true, false)).unwrap(), reveal);
    assert_eq!(load(facts(true, false, true, true)).unwrap(), RandomnessPhase::Waiting);
    assert_eq!(load(facts(true, false, false, false)).unwrap(), RandomnessPhase::Waiting);
    assert_eq!(load(facts(true, false, false, true)).unwrap(), RandomnessPhase::Waiting);
}

#[test]
fn conflicts_are_reported() {
    assert!(matches!(load(facts(true, true, false, false)), Err(PhaseError::PhaseConflict)));
    assert!(matches!(load(facts(true, true, true, true)), Err(PhaseError::PhaseConflict)));
    assert!(matches!(load(facts(false, true, false, true)), Err(PhaseError::RevealedInCommit)));
    assert!(matches!(load(facts(false, true, true, true)), Err(PhaseError::RevealedInCommit)));
}

#[test]
fn loading_stops_at_a_failed_call() {
    let loaders = vec![
        PhaseLoader::Start,
        PhaseLoader::Round(ROUND),
        PhaseLoader::Reveal(ROUND, true),
        PhaseLoader::Commit(ROUND, true, false),
        PhaseLoader::Committed(ROUND, true, false, true),
    ];
    for loader in loaders {
        let step: LoadStep<&str, &str> = loader.answer(OUR_ADDRESS, Err("no contract"));
        assert!(matches!(step, LoadStep::Done(Err(PhaseError::LoadFailed("no contract")))));
    }
}

fn advance(facts: PhaseFacts) -> Advance {
    load(facts).unwrap().advance()
}

fn commit(keys: &KeyPair, secret: [u8; 32]) -> CommitTransaction {
    let check = match advance(facts(false, true, false, false)) {
        Advance::Commit(check) => check,
        _ => panic!("expected a commitment"),
    };
    assert_eq!(check, CommitCheck { round: ROUND, our_address: OUR_ADDRESS });
    let missing: Result<_, Failure> = check.committed_hash(Ok(H256([0; 32])));
    let encryption = missing.unwrap().unwrap().secret(secret);
    assert_eq!(encryption.our_address, OUR_ADDRESS);
    let transaction: Result<_, Failure> = encryption.public(Ok(keys.public().0));
    transaction.unwrap()
}

fn reveal_secret(hash: H256, cipher: Vec<u8>, decrypted: Result<Vec<u8>, &'static str>) -> Result<[u8; 32], Failure> {
    let check = match advance(facts(true, false, true, false)) {
        Advance::Reveal(check) => check,
        _ => panic!("expected a revelation"),
    };
    assert_eq!(check, RevealCheck { round: ROUND, our_address: OUR_ADDRESS });
    let question = check.committed_hash::<&str, &str>(Ok(hash)).unwrap();
    assert_eq!((question.round, question.our_address), (ROUND, OUR_ADDRESS));
    let decryption = question.cipher::<&str, &str>(Ok(cipher.clone())).unwrap();
    let expected = RevealDecryption { our_address: OUR_ADDRESS, committed_hash: hash, cipher };
    assert_eq!(decryption, expected);
    Ok(decryption.decrypted(decrypted)?.secret)
}

#[test]
fn committed_secret_is_revealed() {
    let keys = Random.generate();
    let secret = [9u8; 32];
    let transaction = commit(&keys, secret);
    assert_eq!(transaction.secret_hash.0, keccak_hash::keccak(&secret[..]).0);
    assert_eq!(transaction.cipher.len(), 145);
    let hash = transaction.secret_hash;
    let plain = ecies::decrypt(keys.secret(), &hash.0, &transaction.cipher).unwrap();
    assert_eq!(reveal_secret(hash, transaction.cipher, Ok(plain)).unwrap(), secret);
}

#[test]
fn hash_of_the_empty_secret() {
    let transaction = commit(&Random.generate(), [0; 32]);
    // The Keccak-256 hash of 32 zero bytes.
    assert_eq!(&transaction.secret_hash.0[..4], &[0x29, 0x0d, 0xec, 0xd9]);
}

#[test]
fn nothing_to_advance() {
    assert!(matches!(advance(facts(false, true, true, false)), Advance::Nothing));
    assert!(matches!(advance(facts(true, false, false, false)), Advance::Nothing));
}

#[test]
fn commitment_is_not_repeated() {
    let check = CommitCheck { round: ROUND, our_address: OUR_ADDRESS };
    let known: Result<_, Failure> = check.committed_hash(Ok(H256([1; 32])));
    assert!(known.unwrap().is_none());
}

#[test]
fn stale_secrets_are_not_revealed() {
    let hash = H256(keccak_hash::keccak(&[9u8; 32][..]).0);
    let stale = |decrypted| reveal_secret(hash, vec![1], Ok(decrypted));
    assert!(matches!(stale(vec![8; 32]), Err(PhaseError::StaleSecret)));
    assert!(matches!(stale(vec![9; 31]), Err(PhaseError::StaleSecret)));
    assert!(matches!(stale(vec![9; 33]), Err(PhaseError::StaleSecret)));
    assert_eq!(stale(vec![9; 32]).unwrap(), [9; 32]);
}

#[test]
fn failures_are_passed_on() {
    let check = CommitCheck { round: ROUND, our_address: OUR_ADDRESS };
    let failed: Result<_, Failure> = check.committed_hash(Err("no contract"));
    assert!(matches!(failed, Err(PhaseError::LoadFailed("no contract"))));

    let encryption = CommitEncryption {
        our_address: OUR_ADDRESS,
        secret: [1; 32],
        secret_hash: H256([2; 32]),
    };
    let failed: Result<_, Failure> = encryption.public(Err("locked"));
    assert!(matches!(failed, Err(PhaseError::AccountPublic("locked"))));
    let failed: Result<_, Failure> = encryption.public(Ok([0xff; 64]));
    assert!(matches!(failed, Err(PhaseError::Crypto(_))));

    let check = RevealCheck { round: ROUND, our_address: OUR_ADDRESS };
    let failed: Result<_, Failure> = check.committed_hash(Err("no contract"));
    assert!(matches!(failed, Err(PhaseError::LoadFailed("no contract"))));
    let question = check.committed_hash::<&str, &str>(Ok(H256([2; 32]))).unwrap();
    let failed: Result<_, Failure> = question.cipher(Err("no contract"));
    assert!(matches!(failed, Err(PhaseError::LoadFailed("no contract"))));
    let failed = reveal_secret(H256([2; 32]), vec![1], Err("locked"));
    assert!(matches!(failed, Err(PhaseError::Decrypt("locked"))));

    let pushed: Result<(), Failure> = transaction_pushed(Ok(()));
    assert!(pushed.is_ok());
    let failed: Result<(), Failure> = transaction_pushed(Err("queue is full"));
    assert!(matches!(failed, Err(PhaseError::TransactionFailed("queue is full"))));
}
