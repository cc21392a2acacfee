//! On-chain randomness generation for authority round.
//!
//! The core is the finite state machine `RandomnessPhase`, which is loaded from what the
//! randomness contract says, and then tells which transaction is needed to move the contract on.
//! The contract and the account that signs for this node belong to the node. Loading and advancing
//! go question by question: each step names the next question, and takes its answer.

use vstd::prelude::*;

use crate::types::{Address, H256, U256};
use parity_crypto::publickey::Error as CryptoError;

verus! {

#[verifier::external_type_specification]
#[verifier::external_body]
pub struct ExCryptoError(CryptoError);

/// Secret type expected by the contract.
pub type Secret = [u8; 32];

/// A public key.
pub type Public = [u8; 64];

/// Validated randomness phase state.
///
/// The process of generating random numbers is a simple finite state machine:
///
/// ```text
///                                                       +
///                                                       |
/// +--------------+                              +-------v-------+
/// |              |                              |               |
/// | BeforeCommit <------------------------------+    Waiting    |
/// |              |          enter commit phase  |               |
/// +------+-------+                              +-------^-------+
///        |                                              |
///        |  call                                        |
///        |  `commitHash()`                              |  call
///        |                                              |  `revealSecret`
///        |                                              |
/// +------v-------+                              +-------+-------+
/// |              |                              |               |
/// |  Committed   +------------------------------>    Reveal     |
/// |              |  enter reveal phase          |               |
/// +--------------+                              +---------------+
/// ```
///
/// Phase transitions are performed by the smart contract and simply queried by the engine.
#[derive(Clone, Copy, Debug, PartialEq, Eq)]
pub enum RandomnessPhase {
    /// Waiting for the next phase.
    ///
    /// This state indicates either the successful revelation in this round or having missed the
    /// window to make a commitment.
    Waiting,
    /// Indicates a commitment is possible, but still missing.
    BeforeCommit {
        /// The address of this node.
        our_address: Address,
        /// The round that the contract collects for.
        round: U256,
    },
    /// Indicates a successful commitment, waiting for the commit phase to end.
    Committed,
    /// Indicates revealing is expected as the next step.
    Reveal {
        /// The address of this node.
        our_address: Address,
        /// The round that the contract collects for.
        round: U256,
    },
}

/// Phase loading error for randomness generation state machine. `C` is the error of a contract
/// call, and `A` that of an account.
///
/// This error usually indicates a bug in either the smart contract, the phase loading function or
/// some state being lost.
#[derive(Debug)]
pub enum PhaseError<C, A> {
    /// The smart contract reported a phase as both commitment and reveal phase.
    PhaseConflict,
    /// The smart contract reported that we already revealed something while still being in the
    /// commit phase.
    RevealedInCommit,
    /// Calling a contract to determine the phase failed.
    LoadFailed(C),
    /// Failed to schedule a transaction to call a contract.
    TransactionFailed(C),
    /// A secret was stored, but it did not match the committed hash.
    StaleSecret,
    /// An error with ECIES encryption.
    Crypto(CryptoError),
    /// Failed to decrypt stored secret.
    Decrypt(A),
    /// Failed to retrieve the account's public key.
    AccountPublic(A),
}

/// What the contract says about a round and this node.
#[derive(Clone, Copy, Debug, PartialEq, Eq)]
pub struct PhaseFacts {
    /// The current round.
    pub round: U256,
    /// Whether secrets are being revealed.
    pub is_reveal_phase: bool,
    /// Whether hashes are being committed.
    pub is_commit_phase: bool,
    /// Whether this node has committed a hash in the round.
    pub committed: bool,
    /// Whether this node has revealed its secret in the round.
    pub revealed: bool,
}

/// The state that the facts amount to.
pub open spec fn phase_of<C, A>(facts: PhaseFacts, our_address: Address) -> Result<
    RandomnessPhase,
    PhaseError<C, A>,
> {
    if facts.is_reveal_phase && facts.is_commit_phase {
        Err(PhaseError::PhaseConflict)
    } else if facts.is_commit_phase {
        if facts.revealed {
            Err(PhaseError::RevealedInCommit)
        } else if facts.committed {
            Ok(RandomnessPhase::Committed)
        } else {
            Ok(RandomnessPhase::BeforeCommit { our_address, round: facts.round })
        }
    } else if facts.committed && !facts.revealed {
        Ok(RandomnessPhase::Reveal { our_address, round: facts.round })
    } else {
        Ok(RandomnessPhase::Waiting)
    }
}

/// A question to the randomness contract.
#[derive(Clone, Copy, Debug, PartialEq, Eq)]
pub enum PhaseQuestion {
    /// `currentCollectRound()`, which is answered by a number.
    CurrentCollectRound,
    /// `isRevealPhase()`
    IsRevealPhase,
    /// `isCommitPhase()`
    IsCommitPhase,
    /// `isCommitted(round, address)`
    IsCommitted(U256, Address),
    /// `sentReveal(round, address)`
    SentReveal(U256, Address),
}

/// An answer of the randomness contract.
#[derive(Clone, Copy, Debug, PartialEq, Eq)]
pub enum PhaseAnswer {
    /// The answer to `CurrentCollectRound`.
    Round(U256),
    /// The answer to any other question.
    Flag(bool),
}

/// How far the questions have got.
#[derive(Clone, Copy, Debug, PartialEq, Eq)]
pub enum PhaseLoader {
    /// Nothing is known yet.
    Start,
    /// The round is known.
    Round(U256),
    /// It is also known whether this is the reveal phase.
    Reveal(U256, bool),
    /// It is also known whether this is the commit phase.
    Commit(U256, bool, bool),
    /// It is also known whether this node has committed.
    Committed(U256, bool, bool, bool),
}

/// What comes after an answer.
pub enum LoadStep<C, A> {
    /// The next question has to be asked.
    Ask(PhaseLoader),
    /// The state is known, or it cannot be known.
    Done(Result<RandomnessPhase, PhaseError<C, A>>),
}

impl PhaseLoader {
    /// The question that comes next.
    pub open spec fn next_question(self, our_address: Address) -> PhaseQuestion {
        match self {
            PhaseLoader::Start => PhaseQuestion::CurrentCollectRound,
            PhaseLoader::Round(_) => PhaseQuestion::IsRevealPhase,
            PhaseLoader::Reveal(_, _) => PhaseQuestion::IsCommitPhase,
            PhaseLoader::Commit(round, _, _) => PhaseQuestion::IsCommitted(round, our_address),
            PhaseLoader::Committed(round, _, _, _) => PhaseQuestion::SentReveal(round, our_address),
        }
    }

    /// Whether an answer is of the kind that the question asks for.
    pub open spec fn fits(self, answer: PhaseAnswer) -> bool {
        self is Start <==> answer is Round
    }

    /// What comes after an answer that fits.
    pub open spec fn after<C, A>(
        self,
        our_address: Address,
        answer: Result<PhaseAnswer, C>,
    ) -> LoadStep<C, A> {
        match answer {
            Err(error) => LoadStep::Done(Err(PhaseError::LoadFailed(error))),
            Ok(PhaseAnswer::Round(round)) => LoadStep::Ask(PhaseLoader::Round(round)),
            Ok(PhaseAnswer::Flag(flag)) => match self {
                PhaseLoader::Start => arbitrary(),
                PhaseLoader::Round(round) => LoadStep::Ask(PhaseLoader::Reveal(round, flag)),
                PhaseLoader::Reveal(round, reveal) => LoadStep::Ask(
                    PhaseLoader::Commit(round, reveal, flag),
                ),
                PhaseLoader::Commit(round, reveal, commit) => LoadStep::Ask(
                    PhaseLoader::Committed(round, reveal, commit, flag),
                ),
                PhaseLoader::Committed(round, is_reveal_phase, is_commit_phase, committed) =>
                LoadStep::Done(
                    phase_of(
                        PhaseFacts {
                            round,
                            is_reveal_phase,
                            is_commit_phase,
                            committed,
                            revealed: flag,
                        },
                        our_address,
                    ),
                ),
            },
        }
    }

    /// The question that has to be asked next.
    pub fn question(&self, our_address: Address) -> (question: PhaseQuestion)
        ensures
            question == self.next_question(our_address),
    {
        match *self {
            PhaseLoader::Start => PhaseQuestion::CurrentCollectRound,
            PhaseLoader::Round(_) => PhaseQuestion::IsRevealPhase,
            PhaseLoader::Reveal(_, _) => PhaseQuestion::IsCommitPhase,
            PhaseLoader::Commit(round, _, _) => PhaseQuestion::IsCommitted(round, our_address),
            PhaseLoader::Committed(round, _, _, _) => PhaseQuestion::SentReveal(round, our_address),
        }
    }

    /// Takes the answer to the question.
    pub fn answer<C, A>(self, our_address: Address, answer: Result<PhaseAnswer, C>) -> (step: LoadStep<
        C,
        A,
    >)
        requires
            answer matches Ok(value) ==> self.fits(value),
        ensures
            step == self.after::<C, A>(our_address, answer),
    {
        let value = match answer {
            Ok(value) => value,
            Err(error) => return LoadStep::Done(Err(PhaseError::LoadFailed(error))),
        };
        let flag: bool = match value {
            PhaseAnswer::Round(round) => return LoadStep::Ask(PhaseLoader::Round(round)),
            PhaseAnswer::Flag(flag) => flag,
        };
        match self {
            PhaseLoader::Start => vstd::pervasive::unreached(),
            PhaseLoader::Round(round) => LoadStep::Ask(PhaseLoader::Reveal(round, flag)),
            PhaseLoader::Reveal(round, reveal) => LoadStep::Ask(
                PhaseLoader::Commit(round, reveal, flag),
            ),
            PhaseLoader::Commit(round, reveal, commit) => LoadStep::Ask(
                PhaseLoader::Committed(round, reveal, commit, flag),
            ),
            PhaseLoader::Committed(round, is_reveal_phase, is_commit_phase, committed) => {
                let facts = PhaseFacts {
                    round,
                    is_reveal_phase,
                    is_commit_phase,
                    committed,
                    revealed: flag,
                };
                LoadStep::Done(RandomnessPhase::load(&facts, our_address))
            },
        }
    }
}

impl RandomnessPhase {
    /// Determine randomness generation state from what the contract says: the phase, and whether
    /// or not the current validator still needs to send commitments or reveal secrets.
    pub fn load<C, A>(facts: &PhaseFacts, our_address: Address) -> (phase: Result<
        RandomnessPhase,
        PhaseError<C, A>,
    >)
        ensures
            phase == phase_of::<C, A>(*facts, our_address),
    {
        if facts.is_reveal_phase && facts.is_commit_phase {
            return Err(PhaseError::PhaseConflict);
        }
        if facts.is_commit_phase {
            if facts.revealed {
                return Err(PhaseError::RevealedInCommit);
            }
            if !facts.committed {
                Ok(RandomnessPhase::BeforeCommit { our_address, round: facts.round })
            } else {
                Ok(RandomnessPhase::Committed)
            }
        } else {
            if !facts.committed {
                // We apparently entered too late to make a committment, wait until we get a chance
                // again.
                return Ok(RandomnessPhase::Waiting);
            }
            if !facts.revealed {
                Ok(RandomnessPhase::Reveal { our_address, round: facts.round })
            } else {
                Ok(RandomnessPhase::Waiting)
            }
        }
    }
}

/// The hash that `keccak_hash::keccak` computes.
pub uninterp spec fn keccak256(data: Seq<u8>) -> Seq<u8>;

/// What `ecies::decrypt` makes of a cipher text, with the secret key that belongs to the public
/// key, if the cipher text and the authenticated data belong together.
pub uninterp spec fn ecies_decrypted(public: Seq<u8>, auth_data: Seq<u8>, cipher: Seq<u8>) -> Option<
    Seq<u8>,
>;

/// Calls `keccak_hash::keccak`: the hash depends on the bytes alone.
#[verifier::external_body]
fn keccak(data: &[u8]) -> (hash: H256)
    ensures
        hash.0@ == keccak256(data@),
{
    H256(keccak_hash::keccak(data).0)
}

/// Calls `parity_crypto::publickey::ecies::encrypt`. The cipher text is left to chance, but
/// decrypting it with the matching secret key and the same authenticated data gives the plain text
/// back. It starts with a version byte and is 113 bytes longer than the plain text.
#[verifier::external_body]
fn ecies_encrypt(public: &Public, auth_data: &[u8], plain: &[u8]) -> (cipher: Result<
    Vec<u8>,
    CryptoError,
>)
    requires
        plain@.len() == 32,
    ensures
        cipher matches Ok(bytes) ==> {
            &&& bytes@.len() == plain@.len() + 113
            &&& bytes@[0] == 4
            &&& ecies_decrypted(public@, auth_data@, bytes@) == Some(plain@)
        },
{
    parity_crypto::publickey::ecies::encrypt(&ethereum_types::H512(*public), auth_data, plain)
}

/// What is needed to advance the randomness state.
pub enum Advance {
    /// There is nothing to do.
    Nothing,
    /// A secret has to be committed, unless one has been.
    Commit(CommitCheck),
    /// The committed secret has to be revealed.
    Reveal(RevealCheck),
}

/// Asks the contract for the committed hash, `getCommit(round, our_address)`, before a commitment.
#[derive(Clone, Copy, Debug, PartialEq, Eq)]
pub struct CommitCheck {
    /// The round that the contract collects for.
    pub round: U256,
    /// The address of this node.
    pub our_address: Address,
}

/// Asks for a new random secret.
#[derive(Clone, Copy, Debug, PartialEq, Eq)]
pub struct CommitSecret {
    /// The address of this node.
    pub our_address: Address,
}

/// Asks the account with the address for its public key.
#[derive(Clone, Copy, Debug, PartialEq, Eq)]
pub struct CommitEncryption {
    /// The address of this node.
    pub our_address: Address,
    /// The secret.
    pub secret: Secret,
    /// The hash of the secret.
    pub secret_hash: H256,
}

/// Asks for the transaction `commitHash(secret_hash, cipher)`.
#[derive(Clone, Debug, PartialEq, Eq)]
pub struct CommitTransaction {
    /// The hash of the secret.
    pub secret_hash: H256,
    /// The secret, encrypted for this node.
    pub cipher: Vec<u8>,
}

/// Asks the contract for the committed hash, `getCommit(round, our_address)`, before a revelation.
#[derive(Clone, Copy, Debug, PartialEq, Eq)]
pub struct RevealCheck {
    /// The round that the contract collects for.
    pub round: U256,
    /// The address of this node.
    pub our_address: Address,
}

/// Asks the contract for the encrypted secret, `getCipher(round, our_address)`.
#[derive(Clone, Copy, Debug, PartialEq, Eq)]
pub struct RevealCipher {
    /// The round that the contract collects for.
    pub round: U256,
    /// The address of this node.
    pub our_address: Address,
    /// The hash that was committed.
    pub committed_hash: H256,
}

/// Asks the account with the address to decrypt the cipher text, with the hash as authenticated
/// data.
#[derive(Clone, Debug, PartialEq, Eq)]
pub struct RevealDecryption {
    /// The address of this node.
    pub our_address: Address,
    /// The hash that was committed.
    pub committed_hash: H256,
    /// The encrypted secret.
    pub cipher: Vec<u8>,
}

/// Asks for the transaction `revealSecret(secret)`.
#[derive(Clone, Copy, Debug, PartialEq, Eq)]
pub struct RevealTransaction {
    /// The secret that was committed.
    pub secret: Secret,
}

impl RandomnessPhase {
    /// Advance the randomness state, if necessary.
    ///
    /// **Warning**: The `advance()` function should be called only once per block state; otherwise
    ///              spurious transactions resulting in punishments might be executed.
    pub fn advance(self) -> (next: Advance)
        ensures
            next == (match self {
                RandomnessPhase::Waiting => Advance::Nothing,
                RandomnessPhase::Committed => Advance::Nothing,
                RandomnessPhase::BeforeCommit { our_address, round } => Advance::Commit(
                    CommitCheck { round, our_address },
                ),
                RandomnessPhase::Reveal { our_address, round } => Advance::Reveal(
                    RevealCheck { round, our_address },
                ),
            }),
    {
        match self {
            RandomnessPhase::Waiting | RandomnessPhase::Committed => Advance::Nothing,
            RandomnessPhase::BeforeCommit { our_address, round } => Advance::Commit(
                CommitCheck { round, our_address },
            ),
            RandomnessPhase::Reveal { our_address, round } => Advance::Reveal(
                RevealCheck { round, our_address },
            ),
        }
    }
}

impl CommitCheck {
    /// Takes the committed hash. If there is one, nothing is left to do.
    pub fn committed_hash<C, A>(self, answer: Result<H256, C>) -> (next: Result<
        Option<CommitSecret>,
        PhaseError<C, A>,
    >)
        ensures
            next == (match answer {
                Err(error) => Err::<Option<CommitSecret>, PhaseError<C, A>>(
                    PhaseError::LoadFailed(error),
                ),
                Ok(hash) => Ok::<Option<CommitSecret>, PhaseError<C, A>>(
                    if hash.0@ == H256::zero_bytes() {
                        Some(CommitSecret { our_address: self.our_address })
                    } else {
                        None
                    },
                ),
            }),
    {
        match answer {
            Err(error) => Err(PhaseError::LoadFailed(error)),
            Ok(hash) => if hash.is_zero() {
                Ok(Some(CommitSecret { our_address: self.our_address }))
            } else {
                // Already committed.
                Ok(None)
            },
        }
    }
}

impl CommitSecret {
    /// Takes a new secret and computes its hash.
    pub fn secret(self, secret: Secret) -> (next: CommitEncryption)
        ensures
            next.our_address == self.our_address,
            next.secret == secret,
            next.secret_hash.0@ == keccak256(secret@),
    {
        let secret_hash = keccak(secret.as_slice());
        CommitEncryption { our_address: self.our_address, secret, secret_hash }
    }
}

impl CommitEncryption {
    /// Takes the public key, and encrypts the secret to ourselves. Which cipher text comes out is
    /// left to chance; it can be decrypted with the hash as authenticated data.
    pub fn public<C, A>(self, answer: Result<Public, A>) -> (next: Result<
        CommitTransaction,
        PhaseError<C, A>,
    >)
        ensures
            match answer {
                Err(error) => next == Err::<CommitTransaction, PhaseError<C, A>>(
                    PhaseError::AccountPublic(error),
                ),
                Ok(public) => match next {
                    Ok(transaction) => {
                        &&& transaction.secret_hash == self.secret_hash
                        &&& ecies_decrypted(public@, self.secret_hash.0@, transaction.cipher@)
                            == Some(self.secret@)
                    },
                    Err(error) => error is Crypto,
                },
            },
    {
        match answer {
            Err(error) => Err(PhaseError::AccountPublic(error)),
            Ok(public) => {
                let cipher = ecies_encrypt(
                    &public,
                    self.secret_hash.0.as_slice(),
                    self.secret.as_slice(),
                );
                self.cipher(cipher)
            },
        }
    }

    /// Takes the encrypted secret.
    pub fn cipher<C, A>(self, encrypted: Result<Vec<u8>, CryptoError>) -> (next: Result<
        CommitTransaction,
        PhaseError<C, A>,
    >)
        ensures
            next == (match encrypted {
                Ok(cipher) => Ok::<CommitTransaction, PhaseError<C, A>>(
                    CommitTransaction { secret_hash: self.secret_hash, cipher },
                ),
                Err(error) => Err::<CommitTransaction, PhaseError<C, A>>(PhaseError::Crypto(error)),
            }),
    {
        match encrypted {
            Ok(cipher) => Ok(CommitTransaction { secret_hash: self.secret_hash, cipher }),
            Err(error) => Err(PhaseError::Crypto(error)),
        }
    }
}

impl RevealCheck {
    /// Takes the committed hash.
    pub fn committed_hash<C, A>(self, answer: Result<H256, C>) -> (next: Result<
        RevealCipher,
        PhaseError<C, A>,
    >)
        ensures
            next == (match answer {
                Err(error) => Err::<RevealCipher, PhaseError<C, A>>(PhaseError::LoadFailed(error)),
                Ok(committed_hash) => Ok::<RevealCipher, PhaseError<C, A>>(
                    RevealCipher {
                        round: self.round,
                        our_address: self.our_address,
                        committed_hash,
                    },
                ),
            }),
    {
        match answer {
            Err(error) => Err(PhaseError::LoadFailed(error)),
            Ok(committed_hash) => Ok(
                RevealCipher { round: self.round, our_address: self.our_address, committed_hash },
            ),
        }
    }
}

impl RevealCipher {
    /// Takes the encrypted secret.
    pub fn cipher<C, A>(self, answer: Result<Vec<u8>, C>) -> (next: Result<
        RevealDecryption,
        PhaseError<C, A>,
    >)
        ensures
            next == (match answer {
                Err(error) => Err::<RevealDecryption, PhaseError<C, A>>(
                    PhaseError::LoadFailed(error),
                ),
                Ok(cipher) => Ok::<RevealDecryption, PhaseError<C, A>>(
                    RevealDecryption {
                        our_address: self.our_address,
                        committed_hash: self.committed_hash,
                        cipher,
                    },
                ),
            }),
    {
        match answer {
            Err(error) => Err(PhaseError::LoadFailed(error)),
            Ok(cipher) => Ok(
                RevealDecryption {
                    our_address: self.our_address,
                    committed_hash: self.committed_hash,
                    cipher,
                },
            ),
        }
    }
}

/// Whether decrypted bytes are the secret whose hash was committed.
pub open spec fn is_committed_secret(committed_hash: H256, decrypted: Seq<u8>) -> bool {
    decrypted.len() == 32 && keccak256(decrypted) == committed_hash.0@
}

impl RevealDecryption {
    /// Takes the decrypted secret, and checks it against the committed hash.
    pub fn decrypted<C, A>(self, answer: Result<Vec<u8>, A>) -> (next: Result<
        RevealTransaction,
        PhaseError<C, A>,
    >)
        ensures
            match answer {
                Err(error) => next == Err::<RevealTransaction, PhaseError<C, A>>(
                    PhaseError::Decrypt(error),
                ),
                Ok(bytes) => if is_committed_secret(self.committed_hash, bytes@) {
                    next matches Ok(transaction) && transaction.secret@ == bytes@
                } else {
                    next matches Err(PhaseError::StaleSecret)
                },
            },
    {
        let bytes = match answer {
            Ok(bytes) => bytes,
            Err(error) => return Err(PhaseError::Decrypt(error)),
        };
        if bytes.len() != 32 {
            // This can only happen if there is a bug in the smart contract,
            // or if the entire network goes awry.
            return Err(PhaseError::StaleSecret);
        }
        let mut secret: Secret = [0u8; 32];
        let mut i: usize = 0;
        while i < 32
            invariant
                i <= 32,
                bytes@.len() == 32,
                forall|j: int| 0 <= j < i ==> secret@[j] == bytes@[j],
            decreases 32 - i,
        {
            secret[i] = bytes[i];
            i = i + 1;
        }
        assert(secret@ =~= bytes@);
        let secret_hash = keccak(secret.as_slice());
        let same: bool = secret_hash.same(&self.committed_hash);
        proof {
            if secret_hash.0@ == self.committed_hash.0@ {
                assert(secret_hash.0 =~= self.committed_hash.0);
            }
        }
        if !same {
            return Err(PhaseError::StaleSecret);
        }
        // We are now sure that we have the correct secret and can reveal it.
        Ok(RevealTransaction { secret })
    }
}

/// What it means for the state that a transaction was scheduled, or could not be.
pub fn transaction_pushed<C, A>(answer: Result<(), C>) -> (result: Result<(), PhaseError<C, A>>)
    ensures
        result == (match answer {
            Ok(()) => Ok::<(), PhaseError<C, A>>(()),
            Err(error) => Err::<(), PhaseError<C, A>>(PhaseError::TransactionFailed(error)),
        }),
{
    match answer {
        Ok(()) => Ok(()),
        Err(error) => Err(PhaseError::TransactionFailed(error)),
    }
}

/// Asking one question after the other, and getting an answer each time, leads to the state that
/// the answers amount to.
pub proof fn law_loading_finds_phase<C, A>(facts: PhaseFacts, our_address: Address)
    ensures
        PhaseLoader::Start.after::<C, A>(our_address, Ok(PhaseAnswer::Round(facts.round)))
            == LoadStep::<C, A>::Ask(PhaseLoader::Round(facts.round)),
        PhaseLoader::Round(facts.round).after::<C, A>(
            our_address,
            Ok(PhaseAnswer::Flag(facts.is_reveal_phase)),
        ) == LoadStep::<C, A>::Ask(PhaseLoader::Reveal(facts.round, facts.is_reveal_phase)),
        PhaseLoader::Reveal(facts.round, facts.is_reveal_phase).after::<C, A>(
            our_address,
            Ok(PhaseAnswer::Flag(facts.is_commit_phase)),
        ) == LoadStep::<C, A>::Ask(
            PhaseLoader::Commit(facts.round, facts.is_reveal_phase, facts.is_commit_phase),
        ),
        PhaseLoader::Commit(facts.round, facts.is_reveal_phase, facts.is_commit_phase).after::<
            C,
            A,
        >(our_address, Ok(PhaseAnswer::Flag(facts.committed))) == LoadStep::<C, A>::Ask(
            PhaseLoader::Committed(
                facts.round,
                facts.is_reveal_phase,
                facts.is_commit_phase,
                facts.committed,
            ),
        ),
        PhaseLoader::Committed(
            facts.round,
            facts.is_reveal_phase,
            facts.is_commit_phase,
            facts.committed,
        ).after::<C, A>(our_address, Ok(PhaseAnswer::Flag(facts.revealed))) == LoadStep::<
            C,
            A,
        >::Done(phase_of(facts, our_address)),
{
}

/// A commitment is only made where none was made in the round, and a secret is only revealed where
/// it was committed but not revealed in the round, outside the commit phase.
pub proof fn law_never_twice<C, A>(facts: PhaseFacts, our_address: Address)
    ensures
        phase_of::<C, A>(facts, our_address) matches Ok(phase) ==> {
            &&& phase is BeforeCommit <==> facts.is_commit_phase && !facts.committed
            &&& phase is Reveal <==> !facts.is_commit_phase && facts.committed && !facts.revealed
        },
        facts.is_commit_phase && facts.revealed ==> phase_of::<C, A>(facts, our_address) is Err,
{
}

/// A secret that was committed can be revealed: what the cipher text of the commitment decrypts to,
/// with the committed hash as authenticated data, is the committed secret.
pub proof fn law_commitment_can_be_revealed(
    encryption: CommitEncryption,
    transaction: CommitTransaction,
    public: Seq<u8>,
)
    requires
        encryption.secret_hash.0@ == keccak256(encryption.secret@),
        transaction.secret_hash == encryption.secret_hash,
        ecies_decrypted(public, encryption.secret_hash.0@, transaction.cipher@) == Some(
            encryption.secret@,
        ),
    ensures
        ecies_decrypted(public, transaction.secret_hash.0@, transaction.cipher@) matches Some(plain)
            && plain == encryption.secret@ && is_committed_secret(transaction.secret_hash, plain),
{
}

/// The state that the contract's answers amount to: a commitment is possible only in the commit phase
/// and only if none was made, and a revelation only outside of it, of what was committed and not
/// revealed. Both are for this node and the current round. Answers that contradict each other fail.
pub proof fn law_phase_loaded<C, A>(
    facts: PhaseFacts,
    our_address: Address,
    phase: Result<RandomnessPhase, PhaseError<C, A>>,
)
    requires
        call_ensures(RandomnessPhase::load::<C, A>, (&facts, our_address), phase),
    ensures
        (phase matches Err(PhaseError::PhaseConflict)) <==> facts.is_reveal_phase
            && facts.is_commit_phase,
        (phase matches Err(PhaseError::RevealedInCommit)) <==> facts.is_commit_phase
            && !facts.is_reveal_phase && facts.revealed,
        phase is Err ==> facts.is_commit_phase && (facts.is_reveal_phase || facts.revealed),
        phase matches Ok(RandomnessPhase::BeforeCommit { our_address: a, round: r }) ==> a
            == our_address && r == facts.round,
        phase matches Ok(RandomnessPhase::Reveal { our_address: a, round: r }) ==> a == our_address
            && r == facts.round,
        phase matches Ok(p) ==> {
            &&& p is BeforeCommit <==> facts.is_commit_phase && !facts.committed
            &&& p is Committed <==> facts.is_commit_phase && facts.committed
            &&& p is Reveal <==> !facts.is_commit_phase && facts.committed && !facts.revealed
            &&& p is Waiting <==> !facts.is_commit_phase && (!facts.committed || facts.revealed)
        },
{
}

/// Asking the questions one after the other, each with the answer of the contract to it, leads to the
/// state that the answers amount to.
pub proof fn law_questions_answered<C, A>(
    facts: PhaseFacts,
    our_address: Address,
    loaders: Seq<PhaseLoader>,
    questions: Seq<PhaseQuestion>,
    steps: Seq<LoadStep<C, A>>,
    phase: Result<RandomnessPhase, PhaseError<C, A>>,
)
    requires
        loaders.len() == 5,
        questions.len() == 5,
        steps.len() == 5,
        loaders[0] is Start,
        forall|i: int|
            0 <= i < 5 ==> call_ensures(
                PhaseLoader::question,
                (&loaders[i], our_address),
                #[trigger] questions[i],
            ),
        forall|i: int|
            0 <= i < 5 ==> call_ensures(
                PhaseLoader::answer::<C, A>,
                (
                    loaders[i],
                    our_address,
                    Ok::<PhaseAnswer, C>(
                        match questions[i] {
                            PhaseQuestion::CurrentCollectRound => PhaseAnswer::Round(facts.round),
                            PhaseQuestion::IsRevealPhase => PhaseAnswer::Flag(
                                facts.is_reveal_phase,
                            ),
                            PhaseQuestion::IsCommitPhase => PhaseAnswer::Flag(
                                facts.is_commit_phase,
                            ),
                            PhaseQuestion::IsCommitted(_, _) => PhaseAnswer::Flag(facts.committed),
                            PhaseQuestion::SentReveal(_, _) => PhaseAnswer::Flag(facts.revealed),
                        },
                    ),
                ),
                #[trigger] steps[i],
            ),
        forall|i: int|
            0 <= i < 4 ==> (#[trigger] steps[i] is Ask ==> loaders[i + 1] == steps[i]->Ask_0),
        call_ensures(RandomnessPhase::load::<C, A>, (&facts, our_address), phase),
    ensures
        questions[0] is CurrentCollectRound,
        questions[1] is IsRevealPhase,
        questions[2] is IsCommitPhase,
        questions[3] == PhaseQuestion::IsCommitted(facts.round, our_address),
        questions[4] == PhaseQuestion::SentReveal(facts.round, our_address),
        forall|i: int| 0 <= i < 4 ==> #[trigger] steps[i] is Ask,
        steps[4] == LoadStep::<C, A>::Done(phase),
{
    assert(questions[0] is CurrentCollectRound);
    assert(steps[0] == LoadStep::<C, A>::Ask(PhaseLoader::Round(facts.round)));
    assert(loaders[1] == PhaseLoader::Round(facts.round));
    assert(questions[1] is IsRevealPhase);
    assert(steps[1] == LoadStep::<C, A>::Ask(
        PhaseLoader::Reveal(facts.round, facts.is_reveal_phase),
    ));
    assert(loaders[2] == PhaseLoader::Reveal(facts.round, facts.is_reveal_phase));
    assert(questions[2] is IsCommitPhase);
    assert(steps[2] == LoadStep::<C, A>::Ask(
        PhaseLoader::Commit(facts.round, facts.is_reveal_phase, facts.is_commit_phase),
    ));
    assert(loaders[3] == PhaseLoader::Commit(
        facts.round,
        facts.is_reveal_phase,
        facts.is_commit_phase,
    ));
    assert(questions[3] == PhaseQuestion::IsCommitted(facts.round, our_address));
    assert(steps[3] is Ask);
    assert(loaders[4] == steps[3]->Ask_0);
    assert(questions[4] == PhaseQuestion::SentReveal(facts.round, our_address));
    assert(steps[4] == LoadStep::<C, A>::Done(phase_of(facts, our_address)));
}

/// A question that fails ends the loading with its error.
pub proof fn law_question_failed<C, A>(
    loader: PhaseLoader,
    our_address: Address,
    error: C,
    step: LoadStep<C, A>,
)
    requires
        call_ensures(
            PhaseLoader::answer::<C, A>,
            (loader, our_address, Err::<PhaseAnswer, C>(error)),
            step,
        ),
    ensures
        step == LoadStep::<C, A>::Done(Err(PhaseError::LoadFailed(error))),
{
}

/// A commitment is started only where one is possible, and a revelation only where one is expected,
/// for the same node and round. Otherwise there is nothing to do.
pub proof fn law_phase_advanced(phase: RandomnessPhase, next: Advance)
    requires
        call_ensures(RandomnessPhase::advance, (phase,), next),
    ensures
        next is Nothing <==> phase is Waiting || phase is Committed,
        next matches Advance::Commit(check) ==> phase == (RandomnessPhase::BeforeCommit {
            our_address: check.our_address,
            round: check.round,
        }),
        next matches Advance::Reveal(check) ==> phase == (RandomnessPhase::Reveal {
            our_address: check.our_address,
            round: check.round,
        }),
{
}

/// A commitment goes on, for the same node, exactly if no hash was committed.
pub proof fn law_commit_once<C, A>(
    check: CommitCheck,
    answer: Result<H256, C>,
    next: Result<Option<CommitSecret>, PhaseError<C, A>>,
)
    requires
        call_ensures(CommitCheck::committed_hash::<C, A>, (check, answer), next),
    ensures
        match answer {
            Err(error) => next == Err::<Option<CommitSecret>, PhaseError<C, A>>(
                PhaseError::LoadFailed(error),
            ),
            Ok(hash) => {
                &&& (next matches Ok(None)) <==> (exists|i: int|
                    0 <= i < 32 && (#[trigger] hash.0@[i]) != 0)
                &&& next is Ok
                &&& next matches Ok(Some(secret)) ==> secret.our_address == check.our_address
            },
        },
{
    if let Ok(hash) = answer {
        if forall|i: int| 0 <= i < 32 ==> (#[trigger] hash.0@[i]) == 0 {
            assert(hash.0@ =~= H256::zero_bytes());
        } else {
            let i = choose|i: int| 0 <= i < 32 && (#[trigger] hash.0@[i]) != 0;
            assert(H256::zero_bytes()[i] == 0);
        }
    }
}

/// What was committed comes back: the secret whose hash was committed, encrypted to a public key, is
/// revealed from the committed hash and cipher text, once they were decrypted with the hash as
/// authenticated data.
pub proof fn law_committed_secret_revealed<C, A>(
    commit: CommitSecret,
    secret: Secret,
    encryption: CommitEncryption,
    public: Public,
    transaction: CommitTransaction,
    check: RevealCheck,
    asked: RevealCipher,
    decryption: RevealDecryption,
    plain: Vec<u8>,
    revealed: Result<RevealTransaction, PhaseError<C, A>>,
)
    requires
        call_ensures(CommitSecret::secret, (commit, secret), encryption),
        call_ensures(
            CommitEncryption::public::<C, A>,
            (encryption, Ok::<Public, A>(public)),
            Ok::<CommitTransaction, PhaseError<C, A>>(transaction),
        ),
        call_ensures(
            RevealCheck::committed_hash::<C, A>,
            (check, Ok::<H256, C>(transaction.secret_hash)),
            Ok::<RevealCipher, PhaseError<C, A>>(asked),
        ),
        call_ensures(
            RevealCipher::cipher::<C, A>,
            (asked, Ok::<Vec<u8>, C>(transaction.cipher)),
            Ok::<RevealDecryption, PhaseError<C, A>>(decryption),
        ),
        ecies_decrypted(public@, decryption.committed_hash.0@, decryption.cipher@) == Some(plain@),
        call_ensures(
            RevealDecryption::decrypted::<C, A>,
            (decryption, Ok::<Vec<u8>, A>(plain)),
            revealed,
        ),
    ensures
        encryption.our_address == commit.our_address,
        transaction.secret_hash.0@ == keccak256(secret@),
        asked.round == check.round,
        asked.our_address == check.our_address,
        decryption.our_address == check.our_address,
        revealed matches Ok(t) && t.secret@ == secret@,
{
}

/// Only a secret of 32 bytes whose hash was committed is revealed.
pub proof fn law_only_committed_revealed<C, A>(
    decryption: RevealDecryption,
    answer: Result<Vec<u8>, A>,
    next: Result<RevealTransaction, PhaseError<C, A>>,
)
    requires
        call_ensures(RevealDecryption::decrypted::<C, A>, (decryption, answer), next),
    ensures
        match answer {
            Err(error) => next == Err::<RevealTransaction, PhaseError<C, A>>(
                PhaseError::Decrypt(error),
            ),
            Ok(plain) => {
                &&& next is Ok <==> plain@.len() == 32 && keccak256(plain@)
                    == decryption.committed_hash.0@
                &&& next matches Ok(transaction) ==> transaction.secret@ == plain@
                &&& next is Err ==> next matches Err(PhaseError::StaleSecret)
            },
        },
{
}

/// Failures are named by what failed, and nothing else fails.
pub proof fn law_failures_named<C, A>(
    encryption: CommitEncryption,
    public: Result<Public, A>,
    encrypted: Result<CommitTransaction, PhaseError<C, A>>,
    check: RevealCheck,
    hash: Result<H256, C>,
    asked: Result<RevealCipher, PhaseError<C, A>>,
    reveal: RevealCipher,
    cipher: Result<Vec<u8>, C>,
    decryption: Result<RevealDecryption, PhaseError<C, A>>,
    pushed: Result<(), C>,
    result: Result<(), PhaseError<C, A>>,
)
    requires
        call_ensures(CommitEncryption::public::<C, A>, (encryption, public), encrypted),
        call_ensures(RevealCheck::committed_hash::<C, A>, (check, hash), asked),
        call_ensures(RevealCipher::cipher::<C, A>, (reveal, cipher), decryption),
        call_ensures(transaction_pushed::<C, A>, (pushed,), result),
    ensures
        match public {
            Err(error) => encrypted == Err::<CommitTransaction, PhaseError<C, A>>(
                PhaseError::AccountPublic(error),
            ),
            Ok(_) => encrypted matches Err(error) ==> error is Crypto,
        },
        match hash {
            Err(error) => asked == Err::<RevealCipher, PhaseError<C, A>>(
                PhaseError::LoadFailed(error),
            ),
            Ok(h) => asked matches Ok(a) && a.committed_hash == h && a.round == check.round
                && a.our_address == check.our_address,
        },
        match cipher {
            Err(error) => decryption == Err::<RevealDecryption, PhaseError<C, A>>(
                PhaseError::LoadFailed(error),
            ),
            Ok(c) => decryption matches Ok(d) && d.cipher == c && d.committed_hash
                == reveal.committed_hash && d.our_address == reveal.our_address,
        },
        match pushed {
            Err(error) => result == Err::<(), PhaseError<C, A>>(
                PhaseError::TransactionFailed(error),
            ),
            Ok(()) => result is Ok,
        },
{
}

/// An encrypted secret is committed with its hash, and a failure to encrypt is handed on.
pub proof fn law_cipher_committed<C, A>(
    encryption: CommitEncryption,
    encrypted: Result<Vec<u8>, CryptoError>,
    next: Result<CommitTransaction, PhaseError<C, A>>,
)
    requires
        call_ensures(CommitEncryption::cipher::<C, A>, (encryption, encrypted), next),
    ensures
        match encrypted {
            Ok(bytes) => next matches Ok(transaction) && transaction.cipher == bytes
                && transaction.secret_hash == encryption.secret_hash,
            Err(error) => next == Err::<CommitTransaction, PhaseError<C, A>>(
                PhaseError::Crypto(error),
            ),
        },
{
}

} // verus!
