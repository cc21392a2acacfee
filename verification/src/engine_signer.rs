//! Signing on behalf of an account of the node.

use vstd::prelude::*;

use crate::types::{Address, H256};

verus! {

/// Why the engine gets no answer.
#[derive(Debug, Clone, Copy, PartialEq, Eq, Structural)]
pub enum SignerError {
    /// The account cannot sign.
    InvalidSecretKey,
    /// The message cannot be decrypted.
    InvalidMessage,
}

/// Asks the account management for a signature.
#[derive(Debug, Clone, PartialEq, Eq)]
pub struct SignRequest {
    /// The account.
    pub address: Address,
    /// The password of the account.
    pub password: Option<String>,
    /// What to sign.
    pub message: H256,
}

/// Asks the account management to decrypt a message.
#[derive(Debug, Clone, PartialEq, Eq)]
pub struct DecryptRequest {
    /// The account.
    pub address: Address,
    /// The password of the account. Without one, the account has to be unlocked.
    pub password: Option<String>,
    /// The data that the message is bound to.
    pub auth_data: Vec<u8>,
    /// The encrypted message.
    pub cipher: Vec<u8>,
}

/// Asks the account management for the public key of an account.
#[derive(Debug, Clone, PartialEq, Eq)]
pub struct PublicRequest {
    /// The account.
    pub address: Address,
    /// The password of the account.
    pub password: String,
}

/// An engine signer that uses the account management of the node.
#[derive(Debug)]
pub struct EngineSigner {
    address: Address,
    password: String,
}

impl EngineSigner {
    /// The account.
    pub closed spec fn account(self) -> Address {
        self.address
    }

    /// The password of the account.
    pub closed spec fn secret(self) -> Seq<char> {
        self.password@
    }

    /// Creates new `EngineSigner` given account details.
    pub fn new(address: Address, password: String) -> (signer: EngineSigner)
        ensures
            signer.account() == address,
            signer.secret() == password@,
    {
        EngineSigner { address, password }
    }

    /// Asks for the signature of a message, with the password.
    pub fn sign(&self, message: H256) -> (request: SignRequest)
        ensures
            request.address == self.account(),
            request.password matches Some(password) && password@ == self.secret(),
            request.message == message,
    {
        SignRequest { address: self.address, password: Some(self.password.clone()), message }
    }

    /// Asks to decrypt a message, without the password.
    pub fn decrypt(&self, auth_data: &[u8], cipher: &[u8]) -> (request: DecryptRequest)
        ensures
            request.address == self.account(),
            request.password is None,
            request.auth_data@ == auth_data@,
            request.cipher@ == cipher@,
    {
        DecryptRequest {
            address: self.address,
            password: None,
            auth_data: vstd::slice::slice_to_vec(auth_data),
            cipher: vstd::slice::slice_to_vec(cipher),
        }
    }

    /// The account.
    pub fn address(&self) -> (address: Address)
        ensures
            address == self.account(),
    {
        self.address
    }

    /// Asks for the public key of the account, with the password.
    pub fn public(&self) -> (request: PublicRequest)
        ensures
            request.address == self.account(),
            request.password@ == self.secret(),
    {
        PublicRequest { address: self.address, password: self.password.clone() }
    }
}

impl SignRequest {
    /// What the engine gets for the answer of the account management.
    pub fn answer<S, E>(result: Result<S, E>) -> (signed: Result<S, SignerError>)
        ensures
            signed == match result {
                Ok(signature) => Ok::<S, SignerError>(signature),
                Err(_) => Err::<S, SignerError>(SignerError::InvalidSecretKey),
            },
    {
        match result {
            Ok(signature) => Ok(signature),
            Err(_) => Err(SignerError::InvalidSecretKey),
        }
    }
}

impl DecryptRequest {
    /// What the engine gets for the answer of the account management.
    pub fn answer<M, E>(result: Result<M, E>) -> (decrypted: Result<M, SignerError>)
        ensures
            decrypted == match result {
                Ok(message) => Ok::<M, SignerError>(message),
                Err(_) => Err::<M, SignerError>(SignerError::InvalidMessage),
            },
    {
        match result {
            Ok(message) => Ok(message),
            Err(_) => Err(SignerError::InvalidMessage),
        }
    }
}

impl PublicRequest {
    /// What the engine gets for the answer of the account management.
    pub fn answer<P, E>(result: Result<P, E>) -> (public: Option<P>)
        ensures
            public == match result {
                Ok(key) => Some(key),
                Err(_) => None,
            },
    {
        match result {
            Ok(key) => Some(key),
            Err(_) => None,
        }
    }
}

/// Requests go to the account of the signer with what is to be done. Its password goes along to sign
/// and to get the public key, but not to decrypt.
pub proof fn law_requests(
    address: Address,
    password: String,
    signer: EngineSigner,
    message: H256,
    auth_data: &[u8],
    cipher: &[u8],
    signing: SignRequest,
    decryption: DecryptRequest,
    public: PublicRequest,
    account: Address,
)
    requires
        call_ensures(EngineSigner::new, (address, password), signer),
        call_ensures(EngineSigner::sign, (&signer, message), signing),
        call_ensures(EngineSigner::decrypt, (&signer, auth_data, cipher), decryption),
        call_ensures(EngineSigner::public, (&signer,), public),
        call_ensures(EngineSigner::address, (&signer,), account),
    ensures
        account == address,
        signing.address == address,
        signing.password matches Some(p) && p@ == password@,
        signing.message == message,
        decryption.address == address,
        decryption.password is None,
        decryption.auth_data@ == auth_data@,
        decryption.cipher@ == cipher@,
        public.address == address,
        public.password@ == password@,
{
}

/// What the account management answers is handed on, and a failure is named by what was asked for.
pub proof fn law_answers<T, E>(
    result: Result<T, E>,
    signed: Result<T, SignerError>,
    decrypted: Result<T, SignerError>,
    public: Option<T>,
)
    requires
        call_ensures(SignRequest::answer::<T, E>, (result,), signed),
        call_ensures(DecryptRequest::answer::<T, E>, (result,), decrypted),
        call_ensures(PublicRequest::answer::<T, E>, (result,), public),
    ensures
        match result {
            Ok(value) => {
                &&& signed == Ok::<T, SignerError>(value)
                &&& decrypted == Ok::<T, SignerError>(value)
                &&& public == Some(value)
            },
            Err(_) => {
                &&& signed == Err::<T, SignerError>(SignerError::InvalidSecretKey)
                &&& decrypted == Err::<T, SignerError>(SignerError::InvalidMessage)
                &&& public is None
            },
        },
{
}

} // verus!
