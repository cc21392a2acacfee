//! Sealing a block with a threshold signature.
//!
//! Every validator contributes a signature share for the hash of the block. Once enough shares
//! are there they are combined, and the combined signature is the seal of the block.

use vstd::prelude::*;

#[allow(unused_imports)]
use crate::network::has_keys;
use crate::network::is_usable;
use crate::types::NodeId;
use ethereum_types::H512;
use hbbft::crypto::{PublicKey, Signature};
use hbbft::threshold_sign::{Error as SignError, Message, ThresholdSign};
use hbbft::NetworkInfo;
use rlp::DecoderError;
use std::sync::Arc;

verus! {

/// The length of a signature in bytes.
pub const SIGNATURE_SIZE: usize = 96;

#[verifier::external_type_specification]
#[verifier::external_body]
#[verifier::reject_recursive_types(N)]
pub struct ExThresholdSign<N>(hbbft::threshold_sign::ThresholdSign<N>);

#[verifier::external_type_specification]
#[verifier::external_body]
#[verifier::reject_recursive_types(N)]
pub struct ExNetworkInfo<N>(hbbft::NetworkInfo<N>);

#[verifier::external_type_specification]
#[verifier::external_body]
pub struct ExSignature(hbbft::crypto::Signature);

#[verifier::external_type_specification]
#[verifier::external_body]
pub struct ExPublicKey(hbbft::crypto::PublicKey);

#[verifier::external_type_specification]
#[verifier::external_body]
pub struct ExSignMessage(hbbft::threshold_sign::Message);

#[verifier::external_type_specification]
#[verifier::external_body]
pub struct ExSignError(SignError);

#[verifier::external_type_specification]
#[verifier::external_body]
pub struct ExDecoderError(rlp::DecoderError);

/// The kinds of misbehaviour that threshold signing reports.
#[derive(Clone, Copy, Debug, PartialEq, Eq)]
pub enum FaultKind {
    /// A signature share does not belong to its sender.
    UnverifiedSignatureShareSender,
    /// A signature share came although none is expected.
    UnexpectedSignatureShare,
}

/// A node that misbehaved, and how.
#[derive(Clone, Copy, Debug, PartialEq, Eq)]
pub struct Fault {
    /// The node to blame.
    pub node_id: NodeId,
    /// What it did.
    pub kind: FaultKind,
}

/// The nodes that a message is meant for.
#[derive(Clone, Debug, PartialEq, Eq)]
pub enum Target {
    /// The listed nodes.
    Nodes(Vec<NodeId>),
    /// All nodes but the listed ones.
    AllExcept(Vec<NodeId>),
}

/// The nodes that a message is meant for, as mathematical sequences.
pub enum TargetView {
    /// The listed nodes.
    Nodes(Seq<NodeId>),
    /// All nodes but the listed ones.
    AllExcept(Seq<NodeId>),
}

impl View for Target {
    type V = TargetView;

    open spec fn view(&self) -> TargetView {
        match *self {
            Target::Nodes(ids) => TargetView::Nodes(ids@),
            Target::AllExcept(ids) => TargetView::AllExcept(ids@),
        }
    }
}

/// A signature share together with the nodes that it has to be sent to.
#[derive(Debug)]
pub struct TargetedMessage {
    /// Where the message goes.
    pub target: Target,
    /// The message itself.
    pub message: Message,
}

impl View for TargetedMessage {
    type V = (TargetView, Message);

    open spec fn view(&self) -> (TargetView, Message) {
        (self.target@, self.message)
    }
}

/// What one call into the threshold signing algorithm has brought about.
#[derive(Debug)]
pub struct Step {
    /// The combined signature, if it was completed in this step.
    pub output: Vec<Signature>,
    /// The misbehaviour that was noticed.
    pub fault_log: Vec<Fault>,
    /// The messages that have to be sent.
    pub messages: Vec<TargetedMessage>,
}

/// A step as mathematical sequences.
#[verifier::ext_equal]
pub struct StepView {
    /// The combined signatures.
    pub output: Seq<Signature>,
    /// The misbehaviour that was noticed.
    pub fault_log: Seq<Fault>,
    /// The messages that have to be sent.
    pub messages: Seq<(TargetView, Message)>,
}

impl View for Step {
    type V = StepView;

    open spec fn view(&self) -> StepView {
        StepView {
            output: self.output@,
            fault_log: self.fault_log@,
            messages: self.messages@.map_values(|m: TargetedMessage| m@),
        }
    }
}

impl Step {
    /// A step in which nothing happened.
    pub open spec fn nothing() -> StepView {
        StepView { output: Seq::empty(), fault_log: Seq::empty(), messages: Seq::empty() }
    }

    /// Returns a step without output, faults and messages.
    pub fn empty() -> (step: Step)
        ensures
            step@ == Step::nothing(),
    {
        let step = Step { output: Vec::new(), fault_log: Vec::new(), messages: Vec::new() };
        assert(step@ =~= Step::nothing());
        step
    }
}

/// The outcome of a call as a mathematical value.
pub open spec fn result_view(result: Result<Step, SignError>) -> Result<StepView, SignError> {
    match result {
        Ok(step) => Ok(step@),
        Err(error) => Err(error),
    }
}

/// The signing instance that `ThresholdSign::new` makes for a network.
pub uninterp spec fn fresh_sign(netinfo: NetworkInfo<H512>) -> ThresholdSign<H512>;

/// The instance that `ThresholdSign::set_document` leaves behind, and what it returns.
pub uninterp spec fn document_set(ts: ThresholdSign<H512>, document: Seq<u8>) -> (
    ThresholdSign<H512>,
    Result<(), SignError>,
);

/// The instance that `ThresholdSign::sign` leaves behind, and what it returns.
pub uninterp spec fn share_signed(ts: ThresholdSign<H512>) -> (
    ThresholdSign<H512>,
    Result<StepView, SignError>,
);

/// The instance that `ThresholdSign::handle_message` leaves behind, and what it returns.
pub uninterp spec fn share_handled(
    ts: ThresholdSign<H512>,
    sender: NodeId,
    message: Message,
) -> (ThresholdSign<H512>, Result<StepView, SignError>);

/// Whether the network of an instance has keys. Without them, combining signature shares counts
/// below zero.
pub uninterp spec fn sign_has_keys(ts: ThresholdSign<H512>) -> bool;

/// Whether the instance already has a document, so that it refuses every other one.
pub open spec fn has_document(ts: ThresholdSign<H512>) -> bool {
    forall|document: Seq<u8>| #[trigger]
        document_set(ts, document).1 is Err && document_set(ts, document).0 == ts
}

/// Calls `hbbft::threshold_sign::ThresholdSign::new`: the instance depends on the network
/// information alone, and it has no document yet, so it accepts the first one it is given.
#[verifier::external_body]
fn new_threshold_sign(netinfo: NetworkInfo<H512>) -> (ts: ThresholdSign<H512>)
    ensures
        ts == fresh_sign(netinfo),
        sign_has_keys(ts) == has_keys(netinfo),
        forall|document: Seq<u8>| #[trigger] document_set(ts, document).1 is Ok,
{
    ThresholdSign::new(Arc::new(netinfo))
}

/// Calls `hbbft::threshold_sign::ThresholdSign::set_document`: the outcome depends on the
/// instance and the document alone. An instance takes one document; after that it stays as it is
/// and answers every other document with an error.
#[verifier::external_body]
fn set_document(ts: &mut ThresholdSign<H512>, document: &[u8]) -> (result: Result<(), SignError>)
    ensures
        (*final(ts), result) == document_set(*old(ts), document@),
        sign_has_keys(*final(ts)) == sign_has_keys(*old(ts)),
        has_document(*final(ts)),
        result is Err ==> *final(ts) == *old(ts),
{
    ts.set_document(document)
}

/// Calls `hbbft::threshold_sign::ThresholdSign::sign`: the outcome depends on the instance alone,
/// and a document that was set stays set.
#[verifier::external_body]
fn sign_share(ts: &mut ThresholdSign<H512>) -> (result: Result<Step, SignError>)
    requires
        sign_has_keys(*old(ts)),
    ensures
        sign_has_keys(*final(ts)),
        (*final(ts), result_view(result)) == share_signed(*old(ts)),
        has_document(*old(ts)) ==> has_document(*final(ts)),
{
    ts.sign().map(|s| Step {
        output: s.output,
        fault_log: s.fault_log.into_iter().map(|f| Fault { node_id: f.node_id.0, kind: match f.kind {
            hbbft::threshold_sign::FaultKind::UnverifiedSignatureShareSender => FaultKind::UnverifiedSignatureShareSender,
            hbbft::threshold_sign::FaultKind::UnexpectedSignatureShare => FaultKind::UnexpectedSignatureShare,
        } }).collect(),
        messages: s.messages.into_iter().map(|m| TargetedMessage { message: m.message, target: match m.target {
            hbbft::Target::All => Target::AllExcept(Vec::new()),
            hbbft::Target::Node(id) => Target::Nodes(vec![id.0]),
        } }).collect(),
    })
}

/// Calls `hbbft::threshold_sign::ThresholdSign::handle_message`: the outcome depends on the
/// instance, the sender and the share alone, and a document that was set stays set.
#[verifier::external_body]
fn handle_share(ts: &mut ThresholdSign<H512>, sender: &NodeId, message: Message) -> (result:
    Result<Step, SignError>)
    requires
        sign_has_keys(*old(ts)),
    ensures
        sign_has_keys(*final(ts)),
        (*final(ts), result_view(result)) == share_handled(*old(ts), *sender, message),
        has_document(*old(ts)) ==> has_document(*final(ts)),
{
    ts.handle_message(&H512(*sender), message).map(|s| Step {
        output: s.output,
        fault_log: s.fault_log.into_iter().map(|f| Fault { node_id: f.node_id.0, kind: match f.kind {
            hbbft::threshold_sign::FaultKind::UnverifiedSignatureShareSender => FaultKind::UnverifiedSignatureShareSender,
            hbbft::threshold_sign::FaultKind::UnexpectedSignatureShare => FaultKind::UnexpectedSignatureShare,
        } }).collect(),
        messages: s.messages.into_iter().map(|m| TargetedMessage { message: m.message, target: match m.target {
            hbbft::Target::All => Target::AllExcept(Vec::new()),
            hbbft::Target::Node(id) => Target::Nodes(vec![id.0]),
        } }).collect(),
    })
}

/// The status of sealing an individual block.
#[derive(Debug)]
pub enum Sealing {
    /// Threshold signature shares are still being collected.
    Ongoing(ThresholdSign<H512>),
    /// The shares have been combined, and the signature is ready to be used as the block's seal.
    Complete(Signature),
}

impl Sealing {
    /// The status after a share has been handled, and what that returns: a complete sealing
    /// stays as it is, an ongoing one goes by the signing algorithm.
    pub open spec fn handled(self, sender: NodeId, message: Message) -> (
        Sealing,
        Result<StepView, SignError>,
    ) {
        match self {
            Sealing::Ongoing(ts) => {
                let (next, result) = share_handled(ts, sender, message);
                (Sealing::Ongoing(next), result)
            },
            Sealing::Complete(_) => (self, Ok(Step::nothing())),
        }
    }

    /// The status after a hash was given for signing, and what that returns: a complete sealing
    /// stays as it is; an ongoing one takes the hash as its document and, if it accepts it, signs.
    pub open spec fn signed(self, hash: Seq<u8>) -> (Sealing, Result<StepView, SignError>) {
        match self {
            Sealing::Ongoing(ts) => match document_set(ts, hash) {
                (unsigned, Ok(())) => {
                    let (next, result) = share_signed(unsigned);
                    (Sealing::Ongoing(next), result)
                },
                (refusing, Err(error)) => (Sealing::Ongoing(refusing), Err(error)),
            },
            Sealing::Complete(_) => (self, Ok(Step::nothing())),
        }
    }

    /// Whether signature shares can be combined.
    pub open spec fn usable(self) -> bool {
        match self {
            Sealing::Ongoing(ts) => sign_has_keys(ts),
            Sealing::Complete(_) => true,
        }
    }

    /// Whether a hash has been accepted for signing, so that another one will be refused.
    pub open spec fn hash_accepted(self) -> bool {
        match self {
            Sealing::Ongoing(ts) => has_document(ts),
            Sealing::Complete(_) => false,
        }
    }

    /// The combined signature, if it is there.
    pub open spec fn seal(self) -> Option<Signature> {
        match self {
            Sealing::Ongoing(_) => None,
            Sealing::Complete(sig) => Some(sig),
        }
    }

    /// Returns a new `Ongoing` state, ready to start collecting signature shares.
    pub fn new(netinfo: NetworkInfo<H512>) -> (sealing: Sealing)
        ensures
            sealing.usable() == has_keys(netinfo),
            sealing == Sealing::Ongoing(fresh_sign(netinfo)),
            forall|hash: Seq<u8>| #[trigger]
                sealing.signed(hash) == {
                    let (next, result) = share_signed(
                        document_set(fresh_sign(netinfo), hash).0,
                    );
                    (Sealing::Ongoing(next), result)
                },
    {
        Sealing::Ongoing(new_threshold_sign(netinfo))
    }

    /// Returns a new `Ongoing` state that can combine shares, or nothing if the network has no keys.
    pub fn try_new(netinfo: NetworkInfo<H512>) -> (sealing: Option<Sealing>)
        ensures
            match sealing {
                Some(s) => {
                    &&& has_keys(netinfo)
                    &&& s == Sealing::Ongoing(fresh_sign(netinfo))
                    &&& s.usable()
                },
                None => !has_keys(netinfo),
            },
    {
        if is_usable(&netinfo) {
            Some(Sealing::new(netinfo))
        } else {
            None
        }
    }

    /// Handles a message containing a signature share.
    pub fn handle_message(&mut self, sender_id: &NodeId, message: Message) -> (result: Result<
        Step,
        SignError,
    >)
        requires
            old(self).usable(),
        ensures
            final(self).usable(),
            (*final(self), result_view(result)) == old(self).handled(*sender_id, message),
            old(self).hash_accepted() ==> final(self).hash_accepted(),
    {
        match self {
            Sealing::Ongoing(ts) => handle_share(ts, sender_id, message),
            Sealing::Complete(_) => Ok(Step::empty()),
        }
    }

    /// Sets the `hash` as the document to be signed, and creates a signature share.
    pub fn sign(&mut self, hash: &[u8]) -> (result: Result<Step, SignError>)
        requires
            old(self).usable(),
        ensures
            final(self).usable(),
            (*final(self), result_view(result)) == old(self).signed(hash@),
            *old(self) is Ongoing ==> final(self).hash_accepted(),
            old(self).hash_accepted() ==> result is Err && *final(self) == *old(self),
    {
        assert(old(self).hash_accepted() ==> document_set(old(self)->Ongoing_0, hash@).1 is Err);
        match self {
            Sealing::Ongoing(ts) => match set_document(ts, hash) {
                Ok(()) => sign_share(ts),
                Err(error) => Err(error),
            },
            Sealing::Complete(_) => Ok(Step::empty()),
        }
    }

    /// Returns the combined signature, if it is ready.
    pub fn signature(&self) -> (sig: Option<&Signature>)
        ensures
            sig == (match self.seal() {
                Some(s) => Some(&s),
                None => None,
            }),
    {
        match self {
            Sealing::Ongoing(_) => None,
            Sealing::Complete(sig) => Some(sig),
        }
    }
}

/// A complete sealing stays complete: no share and no hash changes it any more, and nothing is
/// sent on its account.
pub proof fn law_complete_sealing_stays(
    sig: Signature,
    sender: NodeId,
    message: Message,
    hash: Seq<u8>,
)
    ensures
        Sealing::Complete(sig).handled(sender, message) == (
            Sealing::Complete(sig),
            Ok::<StepView, SignError>(Step::nothing()),
        ),
        Sealing::Complete(sig).signed(hash) == (
            Sealing::Complete(sig),
            Ok::<StepView, SignError>(Step::nothing()),
        ),
        Sealing::Complete(sig).seal() == Some(sig),
{
}

/// The number that a big-endian byte string denotes.
pub open spec fn big_endian(bytes: Seq<u8>) -> nat
    decreases bytes.len(),
{
    if bytes.len() == 0 {
        0
    } else {
        256 * big_endian(bytes.drop_last()) + bytes.last() as nat
    }
}

/// The header length and the payload length that the first byte of an RLP item announces. From
/// 0xb8 on the length of a string, and from 0xf8 on that of a list, has bytes of its own, of
/// which the first is not zero and which denote more than 55.
pub open spec fn rlp_lengths(item: Seq<u8>) -> Option<(int, int)> {
    if item.len() == 0 {
        None
    } else if item[0] <= 0x7f {
        Some((0, 1))
    } else if item[0] <= 0xb7 {
        Some((1, item[0] - 0x80))
    } else if 0xc0 <= item[0] <= 0xf7 {
        Some((1, item[0] - 0xc0))
    } else {
        let digits = if item[0] <= 0xbf {
            item[0] - 0xb7
        } else {
            item[0] - 0xf7
        };
        if item.len() <= digits || item[1] == 0 || big_endian(item.subrange(1, 1 + digits)) <= 55 {
            None
        } else {
            Some((1 + digits, big_endian(item.subrange(1, 1 + digits)) as int))
        }
    }
}

/// The payload of the RLP item at the start of `bytes`, if the item is complete.
pub open spec fn rlp_payload(bytes: Seq<u8>) -> Option<Seq<u8>> {
    match rlp_lengths(bytes) {
        Some((header, payload)) => if header + payload <= bytes.len() {
            Some(bytes.subrange(header, header + payload))
        } else {
            None
        },
        None => None,
    }
}

/// The RLP string that holds a signature: a header of two bytes, then the bytes of the signature.
pub open spec fn rlp_signature(bytes: Seq<u8>) -> Seq<u8> {
    seq![0xb8u8, 0x60u8] + bytes
}

/// The error of `Rlp::data` on bytes that do not start with a complete item.
pub uninterp spec fn rlp_data_error(bytes: Seq<u8>) -> DecoderError;

/// The bytes of a signature, as `Signature::to_bytes` gives them.
pub uninterp spec fn signature_bytes(sig: Signature) -> Seq<u8>;

/// The signature that `Signature::from_bytes` reads, if the bytes are those of one.
pub uninterp spec fn signature_from(bytes: Seq<u8>) -> Option<Signature>;

/// Whether `PublicKey::verify` finds that the signature belongs to the message.
pub uninterp spec fn signature_verifies(key: PublicKey, sig: Signature, message: Seq<u8>) -> bool;

/// Calls `rlp::encode` on the bytes of a signature. A string of 96 bytes is encoded by the byte
/// 0xb8, its length, and the string itself.
#[verifier::external_body]
fn rlp_encode(bytes: Vec<u8>) -> (encoded: Vec<u8>)
    requires
        bytes@.len() == SIGNATURE_SIZE,
    ensures
        encoded@ == rlp_signature(bytes@),
{
    rlp::encode(&bytes)
}

/// Calls `rlp::Rlp::data`: the payload of the item at the start of the bytes, whatever follows
/// it, or an error, which depends on the bytes alone, if there is no complete item.
#[verifier::external_body]
fn rlp_data(bytes: &[u8]) -> (payload: Result<Vec<u8>, DecoderError>)
    ensures
        payload matches Ok(data) ==> rlp_payload(bytes@) == Some(data@),
        payload matches Err(error) ==> rlp_payload(bytes@) is None && error == rlp_data_error(
            bytes@,
        ),
{
    rlp::Rlp::new(bytes).data().map(|data| data.to_vec())
}

/// Calls `hbbft::crypto::Signature::to_bytes`: 96 bytes that depend on the signature alone, and
/// from which `from_bytes` reads the same signature again.
#[verifier::external_body]
fn signature_to_bytes(sig: &Signature) -> (bytes: Vec<u8>)
    ensures
        bytes@ == signature_bytes(*sig),
        bytes@.len() == SIGNATURE_SIZE,
        signature_from(bytes@) == Some(*sig),
{
    sig.to_bytes().to_vec()
}

/// Calls `hbbft::crypto::Signature::from_bytes`: whether there is a signature, and which one,
/// depends on the bytes alone, and `to_bytes` gives the same bytes back.
#[verifier::external_body]
fn signature_from_bytes(bytes: &[u8; 96]) -> (sig: Option<Signature>)
    ensures
        sig == signature_from(bytes@),
        sig matches Some(s) ==> signature_bytes(s) == bytes@,
{
    Signature::from_bytes(bytes).ok()
}

/// Calls `hbbft::crypto::PublicKey::verify`: the answer depends on the key, the signature and the
/// message alone.
#[verifier::external_body]
pub(crate) fn verify_signature(key: &PublicKey, sig: &Signature, message: &[u8]) -> (valid: bool)
    ensures
        valid == signature_verifies(*key, *sig, message@),
{
    key.verify(sig, message)
}

/// Why bytes cannot be decoded into a signature.
#[derive(Debug)]
pub enum SealDecodeError {
    /// The bytes do not start with a complete RLP item.
    Rlp(DecoderError),
    /// The payload of the item is not a signature.
    InvalidSignature,
}

impl SealDecodeError {
    /// What is wrong with a payload. An item that is not complete has the error of the decoder.
    pub fn custom(&self) -> (text: Option<&'static str>)
        ensures
            match (*self, text) {
                (SealDecodeError::Rlp(_), None) => true,
                (SealDecodeError::InvalidSignature, Some(t)) => t@
                    == "RLP bytes don't encode a valid signature"@,
                _ => false,
            },
    {
        match self {
            SealDecodeError::Rlp(_) => None,
            SealDecodeError::InvalidSignature => Some("RLP bytes don't encode a valid signature"),
        }
    }
}

/// The signature that an RLP item holds, for bytes whose payload has the length of a signature.
pub open spec fn decoded_signature(bytes: Seq<u8>) -> Result<Signature, SealDecodeError> {
    match rlp_payload(bytes) {
        None => Err(SealDecodeError::Rlp(rlp_data_error(bytes))),
        Some(data) => match signature_from(data) {
            Some(sig) => Ok(sig),
            None => Err(SealDecodeError::InvalidSignature),
        },
    }
}

/// Whether a payload that the bytes hold has the length of a signature.
pub open spec fn signature_sized(bytes: Seq<u8>) -> bool {
    rlp_payload(bytes) matches Some(data) ==> data.len() == SIGNATURE_SIZE
}

/// Wrapper for `Signature` to simplify RLP encoding and decoding.
#[derive(PartialEq, Debug)]
pub struct RlpSig<T>(pub T);

impl<'a> RlpSig<&'a Signature> {
    /// Encodes the signature as an RLP string.
    pub fn rlp_append(&self) -> (encoded: Vec<u8>)
        ensures
            encoded@ == rlp_signature(signature_bytes(*self.0)),
            rlp_payload(encoded@) == Some(signature_bytes(*self.0)),
            signature_sized(encoded@),
            decoded_signature(encoded@) == Ok::<Signature, SealDecodeError>(*self.0),
    {
        let bytes = signature_to_bytes(self.0);
        let encoded = rlp_encode(bytes);
        proof {
            lemma_rlp_signature_payload(signature_bytes(*self.0));
        }
        encoded
    }
}

impl RlpSig<Signature> {
    /// Decodes a signature from the RLP item at the start of `bytes`.
    pub fn decode(bytes: &[u8]) -> (decoded: Result<RlpSig<Signature>, SealDecodeError>)
        requires
            signature_sized(bytes@),
        ensures
            match decoded {
                Ok(sig) => decoded_signature(bytes@) == Ok::<Signature, SealDecodeError>(sig.0),
                Err(error) => decoded_signature(bytes@) == Err::<Signature, SealDecodeError>(error),
            },
            decoded matches Ok(sig) ==> rlp_payload(bytes@) == Some(signature_bytes(sig.0)),
    {
        match rlp_data(bytes) {
            Err(error) => Err(SealDecodeError::Rlp(error)),
            Ok(data) => {
                let seal_bytes: [u8; 96] = seal_array(&data);
                match signature_from_bytes(&seal_bytes) {
                    Some(sig) => Ok(RlpSig(sig)),
                    None => Err(SealDecodeError::InvalidSignature),
                }
            },
        }
    }
}

/// Whether `bytes` is safe to hand to `RlpSig::decode`.
pub fn is_signature_sized(bytes: &[u8]) -> (sized: bool)
    ensures
        sized == signature_sized(bytes@),
{
    match rlp_data(bytes) {
        Err(_) => true,
        Ok(data) => data.len() == SIGNATURE_SIZE,
    }
}

/// Copies the bytes of a signature into an array.
fn seal_array(data: &Vec<u8>) -> (array: [u8; 96])
    requires
        data@.len() == SIGNATURE_SIZE,
    ensures
        array@ == data@,
{
    let mut array: [u8; 96] = [0u8; 96];
    let mut i: usize = 0;
    while i < 96
        invariant
            i <= 96,
            data@.len() == 96,
            forall|j: int| 0 <= j < i ==> array@[j] == data@[j],
        decreases 96 - i,
    {
        array[i] = data[i];
        i = i + 1;
    }
    assert(array@ =~= data@);
    array
}

/// The payload of the RLP string that holds a signature is the signature.
proof fn lemma_rlp_signature_payload(bytes: Seq<u8>)
    requires
        bytes.len() == SIGNATURE_SIZE,
    ensures
        rlp_payload(rlp_signature(bytes)) == Some(bytes),
{
    let encoded = rlp_signature(bytes);
    let digits = encoded.subrange(1, 2);
    assert(digits =~= seq![0x60u8]);
    assert(digits.drop_last() =~= Seq::<u8>::empty());
    assert(big_endian(digits.drop_last()) == 0);
    assert(big_endian(digits) == 96);
    assert(encoded.subrange(2, 98) =~= bytes);
}

/// A signature comes back from its encoding, which has two bytes before those of the signature.
pub proof fn law_signature_comes_back(
    sig: Signature,
    encoded: Vec<u8>,
    bytes: &[u8],
    decoded: Result<RlpSig<Signature>, SealDecodeError>,
)
    requires
        call_ensures(RlpSig::<&Signature>::rlp_append, (&RlpSig(&sig),), encoded),
        bytes@ == encoded@,
        call_ensures(RlpSig::<Signature>::decode, (bytes,), decoded),
    ensures
        decoded matches Ok(back) && back.0 == sig,
        encoded@ == seq![0xb8u8, 0x60u8] + signature_bytes(sig),
        signature_sized(bytes@),
{
}

/// A signature is decoded exactly from an item that holds the bytes of one. An item that is not
/// complete is told from one that holds other bytes.
pub proof fn law_signature_decoded(
    bytes: &[u8],
    decoded: Result<RlpSig<Signature>, SealDecodeError>,
    sized: bool,
)
    requires
        signature_sized(bytes@),
        call_ensures(RlpSig::<Signature>::decode, (bytes,), decoded),
        call_ensures(is_signature_sized, (bytes,), sized),
    ensures
        sized,
        decoded matches Ok(sig) ==> rlp_payload(bytes@) == Some(signature_bytes(sig.0))
            && signature_from(signature_bytes(sig.0)) == Some(sig.0),
        decoded matches Err(SealDecodeError::Rlp(error)) ==> rlp_payload(bytes@) is None && error
            == rlp_data_error(bytes@),
        decoded matches Err(SealDecodeError::InvalidSignature) ==> (rlp_payload(bytes@) matches Some(
            data,
        ) && signature_from(data) is None),
        rlp_payload(bytes@) matches Some(data) ==> (signature_from(data) is Some
            ==> decoded is Ok),
{
}

/// The size of an item is told for all bytes: only a complete item of another length is refused.
pub proof fn law_signature_size(bytes: &[u8], sized: bool)
    requires
        call_ensures(is_signature_sized, (bytes,), sized),
    ensures
        !sized <==> (rlp_payload(bytes@) matches Some(data) && data.len() != 96),
{
}

/// A byte string is a number in base 256.
pub proof fn law_big_endian(bytes: Seq<u8>, last: u8)
    ensures
        big_endian(Seq::empty()) == 0,
        big_endian(bytes.push(last)) == big_endian(bytes) * 256 + last,
{
    assert(bytes.push(last).drop_last() =~= bytes);
}

/// What an item holds is found behind its header, whatever follows: a byte below 0x80 stands for
/// itself, up to 55 bytes have a header of one byte, and more have their number in the header. Where
/// bytes are missing nothing is found.
pub proof fn law_payload_found(data: Seq<u8>, digits: Seq<u8>, rest: Seq<u8>, kept: int)
    requires
        0 <= kept < data.len(),
    ensures
        rlp_payload(Seq::empty()) is None,
        data[0] <= 0x7f ==> rlp_payload(seq![data[0]] + rest) == Some(seq![data[0]]),
        data.len() <= 55 ==> {
            let short = seq![(0x80 + data.len()) as u8];
            let list = seq![(0xc0 + data.len()) as u8];
            &&& rlp_payload(short + data + rest) == Some(data)
            &&& rlp_payload(list + data + rest) == Some(data)
            &&& rlp_payload(short + data.take(kept)) is None
            &&& rlp_payload(list + data.take(kept)) is None
        },
        data.len() > 55 && 1 <= digits.len() <= 8 && digits[0] != 0 && big_endian(digits)
            == data.len() ==> {
            let long = seq![(0xb7 + digits.len()) as u8];
            let list = seq![(0xf7 + digits.len()) as u8];
            &&& rlp_payload(long + digits + data + rest) == Some(data)
            &&& rlp_payload(list + digits + data + rest) == Some(data)
            &&& rlp_payload(long + digits + data.take(kept)) is None
            &&& rlp_payload(list + digits + data.take(kept)) is None
        },
{
    if data[0] <= 0x7f {
        assert((seq![data[0]] + rest).subrange(0, 1) =~= seq![data[0]]);
    }
    if data.len() <= 55 {
        let short = seq![(0x80 + data.len()) as u8];
        let list = seq![(0xc0 + data.len()) as u8];
        let n = data.len() as int;
        assert((short + data + rest).subrange(1, 1 + n) =~= data);
        assert((list + data + rest).subrange(1, 1 + n) =~= data);
    }
    if data.len() > 55 && 1 <= digits.len() <= 8 && digits[0] != 0 && big_endian(digits)
        == data.len() {
        let k = digits.len() as int;
        let n = data.len() as int;
        let long = seq![(0xb7 + digits.len()) as u8];
        let list = seq![(0xf7 + digits.len()) as u8];
        assert((long + digits + data + rest).subrange(1, 1 + k) =~= digits);
        assert((list + digits + data + rest).subrange(1, 1 + k) =~= digits);
        assert((long + digits + data + rest)[1] == digits[0]);
        assert((list + digits + data + rest)[1] == digits[0]);
        assert((long + digits + data.take(kept)).subrange(1, 1 + k) =~= digits);
        assert((list + digits + data.take(kept)).subrange(1, 1 + k) =~= digits);
        assert((long + digits + data.take(kept))[1] == digits[0]);
        assert((list + digits + data.take(kept))[1] == digits[0]);
        assert((long + digits + data + rest).subrange(1 + k, 1 + k + n) =~= data);
        assert((list + digits + data + rest).subrange(1 + k, 1 + k + n) =~= data);
    }
}

/// Sealing starts with a fresh signing instance of the network, which can be used if that has keys.
pub proof fn law_sealing_started(
    netinfo: NetworkInfo<H512>,
    sealing: Sealing,
    tried: Option<Sealing>,
)
    requires
        call_ensures(Sealing::new, (netinfo,), sealing),
        call_ensures(Sealing::try_new, (netinfo,), tried),
    ensures
        sealing == Sealing::Ongoing(fresh_sign(netinfo)),
        has_keys(netinfo) ==> tried == Some(sealing),
        !has_keys(netinfo) ==> tried is None,
{
}

/// While shares are collected, a share goes to the signing instance, as one of its sender. Once the
/// seal is there, a share changes nothing and leads to nothing.
pub proof fn law_share_collected(
    sealing: &mut Sealing,
    sender: NodeId,
    message: Message,
    result: Result<Step, SignError>,
)
    requires
        old(sealing).usable(),
        call_ensures(Sealing::handle_message, (sealing, &sender, message), result),
    ensures
        match *old(sealing) {
            Sealing::Ongoing(ts) => {
                &&& *final(sealing) == Sealing::Ongoing(share_handled(ts, sender, message).0)
                &&& result_view(result) == share_handled(ts, sender, message).1
            },
            Sealing::Complete(sig) => {
                &&& *final(sealing) == Sealing::Complete(sig)
                &&& result matches Ok(step) && step.output@.len() == 0 && step.messages@.len() == 0
                    && step.fault_log@.len() == 0
            },
        },
{
    if let Ok(step) = result {
        assert(step@.messages.len() == step.messages@.len());
    }
}

/// While shares are collected, the first hash becomes the document of the signing instance, which then
/// signs; it is not changed by another one, which is refused. Once the seal is there, a hash changes
/// nothing and leads to nothing.
pub proof fn law_hash_signed(sealing: &mut Sealing, hash: &[u8], result: Result<Step, SignError>)
    requires
        old(sealing).usable(),
        call_ensures(Sealing::sign, (sealing, hash), result),
    ensures
        match *old(sealing) {
            Sealing::Ongoing(ts) => match document_set(ts, hash@) {
                (unsigned, Ok(())) => {
                    &&& *final(sealing) == Sealing::Ongoing(share_signed(unsigned).0)
                    &&& result_view(result) == share_signed(unsigned).1
                },
                (refusing, Err(error)) => {
                    &&& *final(sealing) == Sealing::Ongoing(refusing)
                    &&& result == Err::<Step, SignError>(error)
                },
            },
            Sealing::Complete(sig) => {
                &&& *final(sealing) == Sealing::Complete(sig)
                &&& result matches Ok(step) && step.output@.len() == 0 && step.messages@.len() == 0
                    && step.fault_log@.len() == 0
            },
        },
{
    if let Ok(step) = result {
        assert(step@.messages.len() == step.messages@.len());
    }
}

/// The seal is there exactly when sealing is complete.
pub proof fn law_seal_there(sealing: Sealing, sig: Option<&Signature>)
    requires
        call_ensures(Sealing::signature, (&sealing,), sig),
    ensures
        match sealing {
            Sealing::Ongoing(_) => sig is None,
            Sealing::Complete(seal) => sig matches Some(s) && *s == seal,
        },
{
}

/// In an empty step nothing happened.
pub proof fn law_empty_step(step: Step)
    requires
        call_ensures(Step::empty, (), step),
    ensures
        step.output@.len() == 0,
        step.fault_log@.len() == 0,
        step.messages@.len() == 0,
{
    assert(step@.messages.len() == step.messages@.len());
}

/// The mathematical value of a step has its signatures, its faults and its messages.
pub proof fn law_step_view(step: Step)
    ensures
        step@.output == step.output@,
        step@.fault_log == step.fault_log@,
        step@.messages.len() == step.messages@.len(),
        forall|i: int|
            0 <= i < step.messages@.len() ==> (#[trigger] step@.messages[i]) == (
                step.messages@[i].target@,
                step.messages@[i].message,
            ),
{
}

/// The mathematical value of a target lists the same nodes.
pub proof fn law_target_view(target: Target)
    ensures
        target matches Target::Nodes(ids) ==> target@ == TargetView::Nodes(ids@),
        target matches Target::AllExcept(ids) ==> target@ == TargetView::AllExcept(ids@),
{
}

/// Only bytes that are not a signature have a text of their own.
pub proof fn law_decode_text(error: SealDecodeError, text: Option<&'static str>)
    requires
        call_ensures(SealDecodeError::custom, (&error,), text),
    ensures
        text is Some <==> error is InvalidSignature,
        text matches Some(t) ==> t@ == "RLP bytes don't encode a valid signature"@,
{
}

/// The outcome of a call is told by its mathematical value.
pub proof fn law_result_view(result: Result<Step, SignError>)
    ensures
        match result {
            Ok(step) => result_view(result) == Ok::<StepView, SignError>(step@),
            Err(error) => result_view(result) == Err::<StepView, SignError>(error),
        },
{
}

/// While shares are collected, only the first hash is signed: another one is refused and changes
/// nothing, however many shares came in between.
pub proof fn law_one_hash_signed(
    before: &mut Sealing,
    first: &[u8],
    signed: Result<Step, SignError>,
    between: &mut Sealing,
    sender: NodeId,
    message: Message,
    handled: Result<Step, SignError>,
    after: &mut Sealing,
    second: &[u8],
    refused: Result<Step, SignError>,
)
    requires
        old(before).usable(),
        *old(before) is Ongoing,
        call_ensures(Sealing::sign, (before, first), signed),
        *final(before) == *old(between),
        call_ensures(Sealing::handle_message, (between, &sender, message), handled),
        *final(between) == *old(after),
        call_ensures(Sealing::sign, (after, second), refused),
    ensures
        refused is Err,
        *final(after) == *old(after),
{
}

} // verus!
