//! The Honey Badger BFT engine: which messages go where, when a block is made, how it is sealed
//! and how its seal is checked.

use vstd::prelude::*;

use crate::batch::Batch;
#[allow(unused_imports)]
use crate::batch::{all_timestamps, all_transactions, is_median, BatchView};
use crate::consensus;
#[allow(unused_imports)]
use crate::consensus::{
    consensus_at, consensus_epoch, consensus_handled, consensus_has_input, consensus_has_keys,
    consensus_may_propose, consensus_received, step_view, HbStepView,
};
use crate::consensus::{
    has_input, new_consensus, next_epoch, propose, received_proposals, Consensus, HbMessage, HbStep,
    LAST_EPOCH,
};
use crate::contribution::Contribution;
#[allow(unused_imports)]
use crate::contribution::{was_made, ContributionView, RANDOM_BYTES_PER_EPOCH};
use crate::hbbft_params::HbbftParams;
use crate::network::{
    all_ids, clone_network_info, new_network_info, num_faulty, our_id, public_master_key,
    HbbftOptions, MasterKey, NetworkSetup,
};
#[allow(unused_imports)]
use crate::network::{
    configured_key, configured_network, has_keys, is_validator, network_faulty, network_ids,
    network_our_id,
};
use crate::sealing::{is_signature_sized, RlpSig, SealDecodeError, Sealing, Step, Target};
#[allow(unused_imports)]
use crate::sealing::{
    decoded_signature, fresh_sign, result_view, rlp_signature, signature_bytes, signature_sized,
    signature_verifies, verify_signature, StepView, TargetView,
};
#[allow(unused_imports)]
use crate::time::is_now_secs;
use crate::time::unix_now_secs;
#[allow(unused_imports)]
use crate::types::byte_strings;
use crate::types::{is_among, same_node, BlockNumber, NodeId, H256};
use ethereum_types::H512;
use hbbft::crypto::PublicKey;
#[allow(unused_imports)]
use hbbft::crypto::Signature;
use hbbft::threshold_sign::Error as SignError;
use hbbft::NetworkInfo;
use std::collections::BTreeMap;

verus! {

/// A message of the sealing process.
pub type SealMessage = hbbft::threshold_sign::Message;

/// The options of the engine.
pub type HoneyBadgerOptions = HbbftParams;

/// A message sent between validators that is part of Honey Badger BFT or the block sealing process.
#[derive(Debug)]
pub enum ConsensusMessage {
    /// A Honey Badger BFT message.
    HoneyBadger(usize, HbMessage),
    /// A threshold signature share. The combined signature is used as the block seal.
    Sealing(BlockNumber, SealMessage),
}

/// A message together with the nodes that it is meant for.
#[derive(Debug)]
pub struct TargetedMessage {
    /// Where the message goes.
    pub target: Target,
    /// The message itself.
    pub message: ConsensusMessage,
}

/// A message together with the nodes that it is sent to.
#[derive(Debug)]
pub struct Dispatch {
    /// The message.
    pub message: ConsensusMessage,
    /// The nodes that get it, in this order.
    pub recipients: Vec<NodeId>,
}

/// Why the engine does not handle a message.
#[derive(Clone, Debug, PartialEq, Eq)]
pub enum EngineError {
    /// No client is registered.
    RequiresClient,
    /// The node does not take part in the consensus.
    InvalidEngine,
    /// The message came from nowhere.
    UnexpectedMessage,
    /// The message cannot be read.
    MalformedMessage(String),
}

/// Why a block is refused.
#[derive(Debug)]
pub enum BlockError {
    /// The seal does not belong to the block.
    InvalidSeal,
    /// The seal cannot be read.
    Decoder(SealDecodeError),
}

/// Whether a block can be sealed.
#[derive(Clone, Copy, Debug, PartialEq, Eq)]
pub enum SealingState {
    /// The seal for the next block is there.
    Ready,
    /// The seal for the next block is not there yet.
    NotReady,
}

/// The seal of a block.
#[derive(Clone, Debug, PartialEq, Eq)]
pub enum Seal {
    /// The seal fields.
    Regular(Vec<Vec<u8>>),
    /// There is no seal.
    Absent,
}

/// What came out of setting up the consensus.
pub enum InitOutcome {
    /// No client is set yet.
    NoClient,
    /// The public key set cannot be read from the configuration.
    UnreadableKeySet,
    /// The public key set of the configuration holds no key.
    NoKeys,
    /// No engine signer is set.
    NoSigner,
    /// The configuration is not that of a validator: the node runs as a regular node.
    RegularNode,
    /// The configuration names no validators.
    NoValidators,
    /// The node takes part in the consensus.
    Validator,
}

/// What came out of creating an instance of the consensus algorithm.
pub enum ConsensusSetup {
    /// The instance.
    Created(Consensus),
    /// Some part of the configuration cannot be read.
    Incomplete,
    /// The configuration can be read, but it names no validators.
    NoValidators,
    /// The configuration can be read and names validators, but its key set holds no key.
    NoKeys,
}

/// What has to be done after a step of the sealing process.
#[derive(Debug)]
pub struct SealActions {
    /// The messages to send.
    pub dispatches: Vec<Dispatch>,
    /// Whether the client has to look at the sealing state again.
    pub update_sealing: bool,
}

/// A block that the client has to put together from what the consensus has agreed on.
#[derive(Debug)]
pub struct PendingBlock {
    /// The serialised transactions, which may be malformed and come more than once.
    pub transactions: Vec<Vec<u8>>,
    /// The time of the block.
    pub timestamp: u64,
    /// The epoch in which the block was agreed on.
    pub epoch: u64,
}

/// What the output of the consensus asks for.
#[derive(Debug)]
pub enum Output {
    /// Nothing was agreed on yet.
    Nothing,
    /// The client has to create a block.
    Block(PendingBlock),
    /// A batch without contributions was agreed on, which has no time.
    NoContributions,
}

/// What has to be done after a step of the consensus, in this order.
#[derive(Debug)]
pub struct StepActions {
    /// The messages to send.
    pub dispatches: Vec<Dispatch>,
    /// What was agreed on.
    pub output: Output,
}

/// What became of a message of the consensus.
#[derive(Debug)]
pub enum HbMessageOutcome {
    /// The message was handled. After the actions, the epoch may have to be joined.
    Handled(StepActions),
    /// The message was refused.
    Refused,
    /// The numbers for epochs or messages are used up.
    OutOfNumbers,
}

/// What became of a contribution of this node.
#[derive(Debug)]
pub enum ContributionOutcome {
    /// The contribution was proposed.
    Proposed(StepActions),
    /// The contribution was refused.
    Refused,
    /// The time is not available.
    NoTime,
    /// The numbers for epochs or messages are used up.
    OutOfNumbers,
}

/// What a client says about the chain.
#[derive(Clone, Copy, Debug, PartialEq, Eq)]
pub struct ChainState {
    /// The number of the latest block, if it is known.
    pub latest_number: Option<BlockNumber>,
    /// The timestamp of the latest block, if it is known.
    pub latest_timestamp: Option<u64>,
    /// How many transactions are queued.
    pub queued_transactions: usize,
}

/// What became of a block that the client was asked for.
#[derive(Debug)]
pub enum BlockOutcome {
    /// The client could not create the block.
    NotCreated,
    /// The block waits for its seal.
    Sealing(SealActions),
    /// No signature share could be created.
    Unsigned(SignError),
}

/// What became of a message of the sealing process.
#[derive(Debug)]
pub enum SealingMessageOutcome {
    /// The block is already there.
    Obsolete,
    /// The share was handled.
    Handled(SealActions),
    /// The share was refused.
    Refused(SignError),
}

/// A message that can be worked on, with its sender.
#[derive(Debug)]
pub enum IncomingMessage {
    /// For `HoneyBadgerBFT::process_hb_message`.
    HoneyBadger(usize, HbMessage, NodeId),
    /// For `HoneyBadgerBFT::process_sealing_message`.
    Sealing(SealMessage, NodeId, BlockNumber),
}

/// Tells all other nodes from the own one.
pub open spec fn is_other(own: NodeId) -> spec_fn(NodeId) -> bool {
    |id: NodeId| id != own
}

/// Tells the other nodes that are not excluded from the rest.
pub open spec fn is_other_except(own: NodeId, excluded: Seq<NodeId>) -> spec_fn(NodeId) -> bool {
    |id: NodeId| id != own && !excluded.contains(id)
}

/// The nodes that a message with the given target is sent to: never the own node, and for an
/// exclusive target all other nodes of the network but the excluded ones.
pub open spec fn recipients_of(target: TargetView, own: NodeId, ids: Seq<NodeId>) -> Seq<NodeId> {
    match target {
        TargetView::Nodes(set) => set.filter(is_other(own)),
        TargetView::AllExcept(set) => ids.filter(is_other_except(own, set)),
    }
}

/// What is sent for the messages of a step.
pub open spec fn dispatch_of(message: TargetedMessage, netinfo: NetworkInfo<H512>) -> (
    ConsensusMessage,
    Seq<NodeId>,
) {
    (
        message.message,
        recipients_of(message.target@, network_our_id(netinfo), network_ids(netinfo)),
    )
}

/// What the dispatches send.
pub open spec fn dispatch_views(dispatches: Seq<Dispatch>) -> Seq<(ConsensusMessage, Seq<NodeId>)> {
    dispatches.map_values(|d: Dispatch| (d.message, d.recipients@))
}

/// The dispatches for the messages of a sealing step.
pub open spec fn seal_dispatches(
    step: StepView,
    block_num: BlockNumber,
    netinfo: NetworkInfo<H512>,
) -> Seq<(ConsensusMessage, Seq<NodeId>)> {
    step.messages.map_values(
        |m: (TargetView, SealMessage)|
            (
                ConsensusMessage::Sealing(block_num, m.1),
                recipients_of(m.0, network_our_id(netinfo), network_ids(netinfo)),
            ),
    )
}

/// The sealing processes after a step: a signature that the step put out completes the sealing.
pub open spec fn sealing_after_step(
    sealing: Map<BlockNumber, Sealing>,
    step: StepView,
    block_num: BlockNumber,
) -> Map<BlockNumber, Sealing> {
    if step.output.len() > 0 {
        sealing.insert(block_num, Sealing::Complete(step.output[0]))
    } else {
        sealing
    }
}

/// What `verify_block_basic` says of the seal fields of a block with the given hash.
pub open spec fn seal_verdict(key: Option<PublicKey>, seal: Seq<Vec<u8>>, hash: H256) -> Result<
    (),
    BlockError,
> {
    if seal.len() != 1 {
        Err(BlockError::InvalidSeal)
    } else {
        match decoded_signature(seal[0]@) {
            Err(error) => Err(BlockError::Decoder(error)),
            Ok(sig) => if signature_verifies(key.unwrap(), sig, hash.0@) {
                Ok(())
            } else {
                Err(BlockError::InvalidSeal)
            },
        }
    }
}

/// The dispatches for the messages of a consensus step, which are numbered.
pub open spec fn step_dispatches(
    messages: Seq<(TargetView, HbMessage)>,
    counter: usize,
    netinfo: NetworkInfo<H512>,
) -> Seq<(ConsensusMessage, Seq<NodeId>)> {
    Seq::new(
        messages.len(),
        |i: int|
            (
                ConsensusMessage::HoneyBadger((counter + 1 + i) as usize, messages[i].1),
                recipients_of(messages[i].0, network_our_id(netinfo), network_ids(netinfo)),
            ),
    )
}

/// Whether this is the block to create for a batch.
pub open spec fn is_block_of(block: PendingBlock, batch: BatchView) -> bool {
    &&& byte_strings(block.transactions@) == all_transactions(batch.contributions)
    &&& is_median(all_timestamps(batch.contributions), block.timestamp)
    &&& block.epoch == batch.epoch
}

/// Whether this is what the batches of a step ask for: only the first one counts.
pub open spec fn is_output_of(output: Output, batches: Seq<BatchView>) -> bool {
    if batches.len() == 0 {
        output is Nothing
    } else if batches[0].contributions.len() == 0 {
        output is NoContributions
    } else {
        output matches Output::Block(block) && is_block_of(block, batches[0])
    }
}

/// Whether this is what has to be done after a step.
pub open spec fn is_actions_of(
    actions: StepActions,
    step: HbStepView,
    counter: usize,
    netinfo: NetworkInfo<H512>,
) -> bool {
    &&& dispatch_views(actions.dispatches@) == step_dispatches(step.messages, counter, netinfo)
    &&& is_output_of(actions.output, step.output)
}

/// The engine. The client and the signer belong to the node that runs it; what they say is handed
/// to the methods.
pub struct HoneyBadgerBFT {
    /// The options from the chain specification.
    pub options: HoneyBadgerOptions,
    /// The network of validators, once it is known.
    pub network_info: Option<NetworkInfo<H512>>,
    /// The consensus algorithm, if the node takes part in it.
    pub honey_badger: Option<Consensus>,
    /// The key that verifies seals, once it is known.
    pub public_master_key: Option<PublicKey>,
    /// The sealing processes, by the number of the block.
    pub sealing: BTreeMap<BlockNumber, Sealing>,
    /// How many consensus messages have been sent.
    pub message_counter: usize,
}

/// Calls `std::collections::BTreeMap::split_off`: what stands at the key and after it is handed
/// out, and what stands before it stays.
#[verifier::external_body]
fn split_off(map: &mut BTreeMap<BlockNumber, Sealing>, key: BlockNumber) -> (tail: BTreeMap<
    BlockNumber,
    Sealing,
>)
    ensures
        tail@ == old(map)@.restrict(Set::new(|k: BlockNumber| k >= key)),
        final(map)@ == old(map)@.restrict(Set::new(|k: BlockNumber| k < key)),
{
    map.split_off(&key)
}

/// The nodes that a message is sent to.
fn recipients(target: &Target, netinfo: &NetworkInfo<H512>) -> (nodes: Vec<NodeId>)
    ensures
        nodes@ == recipients_of(target@, network_our_id(*netinfo), network_ids(*netinfo)),
        network_ids(*netinfo).no_duplicates(),
{
    let own = our_id(netinfo);
    let ids = all_ids(netinfo);
    let mut nodes: Vec<NodeId> = Vec::new();
    let mut i: usize = 0;
    match target {
        Target::Nodes(set) => {
            let ghost keep = is_other(own);
            assert(set@.take(0).filter(keep) =~= Seq::<NodeId>::empty()) by {
                reveal(Seq::filter);
            }
            while i < set.len()
                invariant
                    i <= set@.len(),
                    keep == is_other(own),
                    nodes@ == set@.take(i as int).filter(keep),
                decreases set.len() - i,
            {
                proof {
                    reveal(Seq::filter);
                    assert(set@.take(i + 1).drop_last() =~= set@.take(i as int));
                }
                if !same_node(&set[i], &own) {
                    nodes.push(set[i]);
                }
                i = i + 1;
            }
            assert(set@.take(i as int) =~= set@);
        },
        Target::AllExcept(set) => {
            let ghost keep = is_other_except(own, set@);
            assert(ids@.take(0).filter(keep) =~= Seq::<NodeId>::empty()) by {
                reveal(Seq::filter);
            }
            while i < ids.len()
                invariant
                    i <= ids@.len(),
                    keep == is_other_except(own, set@),
                    nodes@ == ids@.take(i as int).filter(keep),
                decreases ids.len() - i,
            {
                proof {
                    reveal(Seq::filter);
                    assert(ids@.take(i + 1).drop_last() =~= ids@.take(i as int));
                }
                if !same_node(&ids[i], &own) && !is_among(&ids[i], set) {
                    nodes.push(ids[i]);
                }
                i = i + 1;
            }
            assert(ids@.take(i as int) =~= ids@);
        },
    }
    nodes
}

impl HoneyBadgerBFT {
    /// The consensus algorithm and the sealing processes only run when the network is known, and all
    /// of them have keys.
    pub open spec fn well_formed(self) -> bool {
        &&& self.network_info is None ==> {
            &&& self.sealing@ == Map::<BlockNumber, Sealing>::empty()
            &&& self.honey_badger is None
        }
        &&& self.network_info matches Some(netinfo) ==> has_keys(netinfo)
        &&& self.honey_badger matches Some(consensus) ==> consensus_has_keys(consensus)
        &&& forall|number: BlockNumber|
            self.sealing@.contains_key(number) ==> (#[trigger] self.sealing@[number]).usable()
    }

    /// The sealing process of a block, which is a fresh one if none has been started.
    pub open spec fn sealing_of(self, block_num: BlockNumber) -> Sealing {
        if self.sealing@.contains_key(block_num) {
            self.sealing@[block_num]
        } else {
            Sealing::Ongoing(fresh_sign(self.network_info.unwrap()))
        }
    }

    /// Whether only the sealing processes may differ.
    pub open spec fn same_but_sealing(self, other: HoneyBadgerBFT) -> bool {
        &&& self.options == other.options
        &&& self.network_info == other.network_info
        &&& self.honey_badger == other.honey_badger
        &&& self.public_master_key == other.public_master_key
        &&& self.message_counter == other.message_counter
    }

    /// Whether only the consensus algorithm and the message counter may differ.
    pub open spec fn same_but_consensus(self, other: HoneyBadgerBFT) -> bool {
        &&& self.options == other.options
        &&& self.network_info == other.network_info
        &&& self.public_master_key == other.public_master_key
        &&& self.sealing@ == other.sealing@
    }

    /// Whether the consensus algorithm is in an epoch whose block is known already.
    pub open spec fn is_late(self, latest: Option<BlockNumber>) -> bool {
        (self.honey_badger, latest) matches (Some(consensus), Some(number)) && consensus_epoch(
            consensus,
        ) <= number
    }

    /// The consensus algorithm in the current epoch, which is that of the block after the latest
    /// one. An algorithm that is there already, or further on, stays as it is.
    pub open spec fn in_current_epoch(self, latest: Option<BlockNumber>) -> Option<Consensus> {
        match (self.honey_badger, latest) {
            (Some(consensus), Some(number)) if consensus_epoch(consensus) <= number => Some(
                consensus_at(self.network_info.unwrap(), (number + 1) as u64),
            ),
            _ => self.honey_badger,
        }
    }

    /// Creates an engine that knows nothing but its options.
    pub fn new(options: HoneyBadgerOptions) -> (engine: HoneyBadgerBFT)
        ensures
            engine.options == options,
            engine.network_info is None,
            engine.honey_badger is None,
            engine.public_master_key is None,
            engine.sealing@ == Map::<BlockNumber, Sealing>::empty(),
            engine.message_counter == 0,
            engine.well_formed(),
    {
        HoneyBadgerBFT {
            options,
            network_info: None,
            honey_badger: None,
            public_master_key: None,
            sealing: BTreeMap::new(),
            message_counter: 0,
        }
    }

    /// Whether the engine runs a timer. Unit tests do without.
    pub fn uses_timer(&self) -> (uses: bool)
        ensures
            uses == (self.options.is_unit_test != Some(true)),
    {
        match self.options.is_unit_test {
            Some(unit_test) => !unit_test,
            None => true,
        }
    }

    /// Sends the messages to all nodes that they are meant for, but not to this one, and to none of
    /// the network twice.
    pub fn dispatch_messages(&self, messages: Vec<TargetedMessage>) -> (dispatches: Vec<Dispatch>)
        requires
            messages@.len() > 0 ==> self.network_info is Some,
        ensures
            dispatch_views(dispatches@) == messages@.map_values(
                |m: TargetedMessage| dispatch_of(m, self.network_info.unwrap()),
            ),
            messages@.len() > 0 ==> network_ids(self.network_info.unwrap()).no_duplicates(),
    {
        let mut dispatches: Vec<Dispatch> = Vec::new();
        match &self.network_info {
            None => {},
            Some(netinfo) => {
                for m in iter: messages
                    invariant
                        iter.seq() == messages@,
                        dispatches@.len() == iter.index(),
                        forall|j: int|
                            0 <= j < iter.index() ==> (
                            #[trigger] dispatches@[j].message,
                            dispatches@[j].recipients@,
                        ) == dispatch_of(messages@[j], *netinfo),
                        iter.index() > 0 ==> network_ids(*netinfo).no_duplicates(),
                {
                    let nodes = recipients(&m.target, netinfo);
                    dispatches.push(Dispatch { message: m.message, recipients: nodes });
                }
            },
        }
        assert(dispatch_views(dispatches@) =~= messages@.map_values(
            |m: TargetedMessage| dispatch_of(m, self.network_info.unwrap()),
        ));
        dispatches
    }

    /// Numbers the messages of a consensus step, sends them, and processes the output.
    pub fn process_step(&mut self, step: HbStep) -> (actions: StepActions)
        requires
            step.messages@.len() > 0 ==> old(self).network_info is Some,
            old(self).message_counter + step.messages@.len() <= usize::MAX,
        ensures
            final(self).same_but_consensus(*old(self)),
            final(self).honey_badger == old(self).honey_badger,
            final(self).message_counter == old(self).message_counter + step.messages@.len(),
            is_actions_of(
                actions,
                step@,
                old(self).message_counter,
                old(self).network_info.unwrap(),
            ),
    {
        let HbStep { output, messages } = step;
        let mut numbered: Vec<TargetedMessage> = Vec::new();
        let ghost start = self.message_counter;
        for m in iter: messages
            invariant
                iter.seq() == messages@,
                start + messages@.len() <= usize::MAX,
                start == old(self).message_counter,
                self.message_counter == start + iter.index(),
                self.same_but_consensus(*old(self)),
                self.honey_badger == old(self).honey_badger,
                numbered@.len() == iter.index(),
                forall|j: int|
                    0 <= j < iter.index() ==> (#[trigger] numbered@[j]).target == messages@[j].0
                        && numbered@[j].message == ConsensusMessage::HoneyBadger(
                        (start + 1 + j) as usize,
                        messages@[j].1,
                    ),
        {
            self.message_counter = self.message_counter + 1;
            numbered.push(
                TargetedMessage {
                    target: m.0,
                    message: ConsensusMessage::HoneyBadger(self.message_counter, m.1),
                },
            );
        }
        let dispatches = self.dispatch_messages(numbered);
        assert(dispatch_views(dispatches@) =~= step_dispatches(
            step@.messages,
            start,
            self.network_info.unwrap(),
        ));
        assert(output@.len() == step@.output.len());
        assert(output@.len() > 0 ==> output@[0]@ == step@.output[0]);
        let output = if output.len() > 0 && output[0].contributions.len() == 0 {
            Output::NoContributions
        } else {
            match HoneyBadgerBFT::process_output(output) {
                Some(block) => Output::Block(block),
                None => Output::Nothing,
            }
        };
        StepActions { dispatches, output }
    }

    /// Sends the messages of a sealing step, and keeps the signature that it put out, if any.
    pub fn process_seal_step(&mut self, step: Step, block_num: BlockNumber) -> (actions: SealActions)
        requires
            old(self).network_info is Some,
        ensures
            final(self).same_but_sealing(*old(self)),
            final(self).sealing@ == sealing_after_step(old(self).sealing@, step@, block_num),
            dispatch_views(actions.dispatches@) == seal_dispatches(
                step@,
                block_num,
                old(self).network_info.unwrap(),
            ),
            actions.update_sealing == (step.output@.len() > 0),
    {
        let Step { output, fault_log: _, messages } = step;
        let mut targeted: Vec<TargetedMessage> = Vec::new();
        for m in iter: messages
            invariant
                iter.seq() == messages@,
                targeted@.len() == iter.index(),
                forall|j: int|
                    0 <= j < iter.index() ==> (#[trigger] targeted@[j]).target
                        == messages@[j].target && targeted@[j].message == ConsensusMessage::Sealing(
                        block_num,
                        messages@[j].message,
                    ),
        {
            targeted.push(
                TargetedMessage {
                    target: m.target,
                    message: ConsensusMessage::Sealing(block_num, m.message),
                },
            );
        }
        let ghost sent = targeted@;
        let dispatches = self.dispatch_messages(targeted);
        assert(dispatch_views(dispatches@) =~= seal_dispatches(
            step@,
            block_num,
            self.network_info.unwrap(),
        ));
        let mut output = output;
        let update_sealing: bool = output.len() > 0;
        if update_sealing {
            let sig = output.swap_remove(0);
            self.sealing.insert(block_num, Sealing::Complete(sig));
        }
        SealActions { dispatches, update_sealing }
    }

    /// Takes the sealing process of a block out of the map, or starts a new one.
    fn take_sealing(&mut self, block_num: BlockNumber) -> (sealing: Sealing)
        requires
            old(self).well_formed(),
            old(self).network_info is Some,
        ensures
            sealing == old(self).sealing_of(block_num),
            sealing.usable(),
            final(self).well_formed(),
            final(self).same_but_sealing(*old(self)),
            final(self).sealing@ == old(self).sealing@.remove(block_num),
    {
        match self.sealing.remove(&block_num) {
            Some(sealing) => sealing,
            None => {
                assert(self.sealing@ =~= old(self).sealing@.remove(block_num));
                self.new_sealing()
            },
        }
    }

    /// A new sealing process for the network of this node.
    pub fn new_sealing(&self) -> (sealing: Sealing)
        requires
            self.well_formed(),
            self.network_info is Some,
        ensures
            sealing == Sealing::Ongoing(fresh_sign(self.network_info.unwrap())),
            sealing.usable(),
    {
        match &self.network_info {
            Some(netinfo) => Sealing::new(clone_network_info(netinfo)),
            None => vstd::pervasive::unreached(),
        }
    }

    /// Creates the signature share for a block that was just put together.
    fn sign_block(&mut self, block_num: BlockNumber, hash: &H256) -> (result: Result<
        SealActions,
        SignError,
    >)
        requires
            old(self).well_formed(),
            old(self).network_info is Some,
        ensures
            final(self).same_but_sealing(*old(self)),
            final(self).well_formed(),
            ({
                let (next, outcome) = old(self).sealing_of(block_num).signed(hash.0@);
                let sealing = old(self).sealing@.insert(block_num, next);
                match (outcome, result) {
                    (Ok(step), Ok(actions)) => {
                        &&& final(self).sealing@ == sealing_after_step(sealing, step, block_num)
                        &&& dispatch_views(actions.dispatches@) == seal_dispatches(
                            step,
                            block_num,
                            old(self).network_info.unwrap(),
                        )
                        &&& actions.update_sealing == (step.output.len() > 0)
                    },
                    (Err(expected), Err(error)) => {
                        &&& final(self).sealing@ == sealing
                        &&& error == expected
                    },
                    _ => false,
                }
            }),
    {
        let mut sealing = self.take_sealing(block_num);
        let result = sealing.sign(hash.0.as_slice());
        self.sealing.insert(block_num, sealing);
        assert(self.sealing@ =~= old(self).sealing@.insert(block_num, sealing));
        match result {
            Ok(step) => Ok(self.process_seal_step(step, block_num)),
            Err(error) => Err(error),
        }
    }

    /// The block to put together from the output of the consensus. Only the first batch is used,
    /// and without a batch there is no block.
    pub fn process_output(output: Vec<Batch>) -> (pending: Option<PendingBlock>)
        requires
            output@.len() > 0 ==> output@[0].contributions@.len() > 0,
        ensures
            output@.len() == 0 <==> pending is None,
            pending matches Some(block) ==> is_block_of(block, output@[0]@),
    {
        match Batch::first(output) {
            None => None,
            Some(batch) => Some(
                PendingBlock {
                    transactions: batch.serialized_transactions(),
                    timestamp: batch.timestamp(),
                    epoch: batch.epoch,
                },
            ),
        }
    }

    /// Signs the block that the client has created, if it did.
    pub fn block_created(&mut self, block: Option<(BlockNumber, H256)>) -> (outcome: BlockOutcome)
        requires
            old(self).well_formed(),
            block is Some ==> old(self).network_info is Some,
        ensures
            final(self).same_but_sealing(*old(self)),
            final(self).well_formed(),
            match block {
                None => outcome is NotCreated && final(self).sealing@ == old(self).sealing@,
                Some((number, hash)) => {
                    let (next, result) = old(self).sealing_of(number).signed(hash.0@);
                    let sealing = old(self).sealing@.insert(number, next);
                    match (result, outcome) {
                        (Ok(step), BlockOutcome::Sealing(actions)) => {
                            &&& final(self).sealing@ == sealing_after_step(sealing, step, number)
                            &&& dispatch_views(actions.dispatches@) == seal_dispatches(
                                step,
                                number,
                                old(self).network_info.unwrap(),
                            )
                            &&& actions.update_sealing == (step.output.len() > 0)
                        },
                        (Err(expected), BlockOutcome::Unsigned(error)) => {
                            &&& final(self).sealing@ == sealing
                            &&& error == expected
                        },
                        _ => false,
                    }
                },
            },
    {
        match block {
            None => BlockOutcome::NotCreated,
            Some((number, hash)) => match self.sign_block(number, &hash) {
                Ok(actions) => BlockOutcome::Sealing(actions),
                Err(error) => BlockOutcome::Unsigned(error),
            },
        }
    }

    /// Handles a signature share for a block from another node. `client` is there if a client is
    /// registered, and then holds the number of the latest block, if that is known.
    pub fn process_sealing_message(
        &mut self,
        client: Option<Option<BlockNumber>>,
        message: SealMessage,
        sender_id: NodeId,
        block_num: BlockNumber,
    ) -> (result: Result<SealingMessageOutcome, EngineError>)
        requires
            old(self).well_formed(),
            client is None || (client matches Some(Some(latest)) && latest >= block_num) || old(
                self,
            ).network_info is Some,
        ensures
            final(self).same_but_sealing(*old(self)),
            final(self).well_formed(),
            match client {
                None => result == Err::<SealingMessageOutcome, EngineError>(
                    EngineError::RequiresClient,
                ) && final(self).sealing@ == old(self).sealing@,
                Some(latest) => if latest matches Some(number) && number >= block_num {
                    &&& result matches Ok(SealingMessageOutcome::Obsolete)
                    &&& final(self).sealing@ == old(self).sealing@
                } else {
                    let (next, outcome) = old(self).sealing_of(block_num).handled(
                        sender_id,
                        message,
                    );
                    let sealing = old(self).sealing@.insert(block_num, next);
                    match (outcome, result) {
                        (Ok(step), Ok(SealingMessageOutcome::Handled(actions))) => {
                            &&& final(self).sealing@ == sealing_after_step(
                                sealing,
                                step,
                                block_num,
                            )
                            &&& dispatch_views(actions.dispatches@) == seal_dispatches(
                                step,
                                block_num,
                                old(self).network_info.unwrap(),
                            )
                            &&& actions.update_sealing == (step.output.len() > 0)
                        },
                        (Err(expected), Ok(SealingMessageOutcome::Refused(error))) => {
                            &&& final(self).sealing@ == sealing
                            &&& error == expected
                        },
                        _ => false,
                    }
                },
            },
    {
        let latest = match client {
            Some(latest) => latest,
            None => return Err(EngineError::RequiresClient),
        };
        if let Some(number) = latest {
            if number >= block_num {
                return Ok(SealingMessageOutcome::Obsolete);
            }
        }
        let mut sealing = self.take_sealing(block_num);
        let result = sealing.handle_message(&sender_id, message);
        self.sealing.insert(block_num, sealing);
        assert(self.sealing@ =~= old(self).sealing@.insert(block_num, sealing));
        match result {
            Ok(step) => Ok(
                SealingMessageOutcome::Handled(self.process_seal_step(step, block_num)),
            ),
            Err(error) => Ok(SealingMessageOutcome::Refused(error)),
        }
    }

    /// Drops the sealing processes of blocks that are already there, and says whether the next
    /// block can be sealed. `client` is there if a client is registered, and then holds the number
    /// of the latest block, if that is known.
    pub fn sealing_state(&mut self, client: Option<Option<BlockNumber>>) -> (state: SealingState)
        requires
            old(self).well_formed(),
            client matches Some(Some(latest)) ==> latest < u64::MAX,
        ensures
            final(self).same_but_sealing(*old(self)),
            final(self).well_formed(),
            match client {
                Some(Some(latest)) => {
                    let next = (latest + 1) as u64;
                    &&& final(self).sealing@ == old(self).sealing@.restrict(
                        Set::new(|number: BlockNumber| number > latest),
                    )
                    &&& state is Ready <==> old(self).sealing@.contains_key(next) && old(
                        self,
                    ).sealing@[next].seal() is Some
                },
                _ => state is NotReady && final(self).sealing@ == old(self).sealing@,
            },
    {
        let next_block: BlockNumber = match client {
            Some(Some(latest)) => latest + 1,
            _ => return SealingState::NotReady,
        };
        let kept = split_off(&mut self.sealing, next_block);
        self.sealing = kept;
        assert(self.sealing@ =~= old(self).sealing@.restrict(
            Set::new(|number: BlockNumber| number > next_block - 1),
        ));
        assert(self.network_info is None ==> self.sealing@ =~= Map::<
            BlockNumber,
            Sealing,
        >::empty());
        // We are ready to seal if we have a valid signature for the next block.
        if let Some(next_seal) = self.sealing.get(&next_block) {
            if next_seal.signature().is_some() {
                return SealingState::Ready;
            }
        }
        SealingState::NotReady
    }

    /// The seal for a block, if its signature is there and belongs to the block. Every node with
    /// the same master key accepts the seal.
    pub fn generate_seal(&self, block_num: BlockNumber, bare_hash: &H256) -> (seal: Seal)
        requires
            self.sealing@.contains_key(block_num) && self.sealing@[block_num] is Complete
                ==> self.public_master_key is Some,
        ensures
            match seal {
                Seal::Regular(fields) => {
                    &&& self.sealing@.contains_key(block_num)
                    &&& self.sealing@[block_num].seal() matches Some(sig)
                    &&& signature_verifies(self.public_master_key.unwrap(), sig, bare_hash.0@)
                    &&& fields@.len() == 1
                    &&& fields@[0]@ == rlp_signature(signature_bytes(sig))
                    &&& signature_sized(fields@[0]@)
                    &&& decoded_signature(fields@[0]@) == Ok::<Signature, SealDecodeError>(sig)
                    &&& seal_verdict(self.public_master_key, fields@, *bare_hash) is Ok
                },
                Seal::Absent => !self.sealing@.contains_key(block_num) || match self.sealing@[block_num].seal() {
                    None => true,
                    Some(sig) => !signature_verifies(
                        self.public_master_key.unwrap(),
                        sig,
                        bare_hash.0@,
                    ),
                },
            },
    {
        let sealing = match self.sealing.get(&block_num) {
            Some(sealing) => sealing,
            None => return Seal::Absent,
        };
        let sig = match sealing.signature() {
            Some(sig) => sig,
            None => return Seal::Absent,
        };
        match &self.public_master_key {
            Some(key) => {
                if !verify_signature(key, sig, bare_hash.0.as_slice()) {
                    return Seal::Absent;
                }
                let encoded = RlpSig(sig).rlp_append();
                let mut fields: Vec<Vec<u8>> = Vec::new();
                fields.push(encoded);
                Seal::Regular(fields)
            },
            None => Seal::Absent,
        }
    }

    /// Checks that the only seal field of a block is a signature of its hash.
    pub fn verify_block_basic(&self, seal: &Vec<Vec<u8>>, bare_hash: &H256) -> (verdict: Result<
        (),
        BlockError,
    >)
        requires
            seal@.len() == 1 ==> signature_sized(seal@[0]@),
            seal@.len() == 1 && decoded_signature(seal@[0]@) is Ok
                ==> self.public_master_key is Some,
        ensures
            verdict == seal_verdict(self.public_master_key, seal@, *bare_hash),
    {
        if seal.len() != 1 {
            return Err(BlockError::InvalidSeal);
        }
        match RlpSig::decode(seal[0].as_slice()) {
            Err(error) => Err(BlockError::Decoder(error)),
            Ok(RlpSig(sig)) => match &self.public_master_key {
                Some(key) => if verify_signature(key, &sig, bare_hash.0.as_slice()) {
                    Ok(())
                } else {
                    Err(BlockError::InvalidSeal)
                },
                None => Err(BlockError::InvalidSeal),
            },
        }
    }

    /// Checks that the only seal field of a block is a signature of its hash. There is no verdict if
    /// the field does not have the length of a signature, or if it holds a signature but the key is
    /// not known.
    pub fn try_verify_block_basic(&self, seal: &Vec<Vec<u8>>, bare_hash: &H256) -> (verdict: Option<
        Result<(), BlockError>,
    >)
        ensures
            match verdict {
                Some(v) => v == seal_verdict(self.public_master_key, seal@, *bare_hash),
                None => {
                    &&& seal@.len() == 1
                    &&& signature_sized(seal@[0]@) ==> decoded_signature(seal@[0]@) is Ok
                        && self.public_master_key is None
                },
            },
            seal@.len() == 1 && signature_sized(seal@[0]@) && (decoded_signature(seal@[0]@) is Err
                || self.public_master_key is Some) ==> verdict is Some,
    {
        if seal.len() == 1 {
            if !is_signature_sized(seal[0].as_slice()) {
                return None;
            }
            if self.public_master_key.is_none() && RlpSig::decode(seal[0].as_slice()).is_ok() {
                return None;
            }
        }
        Some(self.verify_block_basic(seal, bare_hash))
    }

    /// Creates an instance of the consensus algorithm for the configured network, and remembers the
    /// network.
    pub fn new_honey_badger(&mut self, options: &HbbftOptions, our_id: NodeId) -> (setup:
        ConsensusSetup)
        ensures
            final(self).options == old(self).options,
            final(self).honey_badger == old(self).honey_badger,
            final(self).public_master_key == old(self).public_master_key,
            final(self).sealing@ == old(self).sealing@,
            final(self).message_counter == old(self).message_counter,
            match configured_network(*options, our_id) {
                NetworkSetup::Ready(netinfo) => {
                    &&& final(self).network_info == Some(netinfo)
                    &&& setup == ConsensusSetup::Created(consensus_at(netinfo, 0))
                },
                NetworkSetup::Incomplete => {
                    &&& final(self).network_info == old(self).network_info
                    &&& setup is Incomplete
                },
                NetworkSetup::NoValidators => {
                    &&& final(self).network_info == old(self).network_info
                    &&& setup is NoValidators
                },
                NetworkSetup::NoKeys => {
                    &&& final(self).network_info == old(self).network_info
                    &&& setup is NoKeys
                },
            },
            setup matches ConsensusSetup::Created(consensus) ==> {
                &&& final(self).network_info matches Some(netinfo) && has_keys(netinfo)
                    && consensus_has_input(consensus) == !is_validator(netinfo)
                &&& consensus_has_keys(consensus)
                &&& consensus_epoch(consensus) == 0
                &&& consensus_received(consensus) == 0
            },
    {
        match new_network_info(options, our_id) {
            NetworkSetup::Ready(netinfo) => {
                self.network_info = Some(clone_network_info(&netinfo));
                ConsensusSetup::Created(new_consensus(netinfo, 0))
            },
            NetworkSetup::Incomplete => ConsensusSetup::Incomplete,
            NetworkSetup::NoValidators => ConsensusSetup::NoValidators,
            NetworkSetup::NoKeys => ConsensusSetup::NoKeys,
        }
    }

    /// Sets up the keys, the network and the consensus algorithm from the configuration of the
    /// client and the id that the signer gives this node.
    pub fn try_init_honey_badger(
        &mut self,
        client: Option<&HbbftOptions>,
        signer: Option<NodeId>,
    ) -> (outcome: InitOutcome)
        requires
            old(self).well_formed(),
        ensures
            final(self).well_formed(),
            final(self).options == old(self).options,
            final(self).sealing@ == old(self).sealing@,
            final(self).message_counter == old(self).message_counter,
            final(self).public_master_key == (match client {
                Some(options) => match configured_key(*options) {
                    MasterKey::Key(key) => Some(key),
                    _ => old(self).public_master_key,
                },
                None => old(self).public_master_key,
            }),
            outcome == (match client {
                None => InitOutcome::NoClient,
                Some(options) => match configured_key(*options) {
                    MasterKey::Unreadable => InitOutcome::UnreadableKeySet,
                    MasterKey::NoKeys => InitOutcome::NoKeys,
                    MasterKey::Key(_) => match signer {
                        None => InitOutcome::NoSigner,
                        Some(id) => match configured_network(*options, id) {
                            NetworkSetup::Ready(_) => InitOutcome::Validator,
                            NetworkSetup::Incomplete => InitOutcome::RegularNode,
                            NetworkSetup::NoValidators => InitOutcome::NoValidators,
                            NetworkSetup::NoKeys => InitOutcome::NoKeys,
                        },
                    },
                },
            }),
            if outcome is Validator {
                let netinfo = configured_network(*client.unwrap(), signer.unwrap())->Ready_0;
                &&& final(self).network_info == Some(netinfo)
                &&& final(self).honey_badger == Some(consensus_at(netinfo, 0))
            } else {
                &&& final(self).network_info == old(self).network_info
                &&& final(self).honey_badger == old(self).honey_badger
            },
    {
        let options = match client {
            Some(options) => options,
            None => return InitOutcome::NoClient,
        };
        match public_master_key(options) {
            MasterKey::Key(key) => {
                self.public_master_key = Some(key);
            },
            MasterKey::Unreadable => return InitOutcome::UnreadableKeySet,
            MasterKey::NoKeys => return InitOutcome::NoKeys,
        }
        let our_id = match signer {
            Some(id) => id,
            None => return InitOutcome::NoSigner,
        };
        match self.new_honey_badger(options, our_id) {
            ConsensusSetup::Created(honey_badger) => {
                self.honey_badger = Some(honey_badger);
                InitOutcome::Validator
            },
            ConsensusSetup::Incomplete => InitOutcome::RegularNode,
            ConsensusSetup::NoValidators => InitOutcome::NoValidators,
            ConsensusSetup::NoKeys => InitOutcome::NoKeys,
        }
    }

    /// Reads who sent a message, and tells the two kinds of messages apart. `parsed` is the message,
    /// if its bytes can be read.
    pub fn handle_message(node_id: Option<NodeId>, parsed: Option<ConsensusMessage>) -> (result: Result<
        IncomingMessage,
        EngineError,
    >)
        ensures
            match (node_id, parsed) {
                (None, _) => result matches Err(EngineError::UnexpectedMessage),
                (Some(_), None) => result matches Err(EngineError::MalformedMessage(text))
                    && text@ == "Serde decoding failed."@,
                (Some(id), Some(ConsensusMessage::HoneyBadger(idx, message))) => result == Ok::<
                    IncomingMessage,
                    EngineError,
                >(IncomingMessage::HoneyBadger(idx, message, id)),
                (Some(id), Some(ConsensusMessage::Sealing(block_num, message))) => result == Ok::<
                    IncomingMessage,
                    EngineError,
                >(IncomingMessage::Sealing(message, id, block_num)),
            },
    {
        let id = match node_id {
            Some(id) => id,
            None => return Err(EngineError::UnexpectedMessage),
        };
        match parsed {
            Some(ConsensusMessage::HoneyBadger(idx, message)) => Ok(
                IncomingMessage::HoneyBadger(idx, message, id),
            ),
            Some(ConsensusMessage::Sealing(block_num, message)) => Ok(
                IncomingMessage::Sealing(message, id, block_num),
            ),
            None => Err(EngineError::MalformedMessage("Serde decoding failed.".to_owned())),
        }
    }

    /// Handles a consensus message from another node, in the current epoch. `client` is there if a
    /// client is registered, and then holds the number of the latest block, if that is known.
    pub fn process_hb_message(
        &mut self,
        client: Option<Option<BlockNumber>>,
        message: HbMessage,
        sender_id: NodeId,
    ) -> (result: Result<HbMessageOutcome, EngineError>)
        requires
            old(self).well_formed(),
            client matches Some(Some(latest)) ==> latest < LAST_EPOCH,
        ensures
            final(self).same_but_consensus(*old(self)),
            final(self).well_formed(),
            match (client, old(self).honey_badger) {
                (None, _) => {
                    &&& result == Err::<HbMessageOutcome, EngineError>(EngineError::RequiresClient)
                    &&& final(self).honey_badger == old(self).honey_badger
                    &&& final(self).message_counter == old(self).message_counter
                },
                (Some(_), None) => {
                    &&& result == Err::<HbMessageOutcome, EngineError>(EngineError::InvalidEngine)
                    &&& final(self).honey_badger == old(self).honey_badger
                    &&& final(self).message_counter == old(self).message_counter
                },
                (Some(latest), Some(_)) => old(self).handles_hb_message(
                    *final(self),
                    old(self).in_current_epoch(latest).unwrap(),
                    message,
                    sender_id,
                    result,
                ),
            },
    {
        let latest = match client {
            Some(latest) => latest,
            None => return Err(EngineError::RequiresClient),
        };
        if self.honey_badger.is_none() {
            return Err(EngineError::InvalidEngine);
        }
        self.skip_to_current_epoch(latest);
        let mut consensus = match self.honey_badger.take() {
            Some(consensus) => consensus,
            None => vstd::pervasive::unreached(),
        };
        if next_epoch(&consensus) > LAST_EPOCH {
            self.honey_badger = Some(consensus);
            return Ok(HbMessageOutcome::OutOfNumbers);
        }
        let handled = consensus::handle_message(&mut consensus, &sender_id, message);
        self.honey_badger = Some(consensus);
        match handled {
            Some(step) => {
                if step.messages.len() > usize::MAX - self.message_counter {
                    return Ok(HbMessageOutcome::OutOfNumbers);
                }
                Ok(HbMessageOutcome::Handled(self.process_step(step)))
            },
            None => Ok(HbMessageOutcome::Refused),
        }
    }

    /// Whether this is what comes of a message, and what the engine becomes, when the consensus
    /// algorithm handles the message in its current epoch.
    pub open spec fn handles_hb_message(
        self,
        next: HoneyBadgerBFT,
        consensus: Consensus,
        message: HbMessage,
        sender_id: NodeId,
        result: Result<HbMessageOutcome, EngineError>,
    ) -> bool {
        if consensus_epoch(consensus) > LAST_EPOCH {
            &&& result matches Ok(HbMessageOutcome::OutOfNumbers)
            &&& next.honey_badger == Some(consensus)
            &&& next.message_counter == self.message_counter
        } else {
            let (handled, outcome) = consensus_handled(consensus, sender_id, message);
            &&& next.honey_badger == Some(handled)
            &&& match outcome {
                None => {
                    &&& result matches Ok(HbMessageOutcome::Refused)
                    &&& next.message_counter == self.message_counter
                },
                Some(step) => if self.message_counter + step.messages.len() > usize::MAX {
                    &&& result matches Ok(HbMessageOutcome::OutOfNumbers)
                    &&& next.message_counter == self.message_counter
                } else {
                    &&& result matches Ok(HbMessageOutcome::Handled(actions)) && is_actions_of(
                        actions,
                        step,
                        self.message_counter,
                        self.network_info.unwrap(),
                    )
                    &&& next.message_counter == self.message_counter + step.messages.len()
                },
            }
        }
    }

    /// Whether this is what comes of a proposal, and what becomes of the message counter, when the
    /// consensus algorithm has answered with a step, or failed.
    pub open spec fn contributes(
        self,
        next: HoneyBadgerBFT,
        proposed: Option<HbStepView>,
        outcome: ContributionOutcome,
    ) -> bool {
        match proposed {
            None => {
                &&& outcome is Refused
                &&& next.message_counter == self.message_counter
            },
            Some(step) => if self.message_counter + step.messages.len() > usize::MAX {
                &&& outcome is OutOfNumbers
                &&& next.message_counter == self.message_counter
            } else {
                &&& outcome matches ContributionOutcome::Proposed(actions) && is_actions_of(
                    actions,
                    step,
                    self.message_counter,
                    self.network_info.unwrap(),
                )
                &&& next.message_counter == self.message_counter + step.messages.len()
            },
        }
    }

    /// Whether this is what comes of a contribution, and what the engine becomes, when it is proposed
    /// to the consensus algorithm.
    pub open spec fn proposes(
        self,
        next: HoneyBadgerBFT,
        made: ContributionView,
        outcome: ContributionOutcome,
    ) -> bool {
        if consensus_epoch(self.honey_badger.unwrap()) > LAST_EPOCH {
            &&& outcome is OutOfNumbers
            &&& next.honey_badger == self.honey_badger
            &&& next.message_counter == self.message_counter
        } else {
            &&& next.honey_badger is Some
            &&& exists|proposed: Option<HbStepView>|
                {
                    &&& #[trigger] consensus_may_propose(
                        self.honey_badger.unwrap(),
                        made,
                        next.honey_badger.unwrap(),
                        proposed,
                    )
                    &&& self.contributes(next, proposed, outcome)
                }
        }
    }

    /// Takes the step with which the consensus algorithm has answered a proposal, unless it failed.
    pub fn contribution_proposed(&mut self, proposed: Option<HbStep>) -> (outcome:
        ContributionOutcome)
        requires
            old(self).network_info is Some,
        ensures
            final(self).same_but_consensus(*old(self)),
            final(self).honey_badger == old(self).honey_badger,
            old(self).contributes(*final(self), step_view(proposed), outcome),
    {
        match proposed {
            Some(step) => {
                if step.messages.len() > usize::MAX - self.message_counter {
                    return ContributionOutcome::OutOfNumbers;
                }
                ContributionOutcome::Proposed(self.process_step(step))
            },
            None => ContributionOutcome::Refused,
        }
    }

    /// Proposes a contribution to the consensus algorithm.
    pub fn propose_contribution(&mut self, made: Contribution) -> (outcome: ContributionOutcome)
        requires
            old(self).well_formed(),
            old(self).honey_badger is Some,
        ensures
            final(self).same_but_consensus(*old(self)),
            final(self).well_formed(),
            old(self).proposes(*final(self), made@, outcome),
    {
        let mut consensus = match self.honey_badger.take() {
            Some(consensus) => consensus,
            None => vstd::pervasive::unreached(),
        };
        if next_epoch(&consensus) > LAST_EPOCH {
            self.honey_badger = Some(consensus);
            return ContributionOutcome::OutOfNumbers;
        }
        let proposed = propose(&mut consensus, made);
        self.honey_badger = Some(consensus);
        self.contribution_proposed(proposed)
    }

    /// Whether this is what comes of transactions that are put forward, and what the engine becomes:
    /// the contribution that was made of them is proposed, or there is no time for one.
    pub open spec fn sends(
        self,
        next: HoneyBadgerBFT,
        transactions: Vec<Vec<u8>>,
        outcome: ContributionOutcome,
    ) -> bool {
        exists|made: Option<Contribution>| #[trigger]
            was_made(transactions, made) && match made {
                Some(contribution) => self.proposes(next, contribution@, outcome),
                None => {
                    &&& outcome is NoTime
                    &&& next.honey_badger == self.honey_badger
                    &&& next.message_counter == self.message_counter
                },
            }
    }

    /// Proposes a contribution of the given serialised transactions, with the current time and
    /// fresh random data, unless the epochs are used up.
    pub fn send_contribution(&mut self, transactions: Vec<Vec<u8>>) -> (outcome: ContributionOutcome)
        requires
            old(self).well_formed(),
            old(self).honey_badger is Some,
        ensures
            final(self).same_but_consensus(*old(self)),
            final(self).well_formed(),
            final(self).honey_badger is Some,
            if consensus_epoch(old(self).honey_badger.unwrap()) > LAST_EPOCH {
                &&& outcome is OutOfNumbers
                &&& final(self).honey_badger == old(self).honey_badger
                &&& final(self).message_counter == old(self).message_counter
            } else if outcome is NoTime {
                &&& final(self).honey_badger == old(self).honey_badger
                &&& final(self).message_counter == old(self).message_counter
            } else {
                exists|made: ContributionView|
                    {
                        &&& made.transactions == byte_strings(transactions@)
                        &&& made.random_data.len() == RANDOM_BYTES_PER_EPOCH
                        &&& #[trigger] old(self).proposes(*final(self), made, outcome)
                    }
            },
            consensus_epoch(old(self).honey_badger.unwrap()) <= LAST_EPOCH ==> old(self).sends(
                *final(self),
                transactions,
                outcome,
            ),
    {
        match &self.honey_badger {
            Some(consensus) => {
                if next_epoch(consensus) > LAST_EPOCH {
                    return ContributionOutcome::OutOfNumbers;
                }
            },
            None => {},
        }
        let made = Contribution::new(transactions);
        assert(was_made(transactions, made));
        match made {
            Some(made) => self.propose_contribution(made),
            None => ContributionOutcome::NoTime,
        }
    }

    /// Whether to join the current hbbft epoch: if no contribution was made yet and the number of
    /// received contributions exceeds the maximum number of tolerated faulty nodes.
    pub fn join_hbbft_epoch(&self) -> (join: bool)
        requires
            self.well_formed(),
            self.honey_badger is Some,
        ensures
            join == (!consensus_has_input(self.honey_badger.unwrap()) && consensus_received(
                self.honey_badger.unwrap(),
            ) > network_faulty(self.network_info.unwrap())),
    {
        match (&self.honey_badger, &self.network_info) {
            (Some(consensus), Some(netinfo)) => !has_input(consensus) && received_proposals(
                consensus,
            ) > num_faulty(netinfo),
            _ => vstd::pervasive::unreached(),
        }
    }

    /// Moves the consensus algorithm to the epoch of the block after the latest one, if that one is
    /// known and the algorithm is not there yet. As the algorithm goes from epoch to epoch only
    /// with an output, a fresh instance takes over, which knows nothing of the messages for later
    /// epochs that have come already.
    pub fn skip_to_current_epoch(&mut self, latest: Option<BlockNumber>)
        requires
            old(self).well_formed(),
            latest matches Some(number) ==> number < LAST_EPOCH,
        ensures
            final(self).same_but_consensus(*old(self)),
            final(self).well_formed(),
            final(self).message_counter == old(self).message_counter,
            final(self).honey_badger == old(self).in_current_epoch(latest),
            (final(self).honey_badger, latest) matches (Some(consensus), Some(number))
                ==> consensus_epoch(consensus) > number,
            (old(self).honey_badger, final(self).honey_badger) matches (Some(before), Some(after))
                ==> consensus_epoch(before) <= consensus_epoch(after),
            old(self).is_late(latest) ==> (final(self).honey_badger matches Some(consensus)
                && consensus_epoch(consensus) == latest.unwrap() + 1 && consensus_received(
                consensus,
            ) == 0 && consensus_has_input(consensus) == !is_validator(
                old(self).network_info.unwrap(),
            )),
    {
        if let Some(number) = latest {
            let late = match &self.honey_badger {
                Some(consensus) => next_epoch(consensus) <= number,
                None => false,
            };
            if late {
                match &self.network_info {
                    Some(netinfo) => {
                        let consensus = new_consensus(clone_network_info(netinfo), number + 1);
                        self.honey_badger = Some(consensus);
                    },
                    None => {},
                }
            }
        }
    }

    /// Whether a new epoch is started with a contribution of this node: it is not on nodes without
    /// a consensus algorithm, as it is expected in non-validator nodes, and not if a contribution
    /// was made already.
    pub fn start_hbbft_epoch(&mut self, latest: Option<BlockNumber>) -> (contribute: bool)
        requires
            old(self).well_formed(),
            latest matches Some(number) ==> number < LAST_EPOCH,
        ensures
            final(self).same_but_consensus(*old(self)),
            final(self).well_formed(),
            final(self).message_counter == old(self).message_counter,
            final(self).honey_badger == old(self).in_current_epoch(latest),
            contribute == (final(self).honey_badger matches Some(consensus) && !consensus_has_input(
                consensus,
            )),
            old(self).is_late(latest) ==> contribute == is_validator(
                old(self).network_info.unwrap(),
            ),
    {
        self.skip_to_current_epoch(latest);
        match &self.honey_badger {
            Some(consensus) => !has_input(consensus),
            None => false,
        }
    }

    /// Whether this is what comes of transactions that were imported at a time, and what the
    /// consensus algorithm becomes.
    pub open spec fn imports(
        self,
        next: HoneyBadgerBFT,
        client: Option<ChainState>,
        now: u64,
        contribute: bool,
    ) -> bool {
        if client matches Some(chain) && self.thresholds_reached(chain, now) {
            &&& next.honey_badger == self.in_current_epoch(client.unwrap().latest_number)
            &&& contribute == (next.honey_badger matches Some(consensus) && !consensus_has_input(
                consensus,
            ))
        } else {
            &&& next.honey_badger == self.honey_badger
            &&& !contribute
        }
    }

    /// Whether this is what comes of transactions that were imported, for some time on the clock.
    pub open spec fn imports_sometime(
        self,
        next: HoneyBadgerBFT,
        client: Option<ChainState>,
        contribute: bool,
    ) -> bool {
        exists|now: u64| #[trigger] self.imports(next, client, now, contribute)
    }

    /// Whether this is what comes of transactions that were imported, for the time on the clock.
    pub open spec fn imports_now(
        self,
        next: HoneyBadgerBFT,
        client: Option<ChainState>,
        contribute: bool,
    ) -> bool {
        exists|now: u64| #[trigger]
            is_now_secs(Some(now)) && self.imports(next, client, now, contribute)
    }

    /// Whether transactions that were imported lead to a contribution of this node, or nothing if
    /// the time is not available. `client` is there if a client is registered.
    pub fn on_transactions_imported(&mut self, client: Option<ChainState>) -> (contribute: Option<
        bool,
    >)
        requires
            old(self).well_formed(),
            client matches Some(chain) ==> {
                &&& chain.latest_number matches Some(number) ==> number < LAST_EPOCH
                &&& chain.latest_timestamp matches Some(timestamp) ==> timestamp + old(
                    self,
                ).options.minimum_block_time <= u64::MAX
            },
        ensures
            final(self).same_but_consensus(*old(self)),
            final(self).well_formed(),
            final(self).message_counter == old(self).message_counter,
            match contribute {
                None => {
                    &&& client matches Some(chain) && chain.latest_timestamp is Some
                    &&& final(self).honey_badger == old(self).honey_badger
                },
                Some(c) => old(self).imports_sometime(*final(self), client, c),
            },
            client matches Some(chain) && chain.latest_timestamp is Some ==> match contribute {
                None => is_now_secs(None),
                Some(c) => old(self).imports_now(*final(self), client, c),
            },
            !(client matches Some(chain) && chain.latest_timestamp is Some) ==> contribute == Some(
                false,
            ),
    {
        let needs_time = match client {
            Some(chain) => chain.latest_timestamp.is_some(),
            None => false,
        };
        if !needs_time {
            assert(old(self).imports(*self, client, 0, false));
            return Some(false);
        }
        match unix_now_secs() {
            Some(now) => {
                let contribute = self.on_transactions_imported_at(client, now);
                assert(old(self).imports(*self, client, now, contribute));
                assert(old(self).imports_now(*self, client, contribute));
                Some(contribute)
            },
            None => None,
        }
    }

    /// Whether transactions that were imported at the time `now` lead to a contribution of this
    /// node.
    pub fn on_transactions_imported_at(&mut self, client: Option<ChainState>, now: u64) -> (
    contribute: bool)
        requires
            old(self).well_formed(),
            client matches Some(chain) ==> {
                &&& chain.latest_number matches Some(number) ==> number < LAST_EPOCH
                &&& chain.latest_timestamp matches Some(timestamp) ==> timestamp + old(
                    self,
                ).options.minimum_block_time <= u64::MAX
            },
        ensures
            final(self).same_but_consensus(*old(self)),
            final(self).well_formed(),
            final(self).message_counter == old(self).message_counter,
            old(self).imports(*final(self), client, now, contribute),
    {
        match client {
            Some(chain) => {
                if self.transaction_queue_and_time_thresholds_reached_at(chain, now) {
                    self.start_hbbft_epoch(chain.latest_number)
                } else {
                    false
                }
            },
            None => false,
        }
    }

    /// Whether enough transactions are queued, and the minimum time since the latest block has
    /// passed.
    pub open spec fn thresholds_reached(self, chain: ChainState, now: u64) -> bool {
        chain.latest_timestamp matches Some(timestamp) && timestamp
            + self.options.minimum_block_time <= now && chain.queued_transactions
            >= self.options.transaction_queue_size_trigger
    }

    /// Whether it is time for a new block, or nothing if the time is not available: enough
    /// transactions are queued, and the minimum time since the latest block has passed.
    pub fn transaction_queue_and_time_thresholds_reached(&self, chain: ChainState) -> (reached:
        Option<bool>)
        requires
            chain.latest_timestamp matches Some(timestamp) ==> timestamp
                + self.options.minimum_block_time <= u64::MAX,
        ensures
            chain.latest_timestamp is None ==> reached == Some(false),
            reached matches Some(r) ==> exists|now: u64| r == self.thresholds_reached(chain, now),
            chain.latest_timestamp is Some ==> match reached {
                Some(r) => exists|now: u64| #[trigger]
                    is_now_secs(Some(now)) && r == self.thresholds_reached(chain, now),
                None => is_now_secs(None),
            },
    {
        if chain.latest_timestamp.is_none() {
            assert(!self.thresholds_reached(chain, 0));
            return Some(false);
        }
        match unix_now_secs() {
            Some(now) => Some(self.transaction_queue_and_time_thresholds_reached_at(chain, now)),
            None => None,
        }
    }

    /// Whether it is time for a new block, when `now` is the current time in seconds.
    pub fn transaction_queue_and_time_thresholds_reached_at(&self, chain: ChainState, now: u64) -> (
    reached: bool)
        requires
            chain.latest_timestamp matches Some(timestamp) ==> timestamp
                + self.options.minimum_block_time <= u64::MAX,
        ensures
            reached == self.thresholds_reached(chain, now),
    {
        match chain.latest_timestamp {
            Some(timestamp) => {
                let target_min_timestamp: u64 = timestamp + self.options.minimum_block_time;
                target_min_timestamp <= now && chain.queued_transactions
                    >= self.options.transaction_queue_size_trigger
            },
            None => false,
        }
    }

    /// The name of the engine.
    pub fn name() -> (name: &'static str)
        ensures
            name@ == "HoneyBadgerBFT"@,
    {
        "HoneyBadgerBFT"
    }

    /// The number of seal fields of a block.
    pub fn seal_fields() -> (number: usize)
        ensures
            number == 1,
    {
        1
    }

    /// Blocks are not prepared by the miner.
    pub fn should_miner_prepare_blocks() -> (prepare: bool)
        ensures
            !prepare,
    {
        false
    }
}

/// The number of a consensus message. Messages of the sealing process have none.
pub open spec fn message_number(message: ConsensusMessage) -> Option<int> {
    match message {
        ConsensusMessage::HoneyBadger(number, _) => Some(number as int),
        ConsensusMessage::Sealing(_, _) => None,
    }
}

/// No number is given to two consensus messages: within a step the numbers rise, and those of the
/// next step are higher still.
pub proof fn law_message_numbers_rise(
    first: Seq<(TargetView, HbMessage)>,
    second: Seq<(TargetView, HbMessage)>,
    counter: usize,
    netinfo: NetworkInfo<H512>,
)
    requires
        counter + first.len() + second.len() <= usize::MAX,
    ensures
        ({
            let sent = step_dispatches(first, counter, netinfo) + step_dispatches(
                second,
                (counter + first.len()) as usize,
                netinfo,
            );
            forall|i: int, j: int|
                #![trigger sent[i], sent[j]]
                0 <= i < j < sent.len() ==> {
                    &&& message_number(sent[i].0) is Some
                    &&& message_number(sent[j].0) is Some
                    &&& message_number(sent[i].0).unwrap() < message_number(sent[j].0).unwrap()
                }
        }),
{
}

/// A signature that a sealing step puts out completes the sealing of its block, and of no other.
pub proof fn law_signature_completes_sealing(
    sealing: Map<BlockNumber, Sealing>,
    step: StepView,
    block_num: BlockNumber,
)
    requires
        step.output.len() > 0,
    ensures
        sealing_after_step(sealing, step, block_num).contains_key(block_num),
        sealing_after_step(sealing, step, block_num)[block_num].seal() == Some(step.output[0]),
        sealing_after_step(sealing, step, block_num).remove(block_num) == sealing.remove(block_num),
{
    assert(sealing_after_step(sealing, step, block_num).remove(block_num) =~= sealing.remove(
        block_num,
    ));
}

/// A message is sent to exactly those nodes that it is meant for, but never to this node, and to
/// each of them once if neither the network nor the target lists a node twice.
pub proof fn law_recipients(target: TargetView, own: NodeId, ids: Seq<NodeId>)
    ensures
        !recipients_of(target, own, ids).contains(own),
        target matches TargetView::Nodes(set) ==> {
            &&& forall|id: NodeId| #[trigger]
                recipients_of(target, own, ids).contains(id) <==> set.contains(id) && id != own
            &&& set.no_duplicates() ==> recipients_of(target, own, ids).no_duplicates()
        },
        target matches TargetView::AllExcept(set) ==> {
            &&& forall|id: NodeId| #[trigger]
                recipients_of(target, own, ids).contains(id) <==> ids.contains(id) && id != own
                    && !set.contains(id)
            &&& ids.no_duplicates() ==> recipients_of(target, own, ids).no_duplicates()
        },
{
    match target {
        TargetView::Nodes(set) => {
            lemma_filter(set, is_other(own));
        },
        TargetView::AllExcept(set) => {
            lemma_filter(ids, is_other_except(own, set));
        },
    }
}

/// Filtering keeps exactly the wanted items, and does not repeat any.
proof fn lemma_filter(ids: Seq<NodeId>, keep: spec_fn(NodeId) -> bool)
    ensures
        forall|id: NodeId| #[trigger] ids.filter(keep).contains(id) <==> ids.contains(id) && keep(id),
        ids.no_duplicates() ==> ids.filter(keep).no_duplicates(),
    decreases ids.len(),
{
    reveal(Seq::filter);
    if ids.len() > 0 {
        let rest = ids.drop_last();
        let last = ids.last();
        lemma_filter(rest, keep);
        let kept = rest.filter(keep);
        assert forall|id: NodeId| #[trigger] ids.filter(keep).contains(id) implies ids.contains(id)
            && keep(id) by {
            if kept.contains(id) {
                let i = choose|i: int| 0 <= i < rest.len() && rest[i] == id;
                assert(ids[i] == id);
            } else {
                assert(ids[ids.len() - 1] == id);
            }
        }
        assert forall|id: NodeId| ids.contains(id) && keep(id) implies #[trigger] ids.filter(
            keep,
        ).contains(id) by {
            let i = choose|i: int| 0 <= i < ids.len() && ids[i] == id;
            if i < rest.len() {
                assert(rest[i] == id);
                assert(kept.contains(id));
                let k = choose|k: int| 0 <= k < kept.len() && kept[k] == id;
                assert(ids.filter(keep)[k] == id);
            } else {
                assert(ids.filter(keep)[kept.len() as int] == id);
            }
        }
        if ids.no_duplicates() {
            assert(rest.no_duplicates());
            assert(!rest.contains(last));
            assert forall|i: int| 0 <= i < kept.len() implies kept[i] != last by {
                assert(kept.contains(kept[i]));
            }
        }
    }
}

} // verus!
