//! The Honey Badger consensus algorithm.

use vstd::prelude::*;

use crate::batch::Batch;
#[allow(unused_imports)]
use crate::batch::BatchView;
use crate::contribution::Contribution;
#[allow(unused_imports)]
use crate::contribution::ContributionView;
#[allow(unused_imports)]
use crate::network::{has_keys, is_validator};
use crate::sealing::Target;
#[allow(unused_imports)]
use crate::sealing::TargetView;
use crate::types::NodeId;
use ethereum_types::H512;
use hbbft::honey_badger::HoneyBadger;
use hbbft::NetworkInfo;
use std::sync::Arc;

verus! {

#[verifier::external_type_specification]
#[verifier::external_body]
#[verifier::reject_recursive_types(C)]
#[verifier::reject_recursive_types(N)]
pub struct ExHoneyBadger<C, N>(hbbft::honey_badger::HoneyBadger<C, N>);

#[verifier::external_type_specification]
#[verifier::external_body]
#[verifier::reject_recursive_types(N)]
pub struct ExHbMessage<N>(hbbft::honey_badger::Message<N>);

/// A Honey Badger BFT message.
pub type HbMessage = hbbft::honey_badger::Message<H512>;

/// The transactions, the timestamp and the random data of a contribution.
pub type Proposal = (Vec<Vec<u8>>, u64, Vec<u8>);

/// An instance of the consensus algorithm.
pub type Consensus = HoneyBadger<Proposal, H512>;

/// The last epoch in which the algorithm is used. It keeps the state of three later epochs too, and
/// one call can bring all of them to their end.
pub const LAST_EPOCH: u64 = 0xffff_ffff_ffff_fffb;

/// What one call into the algorithm has brought about.
#[derive(Debug)]
pub struct HbStep {
    /// The batches that were agreed on.
    pub output: Vec<Batch>,
    /// The messages that have to be sent.
    pub messages: Vec<(Target, HbMessage)>,
}

/// A step as mathematical sequences.
#[verifier::ext_equal]
pub struct HbStepView {
    /// The batches that were agreed on.
    pub output: Seq<BatchView>,
    /// The messages that have to be sent.
    pub messages: Seq<(TargetView, HbMessage)>,
}

impl View for HbStep {
    type V = HbStepView;

    open spec fn view(&self) -> HbStepView {
        HbStepView {
            output: self.output@.map_values(|batch: Batch| batch@),
            messages: self.messages@.map_values(|m: (Target, HbMessage)| (m.0@, m.1)),
        }
    }
}

/// The outcome of a call as a mathematical value.
pub open spec fn step_view(step: Option<HbStep>) -> Option<HbStepView> {
    match step {
        Some(s) => Some(s@),
        None => None,
    }
}

/// The instance that the builder of `HoneyBadger` makes for a network, starting in an epoch.
pub uninterp spec fn consensus_at(netinfo: NetworkInfo<H512>, epoch: u64) -> Consensus;

/// The epoch that `HoneyBadger::next_epoch` returns.
pub uninterp spec fn consensus_epoch(consensus: Consensus) -> u64;

/// What `HoneyBadger::has_input` returns.
pub uninterp spec fn consensus_has_input(consensus: Consensus) -> bool;

/// The number that `HoneyBadger::received_proposals` returns.
pub uninterp spec fn consensus_received(consensus: Consensus) -> nat;

/// The instance that `HoneyBadger::handle_message` leaves behind, and the step that it returns
/// unless it fails.
pub uninterp spec fn consensus_handled(
    consensus: Consensus,
    sender: NodeId,
    message: HbMessage,
) -> (Consensus, Option<HbStepView>);

/// Whether `HoneyBadger::propose` can, for some random numbers, leave the instance `after` behind
/// and return the step, or fail if there is none.
pub uninterp spec fn consensus_may_propose(
    consensus: Consensus,
    made: ContributionView,
    after: Consensus,
    step: Option<HbStepView>,
) -> bool;

/// Whether the network of an instance has keys. Without them, combining shares counts below zero.
pub uninterp spec fn consensus_has_keys(consensus: Consensus) -> bool;

/// Calls `hbbft::honey_badger::HoneyBadgerBuilder::build` with a starting epoch: the instance
/// depends on the network and the epoch alone. It is in that epoch, no proposal has come yet, and a
/// validator has given no input. A node that is not a validator counts as having given it.
#[verifier::external_body]
pub(crate) fn new_consensus(netinfo: NetworkInfo<H512>, epoch: u64) -> (consensus: Consensus)
    ensures
        consensus == consensus_at(netinfo, epoch),
        consensus_epoch(consensus) == epoch,
        consensus_has_keys(consensus) == has_keys(netinfo),
        consensus_received(consensus) == 0,
        consensus_has_input(consensus) == !is_validator(netinfo),
{
    HoneyBadger::builder(Arc::new(netinfo)).epoch(epoch).build()
}

/// Calls `hbbft::honey_badger::HoneyBadger::next_epoch`.
#[verifier::external_body]
pub(crate) fn next_epoch(consensus: &Consensus) -> (epoch: u64)
    ensures
        epoch == consensus_epoch(*consensus),
{
    consensus.next_epoch()
}

/// Calls `hbbft::honey_badger::HoneyBadger::has_input`.
#[verifier::external_body]
pub(crate) fn has_input(consensus: &Consensus) -> (input: bool)
    ensures
        input == consensus_has_input(*consensus),
{
    consensus.has_input()
}

/// Calls `hbbft::honey_badger::HoneyBadger::received_proposals`.
#[verifier::external_body]
pub(crate) fn received_proposals(consensus: &Consensus) -> (number: usize)
    ensures
        number == consensus_received(*consensus),
{
    consensus.received_proposals()
}

/// Calls `hbbft::honey_badger::HoneyBadger::handle_message`, which adds to the epoch number: the
/// outcome depends on the instance, the sender and the message alone.
#[verifier::external_body]
pub(crate) fn handle_message(
    consensus: &mut Consensus,
    sender: &NodeId,
    message: HbMessage,
) -> (step: Option<HbStep>)
    requires
        consensus_epoch(*old(consensus)) <= LAST_EPOCH,
        consensus_has_keys(*old(consensus)),
    ensures
        consensus_has_keys(*final(consensus)),
        (*final(consensus), step_view(step)) == consensus_handled(*old(consensus), *sender, message),
{
    consensus.handle_message(&H512(*sender), message).ok().map(|s| HbStep {
        output: s.output.into_iter().map(|b| Batch { epoch: b.epoch, contributions: b.contributions.into_iter()
            .map(|(id, c)| (id.0, Contribution { transactions: c.0, timestamp: c.1, random_data: c.2 }))
            .collect() }).collect(),
        messages: s.messages.into_iter().map(|m| (match m.target {
            hbbft::Target::All => Target::AllExcept(Vec::new()),
            hbbft::Target::Node(id) => Target::Nodes(vec![id.0]),
        }, m.message)).collect(),
    })
}

/// Calls `hbbft::honey_badger::HoneyBadger::propose` with `rand::thread_rng`, which adds to the
/// epoch number. The contribution is encrypted with random numbers: the instance and the
/// contribution alone say which outcomes there can be, and the outcome is one of them. The instance
/// keeps its keys.
#[verifier::external_body]
pub(crate) fn propose(consensus: &mut Consensus, made: Contribution) -> (step: Option<HbStep>)
    requires
        consensus_epoch(*old(consensus)) <= LAST_EPOCH,
        consensus_has_keys(*old(consensus)),
    ensures
        consensus_has_keys(*final(consensus)),
        consensus_may_propose(*old(consensus), made@, *final(consensus), step_view(step)),
{
    let proposal = (made.transactions, made.timestamp, made.random_data);
    consensus.propose(&proposal, &mut rand::thread_rng()).ok().map(|s| HbStep {
        output: s.output.into_iter().map(|b| Batch { epoch: b.epoch, contributions: b.contributions.into_iter()
            .map(|(id, c)| (id.0, Contribution { transactions: c.0, timestamp: c.1, random_data: c.2 }))
            .collect() }).collect(),
        messages: s.messages.into_iter().map(|m| (match m.target {
            hbbft::Target::All => Target::AllExcept(Vec::new()),
            hbbft::Target::Node(id) => Target::Nodes(vec![id.0]),
        }, m.message)).collect(),
    })
}

/// The mathematical value of a step has all its batches and messages, in order.
pub proof fn law_step_view(step: HbStep)
    ensures
        step@.output.len() == step.output@.len(),
        forall|i: int|
            0 <= i < step.output@.len() ==> (#[trigger] step@.output[i]) == step.output@[i]@,
        step@.messages.len() == step.messages@.len(),
        forall|i: int|
            0 <= i < step.messages@.len() ==> (#[trigger] step@.messages[i]) == (
                step.messages@[i].0@,
                step.messages@[i].1,
            ),
        step_view(Some(step)) == Some(step@),
        step_view(None) is None,
{
}

/// The algorithm can be used in all epochs but the last four that there are numbers for.
pub proof fn law_last_epoch(epoch: u64)
    ensures
        epoch <= LAST_EPOCH <==> epoch + 4 <= 0xffff_ffff_ffff_ffff,
{
}

} // verus!
