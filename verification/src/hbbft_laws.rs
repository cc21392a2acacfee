//! What holds of the calls into the Honey Badger BFT engine, and of several of them together.

use vstd::prelude::*;

#[allow(unused_imports)]
use crate::batch::{
    all_timestamps, all_transactions, law_median_in_the_middle, law_transactions_contributed, Batch,
    BatchView,
};
#[allow(unused_imports)]
use crate::consensus::{
    consensus_at, consensus_epoch, consensus_handled, consensus_has_input, consensus_may_propose,
    consensus_received, step_view, Consensus, HbMessage, HbStep, HbStepView, LAST_EPOCH,
};
#[allow(unused_imports)]
use crate::contribution::{random_drawn, was_made, Contribution};
#[allow(unused_imports)]
use crate::hbbft_engine::{
    dispatch_views, law_recipients, recipients_of, seal_dispatches, seal_verdict, step_dispatches,
    BlockError, BlockOutcome, ChainState, ConsensusMessage, ContributionOutcome, Dispatch,
    EngineError, HbMessageOutcome, HoneyBadgerBFT, HoneyBadgerOptions, IncomingMessage, InitOutcome,
    ConsensusSetup, Output, PendingBlock, Seal, SealActions, SealMessage, SealingMessageOutcome, SealingState,
    StepActions, TargetedMessage,
};
#[allow(unused_imports)]
use crate::network::{
    configured_key, configured_network, is_validator, network_faulty, network_ids, network_our_id,
    HbbftOptions, MasterKey, NetworkSetup,
};
#[allow(unused_imports)]
use crate::sealing::{
    decoded_signature, document_set, fresh_sign, share_handled, share_signed, signature_sized, signature_verifies, SealDecodeError, Sealing,
    Step, StepView, Target, TargetView,
};
#[allow(unused_imports)]
use crate::time::{clock_said, duration_nanos, is_now_secs, is_secs_of};
#[allow(unused_imports)]
use crate::types::{byte_strings, BlockNumber, NodeId, H256};
use ethereum_types::H512;
#[allow(unused_imports)]
use hbbft::threshold_sign::Error as SignError;
use hbbft::threshold_sign::ThresholdSign;
use hbbft::NetworkInfo;
#[allow(unused_imports)]
use std::time::Duration;

verus! {

/// Whether a message with the given target is meant for a node other than this one.
pub open spec fn is_meant(target: TargetView, netinfo: NetworkInfo<H512>, id: NodeId) -> bool {
    id != network_our_id(netinfo) && match target {
        TargetView::Nodes(set) => set.contains(id),
        TargetView::AllExcept(set) => network_ids(netinfo).contains(id) && !set.contains(id),
    }
}

/// The recipients of a message are exactly those that it is meant for.
proof fn lemma_recipients_meant(target: TargetView, netinfo: NetworkInfo<H512>)
    ensures
        forall|id: NodeId| #[trigger]
            recipients_of(target, network_our_id(netinfo), network_ids(netinfo)).contains(id)
                <==> is_meant(target, netinfo, id),
{
    law_recipients(target, network_our_id(netinfo), network_ids(netinfo));
}

/// What a sealing step for a block sends is one message for each of its own, in order: the share, with
/// exactly the number of the block, to all that it is meant for.
pub proof fn law_shares_sent(step: StepView, block_num: BlockNumber, netinfo: NetworkInfo<H512>)
    ensures
        seal_dispatches(step, block_num, netinfo).len() == step.messages.len(),
        forall|i: int|
            0 <= i < step.messages.len() ==> (#[trigger] seal_dispatches(
                step,
                block_num,
                netinfo,
            )[i]).0 == ConsensusMessage::Sealing(block_num, step.messages[i].1),
        forall|i: int, id: NodeId|
            0 <= i < step.messages.len() ==> (#[trigger] seal_dispatches(
                step,
                block_num,
                netinfo,
            )[i].1.contains(id) <==> is_meant(step.messages[i].0, netinfo, id)),
{
    assert forall|i: int, id: NodeId| 0 <= i < step.messages.len() implies (
    #[trigger] seal_dispatches(step, block_num, netinfo)[i].1.contains(id) <==> is_meant(
        step.messages[i].0,
        netinfo,
        id,
    )) by {
        lemma_recipients_meant(step.messages[i].0, netinfo);
    }
}

/// A share that one node sends for a block is taken by another one as a share for that block, by
/// the node that sent it.
pub proof fn law_share_taken(
    step: StepView,
    block_num: BlockNumber,
    netinfo: NetworkInfo<H512>,
    i: int,
    result: Result<IncomingMessage, EngineError>,
)
    requires
        0 <= i < step.messages.len(),
        call_ensures(
            HoneyBadgerBFT::handle_message,
            (
                Some(network_our_id(netinfo)),
                Some(seal_dispatches(step, block_num, netinfo)[i].0),
            ),
            result,
        ),
    ensures
        result == Ok::<IncomingMessage, EngineError>(
            IncomingMessage::Sealing(
                step.messages[i].1,
                network_our_id(netinfo),
                block_num,
            ),
        ),
{
}

/// A message needs a sender and has to be readable. It is then handed on with its sender, its number
/// or block, and its contents.
pub proof fn law_message_read(
    node_id: Option<NodeId>,
    parsed: Option<ConsensusMessage>,
    result: Result<IncomingMessage, EngineError>,
)
    requires
        call_ensures(HoneyBadgerBFT::handle_message, (node_id, parsed), result),
    ensures
        result is Ok <==> node_id is Some && parsed is Some,
        node_id is None ==> result matches Err(EngineError::UnexpectedMessage),
        node_id is Some && parsed is None ==> (result matches Err(
            EngineError::MalformedMessage(text),
        ) && text@ == "Serde decoding failed."@),
        result matches Ok(IncomingMessage::HoneyBadger(idx, message, id)) ==> node_id == Some(id)
            && parsed == Some(ConsensusMessage::HoneyBadger(idx, message)),
        result matches Ok(IncomingMessage::Sealing(message, id, block_num)) ==> node_id == Some(id)
            && parsed == Some(ConsensusMessage::Sealing(block_num, message)),
{
}

/// Messages are sent as they are, each to all that it is meant for, never to this node, and to none
/// twice unless its target lists a node twice.
pub proof fn law_messages_dispatched(
    engine: HoneyBadgerBFT,
    messages: Vec<TargetedMessage>,
    dispatches: Vec<Dispatch>,
)
    requires
        messages@.len() > 0 ==> engine.network_info is Some,
        call_ensures(HoneyBadgerBFT::dispatch_messages, (&engine, messages), dispatches),
    ensures
        dispatches@.len() == messages@.len(),
        forall|i: int|
            0 <= i < messages@.len() ==> (#[trigger] dispatches@[i]).message
                == messages@[i].message,
        forall|i: int, id: NodeId|
            0 <= i < messages@.len() ==> (#[trigger] dispatches@[i].recipients@.contains(id)
                <==> is_meant(messages@[i].target@, engine.network_info.unwrap(), id)),
        forall|i: int|
            0 <= i < messages@.len() && (messages@[i].target@ matches TargetView::Nodes(set)
                ==> set.no_duplicates()) ==> (
            #[trigger] dispatches@[i]).recipients@.no_duplicates(),
{
    let views = dispatch_views(dispatches@);
    assert(views.len() == messages@.len());
    let netinfo = engine.network_info.unwrap();
    assert forall|i: int| 0 <= i < messages@.len() implies {
        &&& (#[trigger] dispatches@[i]).message == messages@[i].message
        &&& dispatches@[i].recipients@ == recipients_of(
            messages@[i].target@,
            network_our_id(netinfo),
            network_ids(netinfo),
        )
    } by {
        assert(views[i] == (dispatches@[i].message, dispatches@[i].recipients@));
    }
    assert forall|i: int, id: NodeId| 0 <= i < messages@.len() implies (
    #[trigger] dispatches@[i].recipients@.contains(id) <==> is_meant(
        messages@[i].target@,
        netinfo,
        id,
    )) by {
        lemma_recipients_meant(messages@[i].target@, netinfo);
    }
    assert forall|i: int|
        0 <= i < messages@.len() && (messages@[i].target@ matches TargetView::Nodes(set)
            ==> set.no_duplicates()) implies (
    #[trigger] dispatches@[i]).recipients@.no_duplicates() by {
        law_recipients(messages@[i].target@, network_our_id(netinfo), network_ids(netinfo));
    }
}

/// Whether a dispatch carries a share for a block to all that it is meant for.
pub open spec fn carries_share(
    dispatch: Dispatch,
    block_num: BlockNumber,
    message: SealMessage,
    target: TargetView,
    netinfo: NetworkInfo<H512>,
) -> bool {
    &&& dispatch.message == ConsensusMessage::Sealing(block_num, message)
    &&& forall|id: NodeId| #[trigger]
        dispatch.recipients@.contains(id) <==> is_meant(target, netinfo, id)
}

proof fn lemma_shares_carried(
    dispatches: Seq<Dispatch>,
    step: StepView,
    block_num: BlockNumber,
    netinfo: NetworkInfo<H512>,
)
    requires
        dispatch_views(dispatches) == seal_dispatches(step, block_num, netinfo),
    ensures
        dispatches.len() == step.messages.len(),
        forall|i: int|
            0 <= i < step.messages.len() ==> carries_share(
                #[trigger] dispatches[i],
                block_num,
                step.messages[i].1,
                step.messages[i].0,
                netinfo,
            ),
{
    assert(dispatch_views(dispatches).len() == step.messages.len());
    assert forall|i: int| 0 <= i < step.messages.len() implies carries_share(
        #[trigger] dispatches[i],
        block_num,
        step.messages[i].1,
        step.messages[i].0,
        netinfo,
    ) by {
        assert(dispatch_views(dispatches)[i] == (dispatches[i].message, dispatches[i].recipients@));
        lemma_recipients_meant(step.messages[i].0, netinfo);
    }
}

/// A sealing step for a block sends its shares with the number of the block. A signature that it puts
/// out completes the sealing of that block, for which the client has to look again; nothing else
/// changes.
pub proof fn law_seal_step(
    e: &mut HoneyBadgerBFT,
    step: Step,
    block_num: BlockNumber,
    actions: SealActions,
)
    requires
        old(e).network_info is Some,
        call_ensures(HoneyBadgerBFT::process_seal_step, (e, step, block_num), actions),
    ensures
        actions.dispatches@.len() == step.messages@.len(),
        forall|i: int|
            0 <= i < step.messages@.len() ==> carries_share(
                #[trigger] actions.dispatches@[i],
                block_num,
                step.messages@[i].message,
                step.messages@[i].target@,
                old(e).network_info.unwrap(),
            ),
        actions.update_sealing == (step.output@.len() > 0),
        forall|number: BlockNumber|
            number != block_num || step.output@.len() == 0 ==> (
            #[trigger] final(e).sealing@.contains_key(number) == old(e).sealing@.contains_key(number)) && final(e).sealing@[number] == old(e).sealing@[number],
        step.output@.len() > 0 ==> final(e).sealing@.contains_key(block_num) && final(e).sealing@[block_num] == Sealing::Complete(step.output@[0]),
        final(e).options == old(e).options,
        final(e).network_info == old(e).network_info,
        final(e).honey_badger == old(e).honey_badger,
        final(e).public_master_key == old(e).public_master_key,
        final(e).message_counter == old(e).message_counter,
{
    lemma_shares_carried(
        actions.dispatches@,
        step@,
        block_num,
        old(e).network_info.unwrap(),
    );
    assert forall|i: int| 0 <= i < step.messages@.len() implies carries_share(
        #[trigger] actions.dispatches@[i],
        block_num,
        step.messages@[i].message,
        step.messages@[i].target@,
        old(e).network_info.unwrap(),
    ) by {
        assert(step@.messages[i] == step.messages@[i]@);
    }
}

/// The signing instance for a block whose seal is not there yet.
pub open spec fn signer_of(e: HoneyBadgerBFT, number: BlockNumber) -> ThresholdSign<H512> {
    if e.sealing@.contains_key(number) && e.sealing@[number] is Ongoing {
        e.sealing@[number]->Ongoing_0
    } else {
        fresh_sign(e.network_info.unwrap())
    }
}

/// Whether the seal of a block is there.
pub open spec fn is_sealed(e: HoneyBadgerBFT, number: BlockNumber) -> bool {
    e.sealing@.contains_key(number) && e.sealing@[number] is Complete
}

/// Whether the sealing of a block is all that may have changed.
pub open spec fn only_sealing_changed(
    before: HoneyBadgerBFT,
    after: HoneyBadgerBFT,
    number: BlockNumber,
) -> bool {
    &&& forall|other: BlockNumber|
        other != number ==> (#[trigger] after.sealing@.contains_key(other)
            == before.sealing@.contains_key(other)) && after.sealing@[other]
            == before.sealing@[other]
    &&& after.options == before.options
    &&& after.network_info == before.network_info
    &&& after.honey_badger == before.honey_badger
    &&& after.public_master_key == before.public_master_key
    &&& after.message_counter == before.message_counter
}

/// Whether a sealing step for a block was followed: its shares are sent, and its signature, if there
/// is one, is the seal of the block.
pub open spec fn follows_step(
    before: HoneyBadgerBFT,
    after: HoneyBadgerBFT,
    number: BlockNumber,
    signer: ThresholdSign<H512>,
    step: StepView,
    actions: SealActions,
) -> bool {
    &&& actions.dispatches@.len() == step.messages.len()
    &&& forall|i: int|
        0 <= i < step.messages.len() ==> carries_share(
            #[trigger] actions.dispatches@[i],
            number,
            step.messages[i].1,
            step.messages[i].0,
            before.network_info.unwrap(),
        )
    &&& actions.update_sealing == (step.output.len() > 0)
    &&& after.sealing@.contains_key(number)
    &&& after.sealing@[number] == if step.output.len() > 0 {
        Sealing::Complete(step.output[0])
    } else {
        Sealing::Ongoing(signer)
    }
}

/// A block that was created is signed: its hash becomes the document of the signing instance for its
/// number, and the share is sent to the others as one for that number. A seal that is there already
/// stays. Without a block nothing changes.
pub proof fn law_block_signed(
    e: &mut HoneyBadgerBFT,
    block: Option<(BlockNumber, H256)>,
    outcome: BlockOutcome,
)
    requires
        old(e).well_formed(),
        block is Some ==> old(e).network_info is Some,
        call_ensures(HoneyBadgerBFT::block_created, (e, block), outcome),
    ensures
        outcome is NotCreated <==> block is None,
        block is None ==> final(e).sealing@ == old(e).sealing@,
        block matches Some((number, hash)) ==> {
            &&& only_sealing_changed(*old(e), *final(e), number)
            &&& if is_sealed(*old(e), number) {
                &&& outcome matches BlockOutcome::Sealing(actions) && actions.dispatches@.len() == 0
                &&& final(e).sealing@[number] == old(e).sealing@[number]
            } else {
                match document_set(signer_of(*old(e), number), hash.0@) {
                    (unsigned, Ok(())) => match share_signed(unsigned) {
                        (next, Ok(step)) => outcome matches BlockOutcome::Sealing(actions)
                            && follows_step(*old(e), *final(e), number, next, step, actions),
                        (next, Err(error)) => {
                            &&& outcome == BlockOutcome::Unsigned(error)
                            &&& final(e).sealing@[number] == Sealing::Ongoing(next)
                        },
                    },
                    (refusing, Err(error)) => {
                        &&& outcome == BlockOutcome::Unsigned(error)
                        &&& final(e).sealing@[number] == Sealing::Ongoing(refusing)
                    },
                }
            }
        },
{
    if let Some((number, hash)) = block {
        if let BlockOutcome::Sealing(actions) = outcome {
            let (next, result) = old(e).sealing_of(number).signed(hash.0@);
            lemma_shares_carried(
                actions.dispatches@,
                result.unwrap(),
                number,
                old(e).network_info.unwrap(),
            );
        }
    }
}

/// A share for a block that is there already is obsolete. Any other one goes to the signing instance
/// for its block, as one of its sender, and what that puts out is followed. A seal that is there
/// stays. Without a client nothing changes.
pub proof fn law_share_handled(
    e: &mut HoneyBadgerBFT,
    client: Option<Option<BlockNumber>>,
    message: SealMessage,
    sender: NodeId,
    number: BlockNumber,
    result: Result<SealingMessageOutcome, EngineError>,
)
    requires
        old(e).well_formed(),
        old(e).network_info is Some,
        call_ensures(
            HoneyBadgerBFT::process_sealing_message,
            (e, client, message, sender, number),
            result,
        ),
    ensures
        only_sealing_changed(*old(e), *final(e), number),
        result is Err <==> client is None,
        result matches Err(error) ==> error == EngineError::RequiresClient && final(e).sealing@
            == old(e).sealing@,
        result matches Ok(SealingMessageOutcome::Obsolete) <==> (client matches Some(
            Some(latest),
        ) && number <= latest),
        result matches Ok(SealingMessageOutcome::Obsolete) ==> final(e).sealing@ == old(e).sealing@,
        client matches Some(latest) && !(latest matches Some(l) && number <= l) ==> if is_sealed(
            *old(e),
            number,
        ) {
            &&& result matches Ok(SealingMessageOutcome::Handled(actions))
                && actions.dispatches@.len() == 0
            &&& final(e).sealing@[number] == old(e).sealing@[number]
        } else {
            match share_handled(signer_of(*old(e), number), sender, message) {
                (next, Ok(step)) => result matches Ok(SealingMessageOutcome::Handled(actions))
                    && follows_step(*old(e), *final(e), number, next, step, actions),
                (next, Err(error)) => {
                    &&& result == Ok::<SealingMessageOutcome, EngineError>(
                        SealingMessageOutcome::Refused(error),
                    )
                    &&& final(e).sealing@[number] == Sealing::Ongoing(next)
                },
            }
        },
{
    if let Ok(SealingMessageOutcome::Handled(actions)) = result {
        let (next, outcome) = old(e).sealing_of(number).handled(sender, message);
        lemma_shares_carried(
            actions.dispatches@,
            outcome.unwrap(),
            number,
            old(e).network_info.unwrap(),
        );
    }
}

/// The sealing processes of blocks that are there are dropped, and only those. The engine is ready
/// exactly if the seal of the block after the latest one is there.
pub proof fn law_old_sealings_dropped(
    e: &mut HoneyBadgerBFT,
    client: Option<Option<BlockNumber>>,
    state: SealingState,
)
    requires
        old(e).well_formed(),
        client matches Some(Some(latest)) ==> latest < u64::MAX,
        call_ensures(HoneyBadgerBFT::sealing_state, (e, client), state),
    ensures
        forall|number: BlockNumber|
            {
                &&& #[trigger] final(e).sealing@.contains_key(number) <==> old(
                    e,
                ).sealing@.contains_key(number) && !(client matches Some(Some(latest)) && number
                    <= latest)
                &&& final(e).sealing@.contains_key(number) ==> final(e).sealing@[number]
                    == old(e).sealing@[number]
            },
        state is Ready <==> (client matches Some(Some(latest)) && is_sealed(
            *old(e),
            (latest + 1) as u64,
        )),
        final(e).options == old(e).options,
        final(e).network_info == old(e).network_info,
        final(e).honey_badger == old(e).honey_badger,
        final(e).public_master_key == old(e).public_master_key,
        final(e).message_counter == old(e).message_counter,
{
}

/// The seal that one node generates for a block is accepted by every node with the same key, as the
/// seal of a block with that hash.
pub proof fn law_seal_accepted(
    one: HoneyBadgerBFT,
    other: HoneyBadgerBFT,
    block_num: BlockNumber,
    hash: H256,
    fields: Vec<Vec<u8>>,
    verdict: Result<(), BlockError>,
)
    requires
        call_ensures(
            HoneyBadgerBFT::generate_seal,
            (&one, block_num, &hash),
            Seal::Regular(fields),
        ),
        other.public_master_key == one.public_master_key,
        call_ensures(HoneyBadgerBFT::verify_block_basic, (&other, &fields, &hash), verdict),
    ensures
        verdict is Ok,
{
}

/// A seal is generated exactly for a block whose signature is there and belongs to the hash.
pub proof fn law_seal_generated(
    e: HoneyBadgerBFT,
    block_num: BlockNumber,
    hash: H256,
    seal: Seal,
)
    requires
        is_sealed(e, block_num) ==> e.public_master_key is Some,
        call_ensures(HoneyBadgerBFT::generate_seal, (&e, block_num, &hash), seal),
    ensures
        seal is Regular <==> is_sealed(e, block_num) && signature_verifies(
            e.public_master_key.unwrap(),
            e.sealing@[block_num]->Complete_0,
            hash.0@,
        ),
        seal matches Seal::Regular(fields) ==> fields@.len() == 1 && decoded_signature(fields@[0]@)
            == Ok::<_, SealDecodeError>(e.sealing@[block_num]->Complete_0),
{
}

/// A block is accepted exactly if its only seal field is a signature of its hash by the network.
pub proof fn law_seal_checked(
    e: HoneyBadgerBFT,
    seal: Vec<Vec<u8>>,
    hash: H256,
    verdict: Result<(), BlockError>,
    tried: Option<Result<(), BlockError>>,
)
    requires
        seal@.len() == 1 ==> signature_sized(seal@[0]@),
        seal@.len() == 1 && decoded_signature(seal@[0]@) is Ok ==> e.public_master_key is Some,
        call_ensures(HoneyBadgerBFT::verify_block_basic, (&e, &seal, &hash), verdict),
        call_ensures(HoneyBadgerBFT::try_verify_block_basic, (&e, &seal, &hash), tried),
    ensures
        tried == Some(verdict),
        verdict is Ok <==> seal@.len() == 1 && (decoded_signature(seal@[0]@) matches Ok(sig)
            && signature_verifies(e.public_master_key.unwrap(), sig, hash.0@)),
        seal@.len() != 1 ==> verdict matches Err(BlockError::InvalidSeal),
        seal@.len() == 1 ==> (decoded_signature(seal@[0]@) matches Err(error) ==> verdict == Err::<
            (),
            BlockError,
        >(BlockError::Decoder(error))),
        verdict matches Err(BlockError::Decoder(_)) ==> seal@.len() == 1 && decoded_signature(
            seal@[0]@,
        ) is Err,
{
}

/// Whether a block is the one to create for a batch: it has the epoch of the batch, exactly the
/// transactions of the contributions, contribution after contribution, and the time in the middle of
/// those of the contributions.
pub open spec fn is_agreed(block: PendingBlock, batch: BatchView) -> bool {
    &&& block.epoch == batch.epoch
    &&& byte_strings(block.transactions@) == all_transactions(batch.contributions)
    &&& forall|transaction: Seq<u8>| #[trigger]
        byte_strings(block.transactions@).contains(transaction) <==> exists|i: int|
            0 <= i < batch.contributions.len() && (
            #[trigger] batch.contributions[i]).1.transactions.contains(transaction)
    &&& forall|ascending: Seq<u64>|
        {
            &&& #[trigger] ascending.to_multiset() == Seq::new(
                batch.contributions.len(),
                |i: int| batch.contributions[i].1.timestamp,
            ).to_multiset()
            &&& forall|i: int, j: int|
                0 <= i <= j < ascending.len() ==> ascending[i] <= ascending[j]
        } ==> block.timestamp == ascending[batch.contributions.len() as int / 2]
}

proof fn lemma_block_agreed(block: PendingBlock, batch: BatchView)
    requires
        crate::hbbft_engine::is_block_of(block, batch),
    ensures
        is_agreed(block, batch),
{
    assert forall|transaction: Seq<u8>| #[trigger]
        byte_strings(block.transactions@).contains(transaction) <==> exists|i: int|
            0 <= i < batch.contributions.len() && (
            #[trigger] batch.contributions[i]).1.transactions.contains(transaction) by {
        law_transactions_contributed(batch.contributions, transaction);
    }
    let times = Seq::new(
        batch.contributions.len(),
        |i: int| batch.contributions[i].1.timestamp,
    );
    assert(all_timestamps(batch.contributions) =~= times);
    assert forall|ascending: Seq<u64>|
        {
            &&& #[trigger] ascending.to_multiset() == times.to_multiset()
            &&& forall|i: int, j: int|
                0 <= i <= j < ascending.len() ==> ascending[i] <= ascending[j]
        } implies block.timestamp == ascending[batch.contributions.len() as int / 2] by {
        law_median_in_the_middle(times, ascending, block.timestamp);
    }
}

/// The block to create is that of the first batch, and without a batch there is none.
pub proof fn law_block_of_output(output: Vec<Batch>, pending: Option<PendingBlock>)
    requires
        output@.len() > 0 ==> output@[0].contributions@.len() > 0,
        call_ensures(HoneyBadgerBFT::process_output, (output,), pending),
    ensures
        pending is None <==> output@.len() == 0,
        pending matches Some(block) ==> is_agreed(block, output@[0]@),
{
    if let Some(block) = pending {
        lemma_block_agreed(block, output@[0]@);
    }
}

/// Whether a dispatch carries a numbered consensus message to all that it is meant for.
pub open spec fn carries_message(
    dispatch: Dispatch,
    number: int,
    message: HbMessage,
    target: TargetView,
    netinfo: NetworkInfo<H512>,
) -> bool {
    &&& dispatch.message matches ConsensusMessage::HoneyBadger(n, m) && n == number && m == message
    &&& forall|id: NodeId| #[trigger]
        dispatch.recipients@.contains(id) <==> is_meant(target, netinfo, id)
}

/// Whether a consensus step was followed: its messages are sent in order, numbered from the one after
/// those that were sent before, and the first batch that was agreed on asks for its block.
pub open spec fn follows_consensus(
    step: HbStepView,
    counter: int,
    netinfo: NetworkInfo<H512>,
    actions: StepActions,
) -> bool {
    &&& actions.dispatches@.len() == step.messages.len()
    &&& forall|i: int|
        0 <= i < step.messages.len() ==> carries_message(
            #[trigger] actions.dispatches@[i],
            counter + 1 + i,
            step.messages[i].1,
            step.messages[i].0,
            netinfo,
        )
    &&& actions.output is Nothing <==> step.output.len() == 0
    &&& actions.output is NoContributions <==> step.output.len() > 0
        && step.output[0].contributions.len() == 0
    &&& actions.output matches Output::Block(block) ==> is_agreed(block, step.output[0])
}

proof fn lemma_consensus_followed(
    step: HbStepView,
    counter: usize,
    netinfo: NetworkInfo<H512>,
    actions: StepActions,
)
    requires
        counter + step.messages.len() <= usize::MAX,
        crate::hbbft_engine::is_actions_of(actions, step, counter, netinfo),
    ensures
        follows_consensus(step, counter as int, netinfo, actions),
{
    assert(dispatch_views(actions.dispatches@).len() == step.messages.len());
    assert forall|i: int| 0 <= i < step.messages.len() implies carries_message(
        #[trigger] actions.dispatches@[i],
        counter + 1 + i,
        step.messages[i].1,
        step.messages[i].0,
        netinfo,
    ) by {
        assert(dispatch_views(actions.dispatches@)[i] == (
            actions.dispatches@[i].message,
            actions.dispatches@[i].recipients@,
        ));
        lemma_recipients_meant(step.messages[i].0, netinfo);
    }
    if let Output::Block(block) = actions.output {
        lemma_block_agreed(block, step.output[0]);
    }
}

/// Whether the consensus algorithm and the message counter are all that may have changed.
pub open spec fn only_consensus_changed(before: HoneyBadgerBFT, after: HoneyBadgerBFT) -> bool {
    &&& after.options == before.options
    &&& after.network_info == before.network_info
    &&& after.public_master_key == before.public_master_key
    &&& after.sealing@ == before.sealing@
}

/// A consensus step is followed, and the counter goes up by the number of its messages.
pub proof fn law_consensus_step(e: &mut HoneyBadgerBFT, step: HbStep, actions: StepActions)
    requires
        old(e).network_info is Some,
        old(e).message_counter + step.messages@.len() <= usize::MAX,
        call_ensures(HoneyBadgerBFT::process_step, (e, step), actions),
    ensures
        follows_consensus(
            step@,
            old(e).message_counter as int,
            old(e).network_info.unwrap(),
            actions,
        ),
        final(e).message_counter == old(e).message_counter + step.messages@.len(),
        only_consensus_changed(*old(e), *final(e)),
        final(e).honey_badger == old(e).honey_badger,
{
    lemma_consensus_followed(
        step@,
        old(e).message_counter,
        old(e).network_info.unwrap(),
        actions,
    );
}

/// The consensus algorithm in the epoch of the block after the latest one: a fresh one if it is in an
/// earlier epoch, and otherwise the one that is there.
pub open spec fn current_consensus(e: HoneyBadgerBFT, latest: Option<BlockNumber>) -> Option<
    Consensus,
> {
    if e.honey_badger matches Some(consensus) && (latest matches Some(number) && consensus_epoch(
        consensus,
    ) <= number) {
        Some(consensus_at(e.network_info.unwrap(), (latest.unwrap() + 1) as u64))
    } else {
        e.honey_badger
    }
}

/// The engine never stays in an epoch whose block is there, and never leaves another one: it only
/// goes on, to the epoch of the block after the latest one.
pub proof fn law_epoch_skipped(e: &mut HoneyBadgerBFT, latest: Option<BlockNumber>)
    requires
        old(e).well_formed(),
        latest matches Some(number) ==> number < LAST_EPOCH,
        call_ensures(HoneyBadgerBFT::skip_to_current_epoch, (e, latest), ()),
    ensures
        final(e).honey_badger == current_consensus(*old(e), latest),
        final(e).message_counter == old(e).message_counter,
        only_consensus_changed(*old(e), *final(e)),
        (final(e).honey_badger, latest) matches (Some(consensus), Some(number)) ==> consensus_epoch(
            consensus,
        ) > number,
        (old(e).honey_badger, final(e).honey_badger) matches (Some(before), Some(after)) ==> {
            &&& consensus_epoch(before) <= consensus_epoch(after)
            &&& latest is None || latest.unwrap() < consensus_epoch(before) ==> before == after
            &&& latest is Some && consensus_epoch(before) <= latest.unwrap() ==> consensus_epoch(
                after,
            ) == latest.unwrap() + 1
        },
{
}

/// An epoch is started with a contribution exactly if the node takes part in the consensus and has
/// made none in the current epoch.
pub proof fn law_epoch_started(
    e: &mut HoneyBadgerBFT,
    latest: Option<BlockNumber>,
    contribute: bool,
)
    requires
        old(e).well_formed(),
        latest matches Some(number) ==> number < LAST_EPOCH,
        call_ensures(HoneyBadgerBFT::start_hbbft_epoch, (e, latest), contribute),
    ensures
        final(e).honey_badger == current_consensus(*old(e), latest),
        contribute <==> (final(e).honey_badger matches Some(consensus) && !consensus_has_input(
            consensus,
        )),
        final(e).message_counter == old(e).message_counter,
        only_consensus_changed(*old(e), *final(e)),
{
}

/// An epoch is joined once more contributions were received than nodes can be faulty, unless this
/// node has made one already.
pub proof fn law_epoch_joined(e: HoneyBadgerBFT, join: bool)
    requires
        e.well_formed(),
        e.honey_badger is Some,
        call_ensures(HoneyBadgerBFT::join_hbbft_epoch, (&e,), join),
    ensures
        join <==> !consensus_has_input(e.honey_badger.unwrap()) && network_faulty(
            e.network_info.unwrap(),
        ) + 1 <= consensus_received(e.honey_badger.unwrap()),
{
}

/// A consensus message is handled in the current epoch, as one of its sender, and what comes of it is
/// followed. It needs a client and a node that takes part in the consensus.
pub proof fn law_consensus_message(
    e: &mut HoneyBadgerBFT,
    client: Option<Option<BlockNumber>>,
    message: HbMessage,
    sender: NodeId,
    result: Result<HbMessageOutcome, EngineError>,
)
    requires
        old(e).well_formed(),
        client matches Some(Some(latest)) ==> latest < LAST_EPOCH,
        call_ensures(HoneyBadgerBFT::process_hb_message, (e, client, message, sender), result),
    ensures
        only_consensus_changed(*old(e), *final(e)),
        client is None ==> result == Err::<HbMessageOutcome, EngineError>(
            EngineError::RequiresClient,
        ),
        client is Some && old(e).honey_badger is None ==> result == Err::<
            HbMessageOutcome,
            EngineError,
        >(EngineError::InvalidEngine),
        result is Err ==> final(e).honey_badger == old(e).honey_badger,
        !(result matches Ok(HbMessageOutcome::Handled(_))) ==> final(e).message_counter
            == old(e).message_counter,
        client matches Some(latest) && old(e).honey_badger is Some ==> {
            let current = current_consensus(*old(e), client.unwrap()).unwrap();
            let (next, handled) = consensus_handled(current, sender, message);
            if consensus_epoch(current) > LAST_EPOCH {
                &&& result matches Ok(HbMessageOutcome::OutOfNumbers)
                &&& final(e).honey_badger == Some(current)
            } else {
                &&& final(e).honey_badger == Some(next)
                &&& match handled {
                    None => result matches Ok(HbMessageOutcome::Refused),
                    Some(step) => if old(e).message_counter + step.messages.len() > usize::MAX {
                        result matches Ok(HbMessageOutcome::OutOfNumbers)
                    } else {
                        &&& result matches Ok(HbMessageOutcome::Handled(actions))
                            && follows_consensus(
                            step,
                            old(e).message_counter as int,
                            old(e).network_info.unwrap(),
                            actions,
                        )
                        &&& final(e).message_counter == old(e).message_counter
                            + step.messages.len()
                    },
                }
            }
        },
{
    if let Ok(HbMessageOutcome::Handled(actions)) = result {
        let current = old(e).in_current_epoch(client.unwrap()).unwrap();
        let (_, handled) = consensus_handled(current, sender, message);
        lemma_consensus_followed(
            handled.unwrap(),
            old(e).message_counter,
            old(e).network_info.unwrap(),
            actions,
        );
    }
}

/// Whether the answer of the consensus algorithm to a proposal was followed.
pub open spec fn follows_proposal(
    before: HoneyBadgerBFT,
    after: HoneyBadgerBFT,
    proposed: Option<HbStepView>,
    outcome: ContributionOutcome,
) -> bool {
    match proposed {
        None => {
            &&& outcome is Refused
            &&& after.message_counter == before.message_counter
        },
        Some(step) => if before.message_counter + step.messages.len() > usize::MAX {
            &&& outcome is OutOfNumbers
            &&& after.message_counter == before.message_counter
        } else {
            &&& outcome matches ContributionOutcome::Proposed(actions) && follows_consensus(
                step,
                before.message_counter as int,
                before.network_info.unwrap(),
                actions,
            )
            &&& after.message_counter == before.message_counter + step.messages.len()
        },
    }
}

proof fn lemma_proposal_followed(
    before: HoneyBadgerBFT,
    after: HoneyBadgerBFT,
    proposed: Option<HbStepView>,
    outcome: ContributionOutcome,
)
    requires
        before.contributes(after, proposed, outcome),
    ensures
        follows_proposal(before, after, proposed, outcome),
{
    if let ContributionOutcome::Proposed(actions) = outcome {
        lemma_consensus_followed(
            proposed.unwrap(),
            before.message_counter,
            before.network_info.unwrap(),
            actions,
        );
    }
}

/// The answer of the consensus algorithm to a proposal is followed.
pub proof fn law_proposal_answered(
    e: &mut HoneyBadgerBFT,
    proposed: Option<HbStep>,
    outcome: ContributionOutcome,
)
    requires
        old(e).network_info is Some,
        call_ensures(HoneyBadgerBFT::contribution_proposed, (e, proposed), outcome),
    ensures
        follows_proposal(*old(e), *final(e), step_view(proposed), outcome),
        only_consensus_changed(*old(e), *final(e)),
        final(e).honey_badger == old(e).honey_badger,
{
    lemma_proposal_followed(*old(e), *final(e), step_view(proposed), outcome);
}

/// Whether a contribution was proposed to the consensus algorithm, unless the epochs are used up, and
/// its answer followed.
pub open spec fn follows_contribution(
    before: HoneyBadgerBFT,
    after: HoneyBadgerBFT,
    made: Contribution,
    outcome: ContributionOutcome,
) -> bool {
    if consensus_epoch(before.honey_badger.unwrap()) > LAST_EPOCH {
        &&& outcome is OutOfNumbers
        &&& after.honey_badger == before.honey_badger
        &&& after.message_counter == before.message_counter
    } else {
        &&& after.honey_badger is Some
        &&& exists|proposed: Option<HbStepView>| #[trigger]
            consensus_may_propose(
                before.honey_badger.unwrap(),
                made@,
                after.honey_badger.unwrap(),
                proposed,
            ) && follows_proposal(before, after, proposed, outcome)
    }
}

proof fn lemma_contribution_followed(
    before: HoneyBadgerBFT,
    after: HoneyBadgerBFT,
    made: Contribution,
    outcome: ContributionOutcome,
)
    requires
        before.proposes(after, made@, outcome),
    ensures
        follows_contribution(before, after, made, outcome),
{
    if consensus_epoch(before.honey_badger.unwrap()) <= LAST_EPOCH {
        let proposed = choose|proposed: Option<HbStepView>|
            {
                &&& #[trigger] consensus_may_propose(
                    before.honey_badger.unwrap(),
                    made@,
                    after.honey_badger.unwrap(),
                    proposed,
                )
                &&& before.contributes(after, proposed, outcome)
            };
        lemma_proposal_followed(before, after, proposed, outcome);
    }
}

/// A contribution is proposed as it is.
pub proof fn law_contribution_proposed(
    e: &mut HoneyBadgerBFT,
    made: Contribution,
    outcome: ContributionOutcome,
)
    requires
        old(e).well_formed(),
        old(e).honey_badger is Some,
        call_ensures(HoneyBadgerBFT::propose_contribution, (e, made), outcome),
    ensures
        follows_contribution(*old(e), *final(e), made, outcome),
        only_consensus_changed(*old(e), *final(e)),
{
    lemma_contribution_followed(*old(e), *final(e), made, outcome);
}

/// The contribution that is sent holds exactly the given transactions, the whole seconds on the clock
/// and random data that was drawn for it. It is proposed unless the clock says no time or the epochs
/// are used up.
pub proof fn law_contribution_sent(
    e: &mut HoneyBadgerBFT,
    transactions: Vec<Vec<u8>>,
    outcome: ContributionOutcome,
)
    requires
        old(e).well_formed(),
        old(e).honey_badger is Some,
        call_ensures(HoneyBadgerBFT::send_contribution, (e, transactions), outcome),
    ensures
        only_consensus_changed(*old(e), *final(e)),
        if consensus_epoch(old(e).honey_badger.unwrap()) > LAST_EPOCH {
            &&& outcome is OutOfNumbers
            &&& final(e).honey_badger == old(e).honey_badger
            &&& final(e).message_counter == old(e).message_counter
        } else {
            ||| {
                &&& clock_said(None)
                &&& outcome is NoTime
                &&& final(e).honey_badger == old(e).honey_badger
                &&& final(e).message_counter == old(e).message_counter
            }
            ||| exists|made: Contribution, span: Duration|
                {
                    &&& #[trigger] follows_contribution(*old(e), *final(e), made, outcome)
                    &&& made.transactions == transactions
                    &&& made.random_data@.len() == 80
                    &&& random_drawn(made.random_data)
                    &&& #[trigger] clock_said(Some(span))
                    &&& made.timestamp * 1_000_000_000 <= duration_nanos(span) < (made.timestamp
                        + 1) * 1_000_000_000
                }
        },
{
    if consensus_epoch(old(e).honey_badger.unwrap()) <= LAST_EPOCH {
        let made = choose|made: Option<Contribution>| #[trigger]
            was_made(transactions, made) && match made {
                Some(contribution) => old(e).proposes(*final(e), contribution@, outcome),
                None => {
                    &&& outcome is NoTime
                    &&& final(e).honey_badger == old(e).honey_badger
                    &&& final(e).message_counter == old(e).message_counter
                },
            };
        crate::contribution::law_contribution_is_fresh(transactions, made);
        if let Some(contribution) = made {
            lemma_contribution_followed(*old(e), *final(e), contribution, outcome);
            let span = choose|span: Duration| #[trigger]
                clock_said(Some(span)) && contribution.timestamp * 1_000_000_000 <= duration_nanos(
                    span,
                ) < (contribution.timestamp + 1) * 1_000_000_000;
            assert(follows_contribution(*old(e), *final(e), contribution, outcome));
            assert(clock_said(Some(span)));
        }
    }
}

/// It is time for a block exactly from the minimum block time after the latest one on, and with no
/// fewer transactions in the queue than trigger one.
pub proof fn law_thresholds(e: HoneyBadgerBFT, chain: ChainState, now: u64, reached: bool)
    requires
        chain.latest_timestamp matches Some(timestamp) ==> timestamp + e.options.minimum_block_time
            <= u64::MAX,
        call_ensures(
            HoneyBadgerBFT::transaction_queue_and_time_thresholds_reached_at,
            (&e, chain, now),
            reached,
        ),
    ensures
        chain.latest_timestamp is None ==> !reached,
        chain.latest_timestamp matches Some(timestamp) ==> {
            &&& now < timestamp + e.options.minimum_block_time ==> !reached
            &&& chain.queued_transactions < e.options.transaction_queue_size_trigger ==> !reached
            &&& now >= timestamp + e.options.minimum_block_time && chain.queued_transactions
                >= e.options.transaction_queue_size_trigger ==> reached
        },
{
}

/// With more transactions in the queue, and at a later time, it is no less time for a block.
pub proof fn law_thresholds_stay_reached(
    e: HoneyBadgerBFT,
    chain: ChainState,
    now: u64,
    reached: bool,
    queued_transactions: usize,
    later: u64,
    still: bool,
)
    requires
        chain.latest_timestamp matches Some(timestamp) ==> timestamp + e.options.minimum_block_time
            <= u64::MAX,
        chain.queued_transactions <= queued_transactions,
        now <= later,
        call_ensures(
            HoneyBadgerBFT::transaction_queue_and_time_thresholds_reached_at,
            (&e, chain, now),
            reached,
        ),
        call_ensures(
            HoneyBadgerBFT::transaction_queue_and_time_thresholds_reached_at,
            (&e, ChainState { queued_transactions, ..chain }, later),
            still,
        ),
    ensures
        reached ==> still,
{
}

/// Whether it is time for a block at a time.
pub open spec fn is_block_due(e: HoneyBadgerBFT, chain: ChainState, now: u64) -> bool {
    &&& chain.latest_timestamp is Some
    &&& chain.latest_timestamp.unwrap() + e.options.minimum_block_time <= now
    &&& e.options.transaction_queue_size_trigger <= chain.queued_transactions
}

/// Whether it is time for a block goes by the clock. Without a latest block it is not, whatever the
/// clock says.
pub proof fn law_thresholds_by_clock(e: HoneyBadgerBFT, chain: ChainState, reached: Option<bool>)
    requires
        chain.latest_timestamp matches Some(timestamp) ==> timestamp + e.options.minimum_block_time
            <= u64::MAX,
        call_ensures(
            HoneyBadgerBFT::transaction_queue_and_time_thresholds_reached,
            (&e, chain),
            reached,
        ),
    ensures
        chain.latest_timestamp is None ==> reached == Some(false),
        chain.latest_timestamp is Some ==> match reached {
            Some(r) => exists|now: u64| #[trigger]
                is_now_secs(Some(now)) && r == is_block_due(e, chain, now),
            None => is_now_secs(None),
        },
{
    if chain.latest_timestamp is Some && reached is Some {
        let now = choose|now: u64| #[trigger]
            is_now_secs(Some(now)) && reached.unwrap() == e.thresholds_reached(chain, now);
        assert(is_now_secs(Some(now)) && reached.unwrap() == is_block_due(e, chain, now));
    }
}

/// Whether imported transactions were followed by the right decision, at a time: if a block is due,
/// the current epoch is started, with a contribution unless one was made.
pub open spec fn follows_import(
    before: HoneyBadgerBFT,
    after: HoneyBadgerBFT,
    client: Option<ChainState>,
    now: u64,
    contribute: bool,
) -> bool {
    if client is Some && is_block_due(before, client.unwrap(), now) {
        &&& after.honey_badger == current_consensus(before, client.unwrap().latest_number)
        &&& contribute <==> (after.honey_badger matches Some(consensus) && !consensus_has_input(
            consensus,
        ))
    } else {
        &&& after.honey_badger == before.honey_badger
        &&& !contribute
    }
}

/// Imported transactions start an epoch exactly if a block is due.
pub proof fn law_transactions_imported(
    e: &mut HoneyBadgerBFT,
    client: Option<ChainState>,
    now: u64,
    contribute: bool,
)
    requires
        old(e).well_formed(),
        client matches Some(chain) ==> {
            &&& chain.latest_number matches Some(number) ==> number < LAST_EPOCH
            &&& chain.latest_timestamp matches Some(timestamp) ==> timestamp
                + old(e).options.minimum_block_time <= u64::MAX
        },
        call_ensures(HoneyBadgerBFT::on_transactions_imported_at, (e, client, now), contribute),
    ensures
        follows_import(*old(e), *final(e), client, now, contribute),
        final(e).message_counter == old(e).message_counter,
        only_consensus_changed(*old(e), *final(e)),
{
}

/// Imported transactions start an epoch exactly if a block is due by the clock. Without a client or a
/// latest block none is.
pub proof fn law_transactions_imported_by_clock(
    e: &mut HoneyBadgerBFT,
    client: Option<ChainState>,
    contribute: Option<bool>,
)
    requires
        old(e).well_formed(),
        client matches Some(chain) ==> {
            &&& chain.latest_number matches Some(number) ==> number < LAST_EPOCH
            &&& chain.latest_timestamp matches Some(timestamp) ==> timestamp
                + old(e).options.minimum_block_time <= u64::MAX
        },
        call_ensures(HoneyBadgerBFT::on_transactions_imported, (e, client), contribute),
    ensures
        final(e).message_counter == old(e).message_counter,
        only_consensus_changed(*old(e), *final(e)),
        if client matches Some(chain) && chain.latest_timestamp is Some {
            match contribute {
                Some(c) => exists|now: u64| #[trigger]
                    is_now_secs(Some(now)) && follows_import(*old(e), *final(e), client, now, c),
                None => is_now_secs(None) && final(e).honey_badger == old(e).honey_badger,
            }
        } else {
            contribute == Some(false) && final(e).honey_badger == old(e).honey_badger
        },
{
    if client matches Some(chain) && chain.latest_timestamp is Some && contribute is Some {
        let c = contribute.unwrap();
        let now = choose|now: u64| #[trigger]
            is_now_secs(Some(now)) && old(e).imports(*final(e), client, now, c);
        assert(is_now_secs(Some(now)) && follows_import(*old(e), *final(e), client, now, c));
    }
    if !(client matches Some(chain) && chain.latest_timestamp is Some) {
        let now = choose|now: u64| #[trigger] old(e).imports(*final(e), client, now, false);
        assert(old(e).imports(*final(e), client, now, false));
    }
}

/// The node becomes a validator exactly if there is a client, a key and a signer, and the configured
/// network is ready: then it is in that network, with a consensus algorithm for it that starts in the
/// first epoch. Otherwise its network and its consensus algorithm stay as they were. The key is set
/// whenever it is configured.
pub proof fn law_engine_set_up(
    e: &mut HoneyBadgerBFT,
    client: Option<&HbbftOptions>,
    signer: Option<NodeId>,
    outcome: InitOutcome,
)
    requires
        old(e).well_formed(),
        call_ensures(HoneyBadgerBFT::try_init_honey_badger, (e, client, signer), outcome),
    ensures
        outcome is NoClient <==> client is None,
        client matches Some(options) ==> {
            &&& outcome is UnreadableKeySet <==> configured_key(*options) is Unreadable
            &&& outcome is NoSigner <==> configured_key(*options) is Key && signer is None
            &&& configured_key(*options) is NoKeys ==> outcome is NoKeys
            &&& configured_key(*options) matches MasterKey::Key(key) ==> {
                &&& final(e).public_master_key == Some(key)
                &&& signer matches Some(id) ==> match configured_network(*options, id) {
                    NetworkSetup::Ready(netinfo) => {
                        &&& outcome is Validator
                        &&& final(e).network_info == Some(netinfo)
                        &&& final(e).honey_badger == Some(consensus_at(netinfo, 0))
                    },
                    NetworkSetup::Incomplete => outcome is RegularNode,
                    NetworkSetup::NoValidators => outcome is NoValidators,
                    NetworkSetup::NoKeys => outcome is NoKeys,
                }
            }
            &&& !(configured_key(*options) is Key) ==> final(e).public_master_key
                == old(e).public_master_key
        },
        client is None ==> final(e).public_master_key == old(e).public_master_key,
        !(outcome is Validator) ==> {
            &&& final(e).network_info == old(e).network_info
            &&& final(e).honey_badger == old(e).honey_badger
        },
        final(e).options == old(e).options,
        final(e).sealing@ == old(e).sealing@,
        final(e).message_counter == old(e).message_counter,
{
}

/// A new engine has its options, and nothing else.
pub proof fn law_new_engine(options: HoneyBadgerOptions, e: HoneyBadgerBFT, uses: bool)
    requires
        call_ensures(HoneyBadgerBFT::new, (options,), e),
        call_ensures(HoneyBadgerBFT::uses_timer, (&e,), uses),
    ensures
        e.options == options,
        e.network_info is None,
        e.honey_badger is None,
        e.public_master_key is None,
        forall|number: BlockNumber| !(#[trigger] e.sealing@.contains_key(number)),
        e.message_counter == 0,
        !uses <==> (options.is_unit_test matches Some(test) && test),
{
}

/// A new sealing process belongs to the network of the node.
pub proof fn law_new_sealing(e: HoneyBadgerBFT, sealing: Sealing)
    requires
        e.well_formed(),
        e.network_info is Some,
        call_ensures(HoneyBadgerBFT::new_sealing, (&e,), sealing),
    ensures
        sealing == Sealing::Ongoing(fresh_sign(e.network_info.unwrap())),
{
}

/// A consensus algorithm is created exactly if the configured network is ready: it starts in the first
/// epoch, and the network is remembered. Nothing else changes.
pub proof fn law_consensus_created(
    e: &mut HoneyBadgerBFT,
    options: HbbftOptions,
    our_id: NodeId,
    setup: ConsensusSetup,
)
    requires
        call_ensures(HoneyBadgerBFT::new_honey_badger, (e, &options, our_id), setup),
    ensures
        match configured_network(options, our_id) {
            NetworkSetup::Ready(netinfo) => {
                &&& setup == ConsensusSetup::Created(consensus_at(netinfo, 0))
                &&& final(e).network_info == Some(netinfo)
            },
            NetworkSetup::Incomplete => setup is Incomplete && final(e).network_info
                == old(e).network_info,
            NetworkSetup::NoValidators => setup is NoValidators && final(e).network_info
                == old(e).network_info,
            NetworkSetup::NoKeys => setup is NoKeys && final(e).network_info
                == old(e).network_info,
        },
        setup matches ConsensusSetup::Created(consensus) ==> {
            &&& consensus_epoch(consensus) == 0
            &&& consensus_received(consensus) == 0
            &&& consensus_has_input(consensus) <==> !network_ids(
                final(e).network_info.unwrap(),
            ).contains(network_our_id(final(e).network_info.unwrap()))
        },
        final(e).options == old(e).options,
        final(e).honey_badger == old(e).honey_badger,
        final(e).public_master_key == old(e).public_master_key,
        final(e).sealing@ == old(e).sealing@,
        final(e).message_counter == old(e).message_counter,
{
}

/// The engine has its name, one seal field, and blocks that the miner does not prepare.
pub proof fn law_engine_constants(name: &'static str, fields: usize, prepare: bool)
    requires
        call_ensures(HoneyBadgerBFT::name, (), name),
        call_ensures(HoneyBadgerBFT::seal_fields, (), fields),
        call_ensures(HoneyBadgerBFT::should_miner_prepare_blocks, (), prepare),
    ensures
        name@ == "HoneyBadgerBFT"@,
        fields == 1,
        !prepare,
{
}

} // verus!
