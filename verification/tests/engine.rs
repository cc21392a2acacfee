//! The engine, with the real consensus algorithm and threshold signatures.

use ethereum_types::H512;
use hbbft::crypto::poly::Poly;
use hbbft::crypto::serde_impl::SerdeSecret;
use hbbft::crypto::{PublicKeySet, Signature};
use hbbft::NetworkInfo;
use hbbft_node::consensus::{HbStep, LAST_EPOCH};
use hbbft_node::contribution::{Contribution, RANDOM_BYTES_PER_EPOCH};
use hbbft_node::hbbft_engine::{
    BlockError, BlockOutcome, ChainState, ConsensusMessage, ContributionOutcome, Dispatch,
    EngineError, HbMessageOutcome, HoneyBadgerBFT, IncomingMessage, InitOutcome, Output, Seal,
    SealingMessageOutcome, SealingState, StepActions, TargetedMessage,
};
use hbbft_node::hbbft_params::{Hbbft, HbbftParams};
use hbbft_node::network::{
    is_usable, new_network_info, public_master_key, HbbftOptions, MasterKey, NetworkSetup,
};
use hbbft_node::sealing::{
    is_signature_sized, RlpSig, SealDecodeError, Sealing, Target, SIGNATURE_SIZE,
};
use hbbft_node::types::{NodeId, H256};
use rlp::{Rlp, RlpStream};
use std::collections::BTreeMap;

fn params() -> HbbftParams {
    let hbbft = Hbbft {
        params: HbbftParams {
            minimum_block_time: 0,
            transaction_queue_size_trigger: 1,
            is_unit_test: Some(true),
        },
    };
    hbbft.params
}

fn node(number: u8) -> NodeId {
    let mut id = [0u8; 64];
    id[0] = number;
    id
}

fn networks(number: u8) -> BTreeMap<H512, NetworkInfo<H512>> {
    let mut rng = rand::thread_rng();
    let ids: Vec<H512> = (0..number).map(|i| H512(node(i))).collect();
    NetworkInfo::generate_map(ids, &mut rng)
        .expect("NetworkInfo generation is expected to always succeed")
}

fn serialize_netinfo(net_info: &NetworkInfo<H512>) -> HbbftOptions {
    let ips_map: BTreeMap<H512, String> =
        net_info.all_ids().map(|id| (*id, "127.0.0.1".to_string())).collect();
    let wrapper = SerdeSecret(net_info.secret_key_share().unwrap());
    HbbftOptions {
        hbbft_our_id: serde_json::to_string(net_info.our_id()).unwrap(),
        hbbft_secret_share: serde_json::to_string(&wrapper).unwrap(),
        hbbft_public_key_set: serde_json::to_string(net_info.public_key_set()).unwrap(),
        hbbft_validator_ip_addresses: serde_json::to_string(&ips_map).unwrap(),
    }
}

fn validator(net_info: &NetworkInfo<H512>) -> HoneyBadgerBFT {
    let mut engine = HoneyBadgerBFT::new(params());
    let options = serialize_netinfo(net_info);
    let outcome = engine.try_init_honey_badger(Some(&options), Some(net_info.our_id().0));
    assert!(matches!(outcome, InitOutcome::Validator));
    engine
}

fn validators(number: u8) -> Vec<HoneyBadgerBFT> {
    networks(number).values().map(validator).collect()
}

/// A transaction that creates a contract: nonce, gas price, gas, no recipient, value, data, and a
/// signature.
fn create_transaction() -> Vec<u8> {
    let mut stream = RlpStream::new_list(9);
    stream.append(&0u8).append(&0u8).append(&100_000u32).append(&"").append(&0u8);
    stream.append(&vec![0x33u8, 0x31, 0x60, 0x00, 0x55]);
    stream.append(&27u8).append(&rand::random::<u64>()).append(&rand::random::<u64>());
    stream.out()
}

fn hash(number: u8) -> H256 {
    H256([number; 32])
}

#[test]
fn test_rlp_signature() {
    let sig: Signature = rand::random();
    let encoded = RlpSig(&sig).rlp_append();
    assert!(is_signature_sized(&encoded));
    let decoded: RlpSig<Signature> = RlpSig::decode(&encoded).expect("decode RlpSignature");
    assert_eq!(decoded.0, sig);
}

#[test]
fn rlp_signature_has_a_header() {
    let sig: Signature = rand::random();
    let encoded = RlpSig(&sig).rlp_append();
    assert_eq!(encoded.len(), 2 + SIGNATURE_SIZE);
    assert_eq!(&encoded[..2], &[0xb8, 0x60]);
    assert_eq!(&encoded[2..], &sig.to_bytes()[..]);
}

#[test]
fn rlp_errors() {
    assert!(matches!(RlpSig::decode(&[]), Err(SealDecodeError::Rlp(_))));
    let sig: Signature = rand::random();
    let mut encoded = RlpSig(&sig).rlp_append();
    encoded.push(0);
    assert_eq!(RlpSig::decode(&encoded).unwrap().0, sig);
    assert_eq!(RlpSig::decode(&encoded).unwrap().0.to_bytes().to_vec(), encoded[2..98].to_vec());
    encoded.truncate(97);
    assert!(is_signature_sized(&encoded));
    assert!(matches!(
        RlpSig::decode(&encoded),
        Err(SealDecodeError::Rlp(rlp::DecoderError::RlpIsTooShort))
    ));
    let wrong = rlp::encode(&vec![0xffu8; 96]);
    assert!(is_signature_sized(&wrong));
    assert!(matches!(RlpSig::decode(&wrong), Err(SealDecodeError::InvalidSignature)));
    let text = "RLP bytes don't encode a valid signature";
    assert_eq!(RlpSig::decode(&wrong).unwrap_err().custom(), Some(text));
    assert_eq!(RlpSig::decode(&[]).unwrap_err().custom(), None);
    assert!(!is_signature_sized(&rlp::encode(&vec![1u8; 95])));
    assert!(!is_signature_sized(&[0x05]));
}

#[test]
fn test_contribution_serialization() {
    let mut pending: Vec<Vec<u8>> = Vec::new();
    pending.push(create_transaction());
    let contribution = Contribution::new(pending.clone()).expect("Time not available");

    let deser_txns: Vec<_> = contribution
        .transactions
        .iter()
        .filter(|ser_txn| Rlp::new(ser_txn).item_count() == Ok(9))
        .filter(|ser_txn| Rlp::new(ser_txn).val_at::<u32>(2) == Ok(100_000))
        .collect();

    assert_eq!(pending.len(), deser_txns.len());
    assert_eq!(pending.iter().nth(0).unwrap(), deser_txns[0]);
}

#[test]
fn contribution_has_random_data() {
    let one = Contribution::new(Vec::new()).unwrap();
    let other = Contribution::new(Vec::new()).unwrap();
    assert_eq!(one.random_data.len(), RANDOM_BYTES_PER_EPOCH);
    assert_eq!(one.random_data.len(), 80);
    assert_ne!(one.random_data, other.random_data);
    assert!(one.timestamp > 1_500_000_000);
    let made = Contribution::from_parts(vec![vec![1]], 2, vec![3; 80]);
    assert_eq!((&made.transactions, made.timestamp), (&vec![vec![1]], 2));
    assert_eq!(Contribution::made_at(vec![vec![1]], Some(2), vec![3; 80]), Some(made));
    assert_eq!(Contribution::made_at(vec![vec![1]], None, vec![3; 80]), None);
}

#[test]
fn test_single_contribution() {
    let net_infos = networks(1);
    let net_info = net_infos
        .get(&H512(node(0)))
        .expect("A NetworkInfo must exist for node 0");
    let mut engine = validator(net_info);

    let mut pending: Vec<Vec<u8>> = Vec::new();
    pending.push(create_transaction());
    assert!(engine.start_hbbft_epoch(None));

    let actions = match engine.send_contribution(pending.clone()) {
        ContributionOutcome::Proposed(actions) => actions,
        other => {
            panic!("Since there is only one validator we expect an immediate result: {:?}", other)
        }
    };

    // Assure the contribution returned by HoneyBadger matches the input
    match actions.output {
        Output::Block(block) => {
            assert_eq!(block.epoch, 0);
            assert_eq!(block.transactions, pending);
            assert!(block.timestamp > 1_500_000_000);
        }
        other => panic!("expected a block, got {:?}", other),
    }
}

#[test]
fn single_validator_seals_a_block() {
    let net_infos = networks(1);
    let mut engine = validator(&net_infos[&H512(node(0))]);
    assert_eq!(engine.sealing_state(Some(Some(0))), SealingState::NotReady);
    match engine.block_created(Some((1, hash(7)))) {
        BlockOutcome::Sealing(actions) => assert!(actions.update_sealing),
        other => panic!("expected a seal, got {:?}", other),
    }
    assert_eq!(engine.sealing_state(None), SealingState::NotReady);
    assert_eq!(engine.sealing_state(Some(None)), SealingState::NotReady);
    assert_eq!(engine.sealing_state(Some(Some(0))), SealingState::Ready);
    let fields = match engine.generate_seal(1, &hash(7)) {
        Seal::Regular(fields) => fields,
        Seal::Absent => panic!("expected a seal"),
    };
    assert_eq!(fields.len(), HoneyBadgerBFT::seal_fields());
    assert!(engine.verify_block_basic(&fields, &hash(7)).is_ok());
    assert!(matches!(
        engine.verify_block_basic(&fields, &hash(8)),
        Err(BlockError::InvalidSeal)
    ));
    assert_eq!(engine.generate_seal(1, &hash(8)), Seal::Absent);
    assert_eq!(engine.generate_seal(2, &hash(7)), Seal::Absent);
    assert_eq!(engine.sealing_state(Some(Some(1))), SealingState::NotReady);
    assert!(engine.sealing.is_empty());
    assert_eq!(engine.generate_seal(1, &hash(7)), Seal::Absent);
}

#[test]
fn seals_are_verified() {
    let net_infos = networks(1);
    let engine = validator(&net_infos[&H512(node(0))]);
    assert!(matches!(
        engine.verify_block_basic(&Vec::new(), &hash(1)),
        Err(BlockError::InvalidSeal)
    ));
    assert!(matches!(
        engine.verify_block_basic(&vec![Vec::new(), Vec::new()], &hash(1)),
        Err(BlockError::InvalidSeal)
    ));
    assert!(matches!(
        engine.verify_block_basic(&vec![Vec::new()], &hash(1)),
        Err(BlockError::Decoder(SealDecodeError::Rlp(_)))
    ));
    let verdict = |engine: &HoneyBadgerBFT, field: Vec<u8>| {
        engine.try_verify_block_basic(&vec![field], &hash(1))
    };
    assert!(verdict(&engine, rlp::encode(&vec![1u8; 95])).is_none());
    assert!(matches!(verdict(&engine, Vec::new()), Some(Err(BlockError::Decoder(_)))));
    let sig: Signature = rand::random();
    let encoded = RlpSig(&sig).rlp_append();
    assert!(matches!(verdict(&engine, encoded.clone()), Some(Err(BlockError::InvalidSeal))));
    let newcomer = HoneyBadgerBFT::new(params());
    assert!(verdict(&newcomer, encoded).is_none());
    let wrong = rlp::encode(&vec![0xffu8; 96]);
    assert!(matches!(
        verdict(&newcomer, wrong),
        Some(Err(BlockError::Decoder(SealDecodeError::InvalidSignature)))
    ));
    assert!(matches!(
        newcomer.try_verify_block_basic(&Vec::new(), &hash(1)),
        Some(Err(BlockError::InvalidSeal))
    ));
    assert!(matches!(
        engine.verify_block_basic(&vec![RlpSig(&sig).rlp_append()], &hash(1)),
        Err(BlockError::InvalidSeal)
    ));
}

/// The validators of a network, and the messages that are on their way.
struct Chain {
    engines: Vec<HoneyBadgerBFT>,
    messages: Vec<(NodeId, NodeId, Vec<u8>, Vec<u8>)>,
    ready: Vec<bool>,
    blocks: Vec<Option<(Vec<Vec<u8>>, u64)>>,
}

/// A message as two texts, one for each of the ways in which it can be written.
fn write(message: &ConsensusMessage) -> (Vec<u8>, Vec<u8>) {
    match message {
        ConsensusMessage::HoneyBadger(idx, message) => {
            (serde_json::to_vec(&(idx, message)).unwrap(), Vec::new())
        }
        ConsensusMessage::Sealing(block_num, message) => {
            (Vec::new(), serde_json::to_vec(&(block_num, message)).unwrap())
        }
    }
}

fn parse(message: &[u8], seal: &[u8]) -> Option<ConsensusMessage> {
    if let Ok((idx, message)) = serde_json::from_slice(message) {
        return Some(ConsensusMessage::HoneyBadger(idx, message));
    }
    match serde_json::from_slice(seal) {
        Ok((block_num, message)) => Some(ConsensusMessage::Sealing(block_num, message)),
        Err(_) => None,
    }
}

impl Chain {
    fn new(number: u8) -> Chain {
        Chain {
            engines: validators(number),
            messages: Vec::new(),
            ready: vec![false; number as usize],
            blocks: vec![None; number as usize],
        }
    }

    fn send(&mut self, from: usize, dispatches: Vec<Dispatch>) {
        for dispatch in dispatches {
            let (message, seal) = write(&dispatch.message);
            for recipient in dispatch.recipients {
                assert_ne!(recipient, node(from as u8));
                self.messages.push((
                    node(from as u8),
                    recipient,
                    message.clone(),
                    seal.clone(),
                ));
            }
        }
    }

    fn act(&mut self, from: usize, actions: StepActions) {
        self.send(from, actions.dispatches);
        match actions.output {
            Output::Nothing => {}
            Output::Block(block) => {
                assert_eq!(block.epoch, 1);
                self.blocks[from] = Some((block.transactions, block.timestamp));
                match self.engines[from].block_created(Some((1, hash(1)))) {
                    BlockOutcome::Sealing(seal) => {
                        self.ready[from] = self.ready[from] || seal.update_sealing;
                        self.send(from, seal.dispatches);
                    }
                    other => panic!("expected a signature share, got {:?}", other),
                }
            }
            Output::NoContributions => panic!("expected contributions"),
        }
    }

    fn contribute(&mut self, from: usize, transaction: Vec<u8>) {
        match self.engines[from].send_contribution(vec![transaction]) {
            ContributionOutcome::Proposed(actions) => self.act(from, actions),
            other => panic!("expected a contribution, got {:?}", other),
        }
    }

    fn deliver(&mut self, from: NodeId, to: usize, message: &[u8], seal: &[u8]) {
        match HoneyBadgerBFT::handle_message(Some(from), parse(message, seal)).unwrap() {
            IncomingMessage::HoneyBadger(idx, message, sender) => {
                assert!(idx > 0);
                match self.engines[to].process_hb_message(Some(Some(0)), message, sender).unwrap() {
                    HbMessageOutcome::Handled(actions) => {
                        self.act(to, actions);
                        if self.engines[to].join_hbbft_epoch() {
                            self.contribute(to, vec![to as u8]);
                        }
                    }
                    other => panic!("expected a step, got {:?}", other),
                }
            }
            IncomingMessage::Sealing(message, sender, block_num) => {
                assert_eq!(block_num, 1);
                let result = self.engines[to].process_sealing_message(
                    Some(Some(0)),
                    message,
                    sender,
                    block_num,
                );
                match result.unwrap() {
                    SealingMessageOutcome::Handled(seal) => {
                        self.ready[to] = self.ready[to] || seal.update_sealing;
                        self.send(to, seal.dispatches);
                    }
                    other => panic!("expected a step, got {:?}", other),
                }
            }
        }
    }
}

#[test]
fn network_agrees_on_a_sealed_block() {
    let mut chain = Chain::new(4);
    // The epoch is started by two validators, so that the others have to join it.
    for from in 0..2 {
        let state = ChainState {
            latest_number: Some(0),
            latest_timestamp: Some(5),
            queued_transactions: 1,
        };
        assert!(chain.engines[from].on_transactions_imported_at(Some(state), 6));
        chain.contribute(from, vec![from as u8]);
    }
    while !chain.messages.is_empty() {
        let (from, to, message, seal) = chain.messages.remove(0);
        chain.deliver(from, to[0] as usize, &message, &seal);
    }
    assert_eq!(chain.ready, vec![true; 4]);
    let block = chain.blocks[0].clone().expect("a block was agreed on");
    assert!(block.0.len() >= 3);
    let mut seals = Vec::new();
    for i in 0..4 {
        assert_eq!(chain.blocks[i], Some(block.clone()));
        assert_eq!(chain.engines[i].sealing_state(Some(Some(0))), SealingState::Ready);
        match chain.engines[i].generate_seal(1, &hash(1)) {
            Seal::Regular(fields) => seals.push(fields),
            Seal::Absent => panic!("expected a seal"),
        }
    }
    for engine in &chain.engines {
        for seal in &seals {
            assert!(engine.verify_block_basic(seal, &hash(1)).is_ok());
            assert!(engine.verify_block_basic(seal, &hash(2)).is_err());
        }
    }
}

#[test]
fn epoch_follows_the_chain() {
    let mut engine = validators(1).remove(0);
    assert!(engine.start_hbbft_epoch(Some(41)));
    match engine.send_contribution(vec![vec![1]]) {
        ContributionOutcome::Proposed(StepActions { output: Output::Block(block), .. }) => {
            assert_eq!(block.epoch, 42)
        }
        other => panic!("expected a block, got {:?}", other),
    }
    // The algorithm has moved on by itself, and does not go back.
    assert!(engine.start_hbbft_epoch(Some(10)));
    match engine.send_contribution(vec![vec![1]]) {
        ContributionOutcome::Proposed(StepActions { output: Output::Block(block), .. }) => {
            assert_eq!(block.epoch, 43)
        }
        other => panic!("expected a block, got {:?}", other),
    }
}

#[test]
fn observer_makes_no_contribution() {
    let net_infos = networks(4);
    let options = serialize_netinfo(&net_infos[&H512(node(0))]);
    let mut observer = HoneyBadgerBFT::new(params());
    let outcome = observer.try_init_honey_badger(Some(&options), Some(node(9)));
    assert!(matches!(outcome, InitOutcome::Validator));
    assert!(!observer.start_hbbft_epoch(None));
    assert!(!observer.start_hbbft_epoch(Some(41)));
    assert!(!observer.join_hbbft_epoch());
    let mut validator = validator(&net_infos[&H512(node(0))]);
    assert!(validator.start_hbbft_epoch(None));
    assert!(validator.start_hbbft_epoch(Some(41)));
    assert!(!validator.join_hbbft_epoch());
}

#[test]
fn epochs_run_out() {
    let mut engine = validators(1).remove(0);
    engine.skip_to_current_epoch(Some(LAST_EPOCH - 1));
    assert!(matches!(
        engine.send_contribution(Vec::new()),
        ContributionOutcome::Proposed(_)
    ));
    assert!(matches!(
        engine.send_contribution(Vec::new()),
        ContributionOutcome::OutOfNumbers
    ));
}

#[test]
fn proposed_contribution_comes_back() {
    let mut engine = validators(1).remove(0);
    let made = Contribution::from_parts(vec![vec![1], vec![2]], 77, vec![3; 80]);
    match engine.propose_contribution(made) {
        ContributionOutcome::Proposed(StepActions { output: Output::Block(block), .. }) => {
            assert_eq!(block.transactions, vec![vec![1], vec![2]]);
            assert_eq!(block.timestamp, 77);
            assert_eq!(block.epoch, 0);
        }
        other => panic!("expected a block, got {:?}", other),
    }
}

#[test]
fn answers_to_a_proposal() {
    let (mut engines, step, _) = foreign_messages();
    let engine = &mut engines[0];
    let message = match step {
        ConsensusMessage::HoneyBadger(_, message) => message,
        _ => panic!("expected a consensus message"),
    };
    let answer = |number: usize| HbStep {
        output: Vec::new(),
        messages: vec![(Target::Nodes(vec![node(2)]), message.clone()); number],
    };
    assert!(matches!(engine.contribution_proposed(None), ContributionOutcome::Refused));
    assert_eq!(engine.message_counter, 0);
    match engine.contribution_proposed(Some(answer(2))) {
        ContributionOutcome::Proposed(actions) => {
            assert_eq!(actions.dispatches.len(), 2);
            assert_eq!(actions.dispatches[1].recipients, vec![node(2)]);
            assert!(matches!(
                actions.dispatches[1].message,
                ConsensusMessage::HoneyBadger(2, _)
            ));
        }
        other => panic!("expected messages, got {:?}", other),
    }
    assert_eq!(engine.message_counter, 2);
    engine.message_counter = usize::max_value() - 1;
    assert!(matches!(
        engine.contribution_proposed(Some(answer(2))),
        ContributionOutcome::OutOfNumbers
    ));
    assert_eq!(engine.message_counter, usize::max_value() - 1);
}

#[test]
fn contribution_is_made_once_per_epoch() {
    let mut engine = validators(4).remove(0);
    assert!(engine.start_hbbft_epoch(Some(0)));
    assert!(!engine.join_hbbft_epoch());
    let actions = match engine.send_contribution(vec![vec![1]]) {
        ContributionOutcome::Proposed(actions) => actions,
        other => panic!("expected a contribution, got {:?}", other),
    };
    assert!(matches!(actions.output, Output::Nothing));
    assert!(!engine.start_hbbft_epoch(Some(0)));
    assert!(!engine.join_hbbft_epoch());
    // Messages are numbered one after the other.
    let count = actions.dispatches.len();
    assert!(count > 0);
    assert_eq!(engine.message_counter, count);
    for (i, dispatch) in actions.dispatches.iter().enumerate() {
        match dispatch.message {
            ConsensusMessage::HoneyBadger(idx, _) => assert_eq!(idx, i + 1),
            _ => panic!("expected a consensus message"),
        }
    }
}

#[test]
fn initialization_outcomes() {
    let net_infos = networks(1);
    let net_info = &net_infos[&H512(node(0))];
    let options = serialize_netinfo(net_info);
    let mut engine = HoneyBadgerBFT::new(params());
    assert!(!engine.uses_timer());
    assert!(matches!(
        engine.try_init_honey_badger(None, Some(node(0))),
        InitOutcome::NoClient
    ));
    assert!(engine.public_master_key.is_none());
    let broken = HbbftOptions { hbbft_public_key_set: "{}".into(), ..options.clone() };
    assert!(matches!(
        engine.try_init_honey_badger(Some(&broken), Some(node(0))),
        InitOutcome::UnreadableKeySet
    ));
    assert!(engine.public_master_key.is_none());
    assert!(matches!(
        engine.try_init_honey_badger(Some(&options), None),
        InitOutcome::NoSigner
    ));
    assert_eq!(engine.public_master_key, Some(net_info.public_key_set().public_key()));
    let expected = net_info.public_key_set().public_key();
    assert!(matches!(public_master_key(&options), MasterKey::Key(key) if key == expected));
    assert!(matches!(public_master_key(&broken), MasterKey::Unreadable));
    let regular = HbbftOptions { hbbft_secret_share: "".into(), ..options.clone() };
    assert!(matches!(
        engine.try_init_honey_badger(Some(&regular), Some(node(0))),
        InitOutcome::RegularNode
    ));
    let deserted = HbbftOptions { hbbft_validator_ip_addresses: "{}".into(), ..options.clone() };
    assert!(matches!(
        engine.try_init_honey_badger(Some(&deserted), Some(node(0))),
        InitOutcome::NoValidators
    ));
    let keyless = HbbftOptions {
        hbbft_public_key_set: "{\"commit\":{\"coeff\":[]}}".into(),
        ..options.clone()
    };
    assert!(matches!(public_master_key(&keyless), MasterKey::NoKeys));
    assert!(matches!(new_network_info(&keyless, node(0)), NetworkSetup::NoKeys));
    assert!(matches!(
        engine.try_init_honey_badger(Some(&keyless), Some(node(0))),
        InitOutcome::NoKeys
    ));
    assert!(engine.honey_badger.is_none());
    assert!(engine.network_info.is_none());
    assert!(matches!(
        engine.try_init_honey_badger(Some(&options), Some(node(0))),
        InitOutcome::Validator
    ));
    assert!(engine.honey_badger.is_some());
}

#[test]
fn network_is_read_from_the_configuration() {
    let net_infos = networks(5);
    let options = serialize_netinfo(&net_infos[&H512(node(2))]);
    match new_network_info(&options, node(2)) {
        NetworkSetup::Ready(netinfo) => {
            assert_eq!(netinfo.our_id(), &H512(node(2)));
            let ids: Vec<_> = netinfo.all_ids().cloned().collect();
            let expected: Vec<_> = (0..5).map(|i| H512(node(i))).collect();
            assert_eq!(ids, expected);
            assert_eq!(netinfo.num_faulty(), 1);
            assert!(netinfo.is_validator());
            assert_eq!(
                netinfo.secret_key_share(),
                net_infos[&H512(node(2))].secret_key_share()
            );
        }
        _ => panic!("expected a network"),
    }
}

#[test]
fn messages_are_refused() {
    assert_eq!(
        HoneyBadgerBFT::handle_message(None, None).unwrap_err(),
        EngineError::UnexpectedMessage
    );
    assert_eq!(
        HoneyBadgerBFT::handle_message(Some(node(1)), None).unwrap_err(),
        EngineError::MalformedMessage("Serde decoding failed.".into())
    );
}

/// A consensus message and a signature share of the second of four validators.
fn foreign_messages() -> (Vec<HoneyBadgerBFT>, ConsensusMessage, ConsensusMessage) {
    let mut engines = validators(4);
    let step = match engines[1].send_contribution(vec![vec![1]]) {
        ContributionOutcome::Proposed(mut actions) => actions.dispatches.remove(0).message,
        other => panic!("expected a contribution, got {:?}", other),
    };
    let share = match engines[1].block_created(Some((3, hash(3)))) {
        BlockOutcome::Sealing(mut seal) => seal.dispatches.remove(0).message,
        other => panic!("expected a share, got {:?}", other),
    };
    (engines, step, share)
}

#[test]
fn consensus_messages_need_a_client_and_an_engine() {
    let (mut engines, step, _) = foreign_messages();
    let message = |m: &ConsensusMessage| match m {
        ConsensusMessage::HoneyBadger(_, message) => message.clone(),
        _ => panic!("expected a consensus message"),
    };
    assert_eq!(
        engines[0].process_hb_message(None, message(&step), node(1)).unwrap_err(),
        EngineError::RequiresClient
    );
    let mut regular = HoneyBadgerBFT::new(params());
    assert_eq!(
        regular.process_hb_message(Some(None), message(&step), node(1)).unwrap_err(),
        EngineError::InvalidEngine
    );
    assert!(matches!(
        engines[0].process_hb_message(Some(None), message(&step), node(9)),
        Ok(HbMessageOutcome::Refused)
    ));
    assert!(matches!(
        engines[0].process_hb_message(Some(None), message(&step), node(1)),
        Ok(HbMessageOutcome::Handled(_))
    ));
}

#[test]
fn shares_are_handled_until_the_block_is_there() {
    let (mut engines, _, share) = foreign_messages();
    let message = match &share {
        ConsensusMessage::Sealing(block_num, message) => {
            assert_eq!(*block_num, 3);
            message.clone()
        }
        _ => panic!("expected a share"),
    };
    let engine = &mut engines[0];
    assert_eq!(
        engine.process_sealing_message(None, message.clone(), node(1), 3).unwrap_err(),
        EngineError::RequiresClient
    );
    assert!(matches!(
        engine.process_sealing_message(Some(Some(3)), message.clone(), node(1), 3),
        Ok(SealingMessageOutcome::Obsolete)
    ));
    assert!(engine.sealing.is_empty());
    assert!(matches!(
        engine.process_sealing_message(Some(Some(2)), message.clone(), node(9), 3),
        Ok(SealingMessageOutcome::Refused(_))
    ));
    match engine.process_sealing_message(Some(None), message, node(1), 3) {
        Ok(SealingMessageOutcome::Handled(seal)) => {
            assert!(!seal.update_sealing);
            assert!(seal.dispatches.is_empty());
        }
        other => panic!("expected a step, got {:?}", other),
    }
    assert_eq!(engine.sealing.len(), 1);
    // Two shares of four are enough.
    match engine.block_created(Some((3, hash(3)))) {
        BlockOutcome::Sealing(seal) => {
            assert!(seal.update_sealing);
            assert_eq!(seal.dispatches.len(), 1);
            assert_eq!(seal.dispatches[0].recipients, vec![node(1), node(2), node(3)]);
        }
        other => panic!("expected a seal, got {:?}", other),
    }
    assert!(engine.sealing[&3].signature().is_some());
    assert_eq!(engine.sealing_state(Some(Some(1))), SealingState::NotReady);
    assert_eq!(engine.sealing_state(Some(Some(2))), SealingState::Ready);
    assert!(matches!(engine.block_created(None), BlockOutcome::NotCreated));
}

#[test]
fn sealing_takes_one_hash() {
    let net_infos = networks(4);
    assert!(is_usable(&net_infos[&H512(node(0))]));
    let mut sealing = Sealing::try_new(net_infos[&H512(node(0))].clone()).unwrap();
    assert!(sealing.signature().is_none());
    let step = sealing.sign(&[1; 32]).unwrap();
    assert!(step.output.is_empty());
    assert_eq!(step.messages.len(), 1);
    assert_eq!(step.messages[0].target, Target::AllExcept(Vec::new()));
    assert!(sealing.sign(&[2; 32]).is_err());
    assert!(sealing.sign(&[1; 32]).is_err());
}

#[test]
fn sealing_needs_keys() {
    let key_set = PublicKeySet::from(Poly::zero().commitment());
    let net_infos = networks(1);
    let net_info = &net_infos[&H512(node(0))];
    let keyless = NetworkInfo::new(
        H512(node(0)),
        net_info.secret_key_share().unwrap().clone(),
        key_set,
        net_info.secret_key().clone(),
        net_info.public_key_map().clone(),
    );
    assert!(!is_usable(&keyless));
    assert!(Sealing::new(keyless.clone()).signature().is_none());
    assert!(Sealing::try_new(keyless).is_none());
}

#[test]
fn complete_sealing_stays() {
    let net_infos = networks(1);
    let sig: Signature = rand::random();
    let mut sealing = Sealing::Complete(sig.clone());
    let step = sealing.sign(&[1; 32]).unwrap();
    assert!(step.output.is_empty() && step.messages.is_empty() && step.fault_log.is_empty());
    let mut other = Sealing::new(net_infos[&H512(node(0))].clone());
    let share = other.sign(&[1; 32]).unwrap();
    assert_eq!(share.output.len(), 1);
    let message = share.messages[0].message.clone();
    let step = sealing.handle_message(&node(0), message).unwrap();
    assert!(step.output.is_empty() && step.messages.is_empty() && step.fault_log.is_empty());
    assert_eq!(sealing.signature(), Some(&sig));
}

#[test]
fn wrong_share_is_a_fault() {
    let net_infos = networks(4);
    let mut first = Sealing::new(net_infos[&H512(node(0))].clone());
    let mut second = Sealing::new(net_infos[&H512(node(1))].clone());
    first.sign(&[1; 32]).unwrap();
    let mut step = second.sign(&[2; 32]).unwrap();
    let message = step.messages.remove(0).message;
    let step = first.handle_message(&node(1), message).unwrap();
    assert_eq!(step.fault_log.len(), 1);
    assert_eq!(step.fault_log[0].node_id, node(1));
    assert!(first.signature().is_none());
}

#[test]
fn messages_go_to_their_targets() {
    let net_infos = networks(4);
    let engine = validator(&net_infos[&H512(node(1))]);
    let targets = vec![
        Target::AllExcept(Vec::new()),
        Target::AllExcept(vec![node(0), node(9)]),
        Target::Nodes(vec![node(3), node(1), node(0)]),
        Target::Nodes(vec![node(1)]),
    ];
    let mut sealing = Sealing::new(net_infos[&H512(node(0))].clone());
    let message = sealing.sign(&[1; 32]).unwrap().messages.remove(0).message;
    let messages = targets
        .into_iter()
        .map(|target| TargetedMessage {
            target,
            message: ConsensusMessage::Sealing(1, message.clone()),
        })
        .collect();
    let recipients: Vec<Vec<NodeId>> =
        engine.dispatch_messages(messages).into_iter().map(|d| d.recipients).collect();
    assert_eq!(
        recipients,
        vec![
            vec![node(0), node(2), node(3)],
            vec![node(2), node(3)],
            vec![node(3), node(0)],
            vec![],
        ]
    );
    assert!(HoneyBadgerBFT::new(params()).dispatch_messages(Vec::new()).is_empty());
}

#[test]
fn thresholds() {
    let engine = HoneyBadgerBFT::new(HbbftParams {
        minimum_block_time: 10,
        transaction_queue_size_trigger: 2,
        is_unit_test: None,
    });
    assert!(engine.uses_timer());
    let chain = |latest_timestamp, queued_transactions| ChainState {
        latest_number: Some(1),
        latest_timestamp,
        queued_transactions,
    };
    let reached =
        |state, now| engine.transaction_queue_and_time_thresholds_reached_at(state, now);
    assert!(reached(chain(Some(100), 2), 110));
    assert!(!reached(chain(Some(100), 2), 109));
    assert!(!reached(chain(Some(100), 1), 110));
    assert!(!reached(chain(None, 2), 110));
    let reached = |state| engine.transaction_queue_and_time_thresholds_reached(state);
    assert_eq!(reached(chain(Some(100), 2)), Some(true));
    assert_eq!(reached(chain(Some(1 << 60), 2)), Some(false));
    assert_eq!(reached(chain(None, 2)), Some(false));
}

#[test]
fn imports_without_a_consensus() {
    let mut engine = HoneyBadgerBFT::new(params());
    let chain =
        ChainState { latest_number: Some(1), latest_timestamp: Some(1), queued_transactions: 1 };
    assert_eq!(engine.on_transactions_imported(None), Some(false));
    assert_eq!(engine.on_transactions_imported(Some(chain)), Some(false));
    assert!(!engine.on_transactions_imported_at(Some(chain), 1));
    assert!(!engine.start_hbbft_epoch(Some(1)));
    let mut engine = validators(1).remove(0);
    assert_eq!(engine.on_transactions_imported(Some(chain)), Some(true));
}

#[test]
fn engine_constants() {
    assert_eq!(HoneyBadgerBFT::name(), "HoneyBadgerBFT");
    assert_eq!(HoneyBadgerBFT::seal_fields(), 1);
    assert!(!HoneyBadgerBFT::should_miner_prepare_blocks());
}
