//! Batches, timers, parameters and the signer.

use hbbft_node::authority_round::{
    AuthorityRound, AuthorityRoundParams, StepDuration, ValidatorSet,
};
use hbbft_node::batch::{keep_present, unique_transactions, Batch};
use hbbft_node::contribution::Contribution;
use hbbft_node::engine_signer::{
    DecryptRequest, EngineSigner, PublicRequest, SignRequest, SignerError,
};
use hbbft_node::hbbft_engine::HoneyBadgerBFT;
use hbbft_node::params::{validate_non_zero, BlockGasLimitContract};
use hbbft_node::time::{
    millis_since_epoch, secs_since_epoch, took_ms, unix_now_millis, unix_now_secs,
};
use hbbft_node::transition::{TransitionHandler, ENGINE_TIMEOUT_TOKEN};
use hbbft_node::types::{is_among, same_bytes, same_node, Address, H256, U256};
use std::time::Duration;

fn contribution(transactions: Vec<Vec<u8>>, timestamp: u64) -> Contribution {
    Contribution::from_parts(transactions, timestamp, vec![0; 80])
}

fn batch(epoch: u64, timestamps: &[u64]) -> Batch {
    let contributions = timestamps
        .iter()
        .enumerate()
        .map(|(i, timestamp)| ([i as u8; 64], contribution(Vec::new(), *timestamp)))
        .collect();
    Batch { epoch, contributions }
}

#[test]
fn median_of_timestamps() {
    assert_eq!(batch(0, &[7]).timestamp(), 7);
    assert_eq!(batch(0, &[9, 7]).timestamp(), 9);
    assert_eq!(batch(0, &[9, 7, 8]).timestamp(), 8);
    assert_eq!(batch(0, &[4, 1, 3, 2]).timestamp(), 3);
    assert_eq!(batch(0, &[5, 5, 1, 9]).timestamp(), 5);
}

#[test]
fn minority_does_not_move_the_time() {
    let time = batch(0, &[100, 101, 102, u64::max_value(), 0]).timestamp();
    assert!(100 <= time && time <= 102);
}

#[test]
fn transactions_come_in_order() {
    let batch = Batch {
        epoch: 3,
        contributions: vec![
            ([1; 64], contribution(vec![vec![1], vec![2, 3]], 10)),
            ([2; 64], contribution(vec![], 20)),
            ([3; 64], contribution(vec![vec![2, 3], vec![]], 30)),
        ],
    };
    let all = vec![vec![1], vec![2, 3], vec![2, 3], vec![]];
    assert_eq!(batch.serialized_transactions(), all);
    let pending = HoneyBadgerBFT::process_output(vec![batch, Batch { epoch: 4, contributions: vec![] }]);
    let pending = pending.unwrap();
    assert_eq!(pending.transactions, all);
    assert_eq!(pending.timestamp, 20);
    assert_eq!(pending.epoch, 3);
    assert!(HoneyBadgerBFT::process_output(Vec::new()).is_none());
}

#[test]
fn transactions_are_unique() {
    let decoded =
        vec![Some(vec![1]), None, Some(vec![2]), Some(vec![1]), Some(vec![]), Some(vec![2])];
    assert_eq!(unique_transactions(decoded), vec![vec![1], vec![2], vec![]]);
    assert_eq!(keep_present(vec![Some(3), None, Some(3)]), vec![3, 3]);
}

#[test]
fn timer_waits_for_the_next_block() {
    let handler = TransitionHandler { minimum_block_time: 10 };
    let remaining = |latest, now| handler.duration_remaining_at(latest, now);
    assert_eq!(remaining(Some(100), 105_500), Duration::from_millis(4_500));
    assert_eq!(remaining(Some(100), 109_999), Duration::from_millis(1));
    assert_eq!(remaining(Some(100), 110_000), Duration::from_secs(1));
    assert_eq!(remaining(Some(100), 200_000), Duration::from_secs(1));
    assert_eq!(remaining(None, 105_500), Duration::from_secs(1));
    // More milliseconds than the timer can hold.
    assert_eq!(remaining(Some(u64::max_value() - 10), 0), Duration::from_secs(1));
}

#[test]
fn timer_stays_within_bounds() {
    let handler = TransitionHandler { minimum_block_time: 10 };
    assert_eq!(handler.initialize(), (ENGINE_TIMEOUT_TOKEN, Duration::from_secs(1)));
    assert!(handler.handles(1));
    assert!(!handler.handles(2));
    let timeout = |client, now| handler.timeout_at(client, now).1;
    assert_eq!(handler.timeout_at(None, 0).0, ENGINE_TIMEOUT_TOKEN);
    assert_eq!(timeout(None, 0), Duration::from_secs(1));
    assert_eq!(timeout(Some(None), 0), Duration::from_secs(1));
    assert_eq!(timeout(Some(Some(100)), 105_500), Duration::from_millis(4_500));
    assert_eq!(timeout(Some(Some(100)), 50_000), Duration::from_secs(10));
    let hasty = TransitionHandler { minimum_block_time: 0 };
    assert_eq!(hasty.timeout_at(Some(Some(100)), 105_500).1, Duration::from_secs(0));
}

#[test]
fn timer_uses_the_clock() {
    let handler = TransitionHandler { minimum_block_time: 10 };
    let now = unix_now_secs().unwrap();
    let span = handler.duration_remaining_since_last_block(Some(now)).unwrap();
    assert!(span > Duration::from_secs(7) && span <= Duration::from_secs(10));
    assert_eq!(handler.duration_remaining_since_last_block(None), Some(Duration::from_secs(1)));
    assert_eq!(handler.timeout(None), Some((ENGINE_TIMEOUT_TOKEN, Duration::from_secs(1))));
    let (_, span) = handler.timeout(Some(Some(now + 100))).unwrap();
    assert_eq!(span, Duration::from_secs(10));
    let (_, span) = handler.timeout(Some(Some(0))).unwrap();
    assert_eq!(span, Duration::from_secs(1));
}

#[test]
fn clocks_agree() {
    let secs = unix_now_secs().unwrap();
    let millis = unix_now_millis().unwrap();
    assert!(secs > 1_500_000_000);
    assert!(millis / 1000 >= secs as u128);
    assert!(millis / 1000 <= secs as u128 + 2);
}

#[test]
fn times_are_whole() {
    let elapsed = Some(Duration::new(1_700_000_000, 987_654_321));
    assert_eq!(secs_since_epoch(elapsed), Some(1_700_000_000));
    assert_eq!(millis_since_epoch(elapsed), Some(1_700_000_000_987));
    assert_eq!(secs_since_epoch(None), None);
    assert_eq!(millis_since_epoch(None), None);
}

#[test]
fn elapsed_milliseconds() {
    assert_eq!(took_ms(&Duration::new(2, 345_999_999)), 2345);
    assert_eq!(took_ms(&Duration::from_millis(999)), 999);
}

fn address(byte: u8) -> Address {
    Address([byte; 20])
}

fn uint(number: u64) -> U256 {
    U256([number, 0, 0, 0])
}

#[test]
fn gas_limit_contracts_by_block() {
    let single = BlockGasLimitContract::Single(address(1));
    assert!(single.fits_block_numbers());
    let by_block: Vec<_> = single.into_transitions().into_iter().collect();
    assert_eq!(by_block, vec![(0, address(1))]);
    let transitions = BlockGasLimitContract::Transitions(vec![
        (uint(10), address(0xaa)),
        (uint(20), address(0xee)),
        (uint(u64::max_value()), address(2)),
    ]);
    assert!(transitions.fits_block_numbers());
    let by_block: Vec<_> = transitions.into_transitions().into_iter().collect();
    let expected =
        vec![(10, address(0xaa)), (20, address(0xee)), (u64::max_value(), address(2))];
    assert_eq!(by_block, expected);
    let large = BlockGasLimitContract::Transitions(vec![
        (uint(10), address(0xaa)),
        (U256([0, 1, 0, 0]), address(1)),
    ]);
    assert!(!large.fits_block_numbers());
}

#[test]
#[should_panic(expected = "a non-zero value")]
fn test_zero_value_divisor() {
    validate_non_zero(uint(0)).unwrap();
}

#[test]
fn non_zero_values_are_accepted() {
    assert_eq!(validate_non_zero(uint(0x20)), Ok(uint(0x20)));
    assert_eq!(validate_non_zero(U256([0, 0, 0, 1])), Ok(U256([0, 0, 0, 1])));
}

#[test]
fn numbers() {
    assert_eq!(uint(7).as_u64(), 7);
    assert!(uint(u64::max_value()).fits_u64());
    assert!(!U256([0, 0, 1, 0]).fits_u64());
    assert!(!U256([0, 0, 1, 0]).is_zero());
    assert!(uint(0).is_zero());
}

#[test]
fn hashes_and_ids() {
    let mut bytes = [0u8; 32];
    assert!(H256(bytes).is_zero());
    bytes[31] = 1;
    assert!(!H256(bytes).is_zero());
    assert!(H256(bytes).same(&H256(bytes)));
    assert!(!H256(bytes).same(&H256([0; 32])));
    assert!(same_bytes(b"ab", b"ab"));
    assert!(!same_bytes(b"ab", b"abc"));
    assert!(!same_bytes(b"ab", b"ac"));
    assert!(same_node(&[1; 64], &[1; 64]));
    assert!(is_among(&[2; 64], &vec![[1; 64], [2; 64]]));
    assert!(!is_among(&[3; 64], &vec![[1; 64], [2; 64]]));
}

#[test]
fn authority_round_values() {
    let params = AuthorityRoundParams {
        step_duration: StepDuration::Single(uint(2)),
        validators: ValidatorSet::List(vec![address(0xc6)]),
        start_step: Some(uint(24)),
        validate_score_transition: None,
        validate_step_transition: Some(uint(150)),
        immediate_transitions: None,
        block_reward: Some(uint(5_000_000)),
        block_reward_contract_transition: None,
        block_reward_contract_address: None,
        block_reward_contract_transitions: None,
        block_reward_contract_code: None,
        maximum_uncle_count_transition: Some(uint(10_000_000)),
        maximum_uncle_count: Some(uint(5)),
        empty_steps_transition: None,
        maximum_empty_steps: None,
        strict_empty_steps_transition: None,
        two_thirds_majority_transition: None,
        randomness_contract_address: None,
        posdao_transition: None,
        block_gas_limit_contract_transitions: Some(vec![
            (uint(10), address(0x10)),
            (uint(20), address(0x20)),
        ]),
    };
    let round = AuthorityRound { params };
    let transitions = round.params.block_gas_limit_contract_transitions.unwrap();
    let by_block = BlockGasLimitContract::Transitions(transitions).into_transitions();
    assert_eq!(by_block[&10], address(0x10));
    assert_eq!(by_block[&20], address(0x20));
    assert_eq!(by_block.len(), 2);
}

#[test]
fn signer_requests() {
    let signer = EngineSigner::new(address(1), "secret".to_string());
    assert_eq!(signer.address(), address(1));
    assert_eq!(
        signer.sign(H256([3; 32])),
        SignRequest {
            address: address(1),
            password: Some("secret".to_string()),
            message: H256([3; 32]),
        }
    );
    assert_eq!(
        signer.decrypt(b"data", b"cipher"),
        DecryptRequest {
            address: address(1),
            password: None,
            auth_data: b"data".to_vec(),
            cipher: b"cipher".to_vec(),
        }
    );
    assert_eq!(
        signer.public(),
        PublicRequest { address: address(1), password: "secret".to_string() }
    );
}

#[test]
fn signer_answers() {
    assert_eq!(SignRequest::answer::<u8, &str>(Ok(1)), Ok(1));
    assert_eq!(
        SignRequest::answer::<u8, &str>(Err("locked")),
        Err(SignerError::InvalidSecretKey)
    );
    assert_eq!(DecryptRequest::answer::<u8, &str>(Ok(1)), Ok(1));
    assert_eq!(
        DecryptRequest::answer::<u8, &str>(Err("locked")),
        Err(SignerError::InvalidMessage)
    );
    assert_eq!(PublicRequest::answer::<u8, &str>(Ok(1)), Some(1));
    assert_eq!(PublicRequest::answer::<u8, &str>(Err("locked")), None);
}
