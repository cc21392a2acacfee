//! Parameters of a chain specification.

use vstd::prelude::*;

use crate::types::{Address, H256, U256};
use std::collections::BTreeMap;

verus! {

/// Spec params.
#[derive(Debug, PartialEq)]
pub struct Params {
    /// Account start nonce, defaults to 0.
    pub account_start_nonce: Option<U256>,
    /// Maximum size of extra data.
    pub maximum_extra_data_size: U256,
    /// Minimum gas limit.
    pub min_gas_limit: U256,
    /// The address of a contract that determines the block gas limit.
    pub block_gas_limit_contract: Option<BlockGasLimitContract>,
    /// Network id.
    pub network_id: U256,
    /// Chain id.
    pub chain_id: Option<U256>,
    /// Name of the main ("eth") subprotocol.
    pub subprotocol_name: Option<String>,
    /// Option fork block number to check.
    pub fork_block: Option<U256>,
    /// Expected fork block hash.
    pub fork_hash: Option<H256>,
    /// See main EthashParams docs.
    pub eip150_transition: Option<U256>,
    /// See main EthashParams docs.
    pub eip160_transition: Option<U256>,
    /// See main EthashParams docs.
    pub eip161abc_transition: Option<U256>,
    /// See main EthashParams docs.
    pub eip161d_transition: Option<U256>,
    /// See `CommonParams` docs.
    pub eip98_transition: Option<U256>,
    /// See `CommonParams` docs.
    pub eip155_transition: Option<U256>,
    /// See `CommonParams` docs.
    pub validate_chain_id_transition: Option<U256>,
    /// See `CommonParams` docs.
    pub validate_receipts_transition: Option<U256>,
    /// See `CommonParams` docs.
    pub eip140_transition: Option<U256>,
    /// See `CommonParams` docs.
    pub eip210_transition: Option<U256>,
    /// See `CommonParams` docs.
    pub eip210_contract_address: Option<Address>,
    /// See `CommonParams` docs.
    pub eip210_contract_code: Option<Vec<u8>>,
    /// See `CommonParams` docs.
    pub eip210_contract_gas: Option<U256>,
    /// See `CommonParams` docs.
    pub eip211_transition: Option<U256>,
    /// See `CommonParams` docs.
    pub eip145_transition: Option<U256>,
    /// See `CommonParams` docs.
    pub eip214_transition: Option<U256>,
    /// See `CommonParams` docs.
    pub eip658_transition: Option<U256>,
    /// See `CommonParams` docs.
    pub eip1052_transition: Option<U256>,
    /// See `CommonParams` docs.
    pub eip1283_transition: Option<U256>,
    /// See `CommonParams` docs.
    pub eip1283_disable_transition: Option<U256>,
    /// See `CommonParams` docs.
    pub eip1014_transition: Option<U256>,
    /// See `CommonParams` docs.
    pub dust_protection_transition: Option<U256>,
    /// See `CommonParams` docs.
    pub nonce_cap_increment: Option<U256>,
    /// See `CommonParams` docs.
    pub remove_dust_contracts: Option<bool>,
    /// See `CommonParams` docs.
    pub gas_limit_bound_divisor: U256,
    /// See `CommonParams` docs.
    pub registrar: Option<Address>,
    /// Apply reward flag
    pub apply_reward: Option<bool>,
    /// Node permission contract address.
    pub node_permission_contract: Option<Address>,
    /// See main EthashParams docs.
    pub max_code_size: Option<U256>,
    /// Maximum size of transaction RLP payload.
    pub max_transaction_size: Option<U256>,
    /// See main EthashParams docs.
    pub max_code_size_transition: Option<U256>,
    /// Transaction permission contract address.
    pub transaction_permission_contract: Option<Address>,
    /// Block at which the transaction permission contract should start being used.
    pub transaction_permission_contract_transition: Option<U256>,
    /// Wasm activation block height, if not activated from start
    pub wasm_activation_transition: Option<U256>,
    /// KIP4 activiation block height.
    pub kip4_transition: Option<U256>,
    /// KIP6 activiation block height.
    pub kip6_transition: Option<U256>,
}

/// A contract that determines block gas limits can be configured either as a single address, or as
/// a map, assigning to each starting block number the contract address that should be used from
/// that block on.
#[derive(Debug, PartialEq)]
pub enum BlockGasLimitContract {
    /// A single address for a block gas limit contract.
    Single(Address),
    /// The block numbers, in ascending order, with the contract addresses that should be used for
    /// the gas limit after that block.
    Transitions(Vec<(U256, Address)>),
}

/// Whether block numbers are in ascending order, so that none occurs twice.
pub open spec fn ascending(transitions: Seq<(U256, Address)>) -> bool {
    forall|i: int, j: int|
        0 <= i < j < transitions.len() ==> (#[trigger] transitions[i]).0.value() < (
        #[trigger] transitions[j]).0.value()
}

/// Whether all block numbers fit into 64 bits.
pub open spec fn blocks_fit(transitions: Seq<(U256, Address)>) -> bool {
    forall|i: int| 0 <= i < transitions.len() ==> (#[trigger] transitions[i]).0.value() <= u64::MAX
}

/// The map that pairs of block numbers and addresses make.
pub open spec fn transition_map(transitions: Seq<(U256, Address)>) -> Map<u64, Address>
    decreases transitions.len(),
{
    if transitions.len() == 0 {
        Map::empty()
    } else {
        transition_map(transitions.drop_last()).insert(
            transitions.last().0.value() as u64,
            transitions.last().1,
        )
    }
}

impl BlockGasLimitContract {
    /// Whether the block numbers of a map are in ascending order.
    pub open spec fn well_formed(self) -> bool {
        self matches BlockGasLimitContract::Transitions(transitions) ==> ascending(transitions@)
    }

    /// Whether the block numbers of a map fit into 64 bits.
    pub open spec fn fits(self) -> bool {
        self matches BlockGasLimitContract::Transitions(transitions) ==> blocks_fit(transitions@)
    }

    /// The contract address to use from each block number on.
    pub open spec fn by_block(self) -> Map<u64, Address> {
        match self {
            BlockGasLimitContract::Single(address) => Map::empty().insert(0, address),
            BlockGasLimitContract::Transitions(transitions) => transition_map(transitions@),
        }
    }

    /// Whether the block numbers of a map fit into 64 bits.
    pub fn fits_block_numbers(&self) -> (fits: bool)
        ensures
            fits == self.fits(),
    {
        match self {
            BlockGasLimitContract::Single(_) => true,
            BlockGasLimitContract::Transitions(transitions) => {
                let mut i: usize = 0;
                while i < transitions.len()
                    invariant
                        *self == BlockGasLimitContract::Transitions(*transitions),
                        i <= transitions.len(),
                        forall|j: int|
                            0 <= j < i ==> (#[trigger] transitions@[j]).0.value() <= u64::MAX,
                    decreases transitions.len() - i,
                {
                    if !transitions[i].0.fits_u64() {
                        assert(transitions@[i as int].0.value() > u64::MAX);
                        return false;
                    }
                    i = i + 1;
                }
                true
            },
        }
    }

    /// The contract address to use from each block number on. A single address is used from block
    /// zero on.
    pub fn into_transitions(self) -> (by_block: BTreeMap<u64, Address>)
        requires
            self.well_formed(),
            self.fits(),
        ensures
            by_block@ == self.by_block(),
    {
        broadcast use vstd::std_specs::btree::group_btree_axioms;

        let mut by_block: BTreeMap<u64, Address> = BTreeMap::new();
        match self {
            BlockGasLimitContract::Single(address) => {
                by_block.insert(0, address);
            },
            BlockGasLimitContract::Transitions(transitions) => {
                assert(transitions@.take(0) =~= Seq::empty());
                let mut i: usize = 0;
                while i < transitions.len()
                    invariant
                        i <= transitions.len(),
                        blocks_fit(transitions@),
                        by_block@ == transition_map(transitions@.take(i as int)),
                    decreases transitions.len() - i,
                {
                    assert(transitions@.take(i + 1).drop_last() =~= transitions@.take(i as int));
                    let (block, address) = transitions[i];
                    by_block.insert(block.as_u64(), address);
                    i = i + 1;
                }
                assert(transitions@.take(i as int) =~= transitions@);
            },
        }
        by_block
    }
}

proof fn lemma_transition(transitions: Seq<(U256, Address)>, i: int)
    requires
        ascending(transitions),
        blocks_fit(transitions),
        0 <= i < transitions.len(),
    ensures
        transition_map(transitions).contains_pair(
            transitions[i].0.value() as u64,
            transitions[i].1,
        ),
    decreases transitions.len(),
{
    if i < transitions.len() - 1 {
        let before = transitions.drop_last();
        assert forall|j: int| 0 <= j < before.len() implies (#[trigger] before[j]).0.value()
            <= u64::MAX by {
            assert(transitions[j] == before[j]);
        }
        lemma_transition(before, i);
        assert(before[i] == transitions[i]);
        assert(transitions[i].0.value() < transitions[transitions.len() - 1].0.value());
        assert(transitions[transitions.len() - 1].0.value() <= u64::MAX);
    }
}

proof fn lemma_transitions_only(transitions: Seq<(U256, Address)>, block: u64)
    requires
        blocks_fit(transitions),
        transition_map(transitions).contains_key(block),
    ensures
        exists|i: int|
            0 <= i < transitions.len() && (#[trigger] transitions[i]).0.value() == block,
    decreases transitions.len(),
{
    if transitions.len() > 0 {
        let last = transitions.len() - 1;
        assert(transitions[last].0.value() <= u64::MAX);
        if transitions[last].0.value() != block {
            let before = transitions.drop_last();
            assert forall|j: int| 0 <= j < before.len() implies (#[trigger] before[j]).0.value()
                <= u64::MAX by {
                assert(transitions[j] == before[j]);
            }
            lemma_transitions_only(before, block);
            let i = choose|i: int|
                0 <= i < before.len() && (#[trigger] before[i]).0.value() == block;
            assert(transitions[i].0.value() == block);
        }
    }
}

/// No transition is lost and none is made up: the map gives, for exactly the configured block
/// numbers, the configured addresses.
pub proof fn law_transitions_kept(transitions: Seq<(U256, Address)>)
    requires
        ascending(transitions),
        blocks_fit(transitions),
    ensures
        forall|i: int|
            0 <= i < transitions.len() ==> transition_map(transitions).contains_pair(
                (#[trigger] transitions[i]).0.value() as u64,
                transitions[i].1,
            ),
        forall|block: u64| #[trigger]
            transition_map(transitions).contains_key(block) ==> exists|i: int|
                0 <= i < transitions.len() && (#[trigger] transitions[i]).0.value() == block,
{
    assert forall|i: int| 0 <= i < transitions.len() implies transition_map(
        transitions,
    ).contains_pair((#[trigger] transitions[i]).0.value() as u64, transitions[i].1) by {
        lemma_transition(transitions, i);
    }
    assert forall|block: u64| #[trigger]
        transition_map(transitions).contains_key(block) implies exists|i: int|
        0 <= i < transitions.len() && (#[trigger] transitions[i]).0.value() == block by {
        lemma_transitions_only(transitions, block);
    }
}

/// Accepts a number unless it is zero.
pub fn validate_non_zero(number: U256) -> (result: Result<U256, &'static str>)
    ensures
        match result {
            Ok(n) => number.value() != 0 && n == number,
            Err(expected) => number.value() == 0 && expected@ == "a non-zero value"@,
        },
{
    if number.is_zero() {
        Err("a non-zero value")
    } else {
        Ok(number)
    }
}

/// The map that a configuration becomes gives, for exactly the configured block numbers, the
/// configured addresses. A single address counts from block zero on.
pub proof fn law_contract_transitions(
    contract: BlockGasLimitContract,
    fits: bool,
    by_block: BTreeMap<u64, Address>,
)
    requires
        contract.well_formed(),
        contract.fits(),
        call_ensures(BlockGasLimitContract::fits_block_numbers, (&contract,), fits),
        call_ensures(BlockGasLimitContract::into_transitions, (contract,), by_block),
    ensures
        fits,
        match contract {
            BlockGasLimitContract::Single(address) => forall|block: u64|
                {
                    &&& #[trigger] by_block@.contains_key(block) <==> block == 0
                    &&& by_block@.contains_key(block) ==> by_block@[block] == address
                },
            BlockGasLimitContract::Transitions(transitions) => {
                &&& forall|i: int|
                    0 <= i < transitions@.len() ==> by_block@.contains_pair(
                        (#[trigger] transitions@[i]).0.value() as u64,
                        transitions@[i].1,
                    )
                &&& forall|block: u64| #[trigger]
                    by_block@.contains_key(block) ==> exists|i: int|
                        0 <= i < transitions@.len() && (#[trigger] transitions@[i]).0.value()
                            == block
            },
        },
{
    if let BlockGasLimitContract::Transitions(transitions) = contract {
        law_transitions_kept(transitions@);
    }
}

/// The block numbers of a configuration fit exactly if each of them does.
pub proof fn law_block_numbers_fit(contract: BlockGasLimitContract, fits: bool)
    requires
        call_ensures(BlockGasLimitContract::fits_block_numbers, (&contract,), fits),
    ensures
        contract is Single ==> fits,
        contract matches BlockGasLimitContract::Transitions(transitions) ==> (!fits <==> exists|i: int|
            0 <= i < transitions@.len() && (#[trigger] transitions@[i]).0.value()
                > 0xffff_ffff_ffff_ffff),
{
}

/// Exactly zero is refused, and every other number is given back.
pub proof fn law_non_zero(number: U256, result: Result<U256, &'static str>)
    requires
        call_ensures(validate_non_zero, (number,), result),
    ensures
        result is Err <==> number.value() == 0,
        result matches Ok(n) ==> n == number,
        result matches Err(text) ==> text@ == "a non-zero value"@,
{
}

} // verus!
