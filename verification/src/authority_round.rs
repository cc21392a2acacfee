//! Parameters of the authority round engine in a chain specification.

use vstd::prelude::*;

#[allow(unused_imports)]
use crate::params::ascending;
use crate::types::{Address, U256};

verus! {

/// How long a step lasts.
#[derive(Debug, PartialEq)]
pub enum StepDuration {
    /// All steps last as many seconds.
    Single(U256),
    /// The times, in ascending order, from which on steps last as many seconds.
    Transitions(Vec<(U256, U256)>),
}

/// Who validates blocks.
#[derive(Debug, PartialEq)]
pub enum ValidatorSet {
    /// A simple list of authorities.
    List(Vec<Address>),
    /// Address of a contract that indicates the list of authorities.
    SafeContract(Address),
    /// Address of a contract that indicates the list of authorities and enables reporting of their
    /// misbehaviour using transactions.
    Contract(Address),
    /// The block numbers, in ascending order, with the sets that should be used from that block on.
    Multi(Vec<(U256, ValidatorSet)>),
}

/// Authority params.
#[derive(Debug, PartialEq)]
pub struct AuthorityRoundParams {
    /// Block duration, in seconds.
    pub step_duration: StepDuration,
    /// Valid authorities
    pub validators: ValidatorSet,
    /// Starting step. Determined automatically if not specified.
    /// To be used for testing only.
    pub start_step: Option<U256>,
    /// Block at which score validation should start.
    pub validate_score_transition: Option<U256>,
    /// Block from which monotonic steps start.
    pub validate_step_transition: Option<U256>,
    /// Whether transitions should be immediate.
    pub immediate_transitions: Option<bool>,
    /// Reward per block in wei.
    pub block_reward: Option<U256>,
    /// Block at which the block reward contract should start being used. This option allows to add
    /// a single block reward contract transition and is compatible with the multiple address option
    /// `block_reward_contract_transitions` below.
    pub block_reward_contract_transition: Option<U256>,
    /// Block reward contract address (setting the block reward contract overrides the static block
    /// reward definition). This option allows to add a single block reward contract address and is
    /// compatible with the multiple address option `block_reward_contract_transitions` below.
    pub block_reward_contract_address: Option<Address>,
    /// Block reward contract addresses with their associated starting block numbers. Setting the
    /// block reward contract overrides the static block reward definition. If the single block
    /// reward contract address is also present then it is added into the map at the block number
    /// stored in `block_reward_contract_transition` or 0 if that block number is not provided.
    pub block_reward_contract_transitions: Option<Vec<(U256, Address)>>,
    /// Block reward code. This overrides the block reward contract address.
    pub block_reward_contract_code: Option<Vec<u8>>,
    /// Block at which maximum uncle count should be considered.
    pub maximum_uncle_count_transition: Option<U256>,
    /// Maximum number of accepted uncles.
    pub maximum_uncle_count: Option<U256>,
    /// Block at which empty step messages should start.
    pub empty_steps_transition: Option<U256>,
    /// Maximum number of accepted empty steps.
    pub maximum_empty_steps: Option<U256>,
    /// Strict validation of empty steps transition block.
    pub strict_empty_steps_transition: Option<U256>,
    /// First block for which a 2/3 quorum (instead of 1/2) is required.
    pub two_thirds_majority_transition: Option<U256>,
    /// If set, enables random number contract integration, and use Proof of
    /// Stake (PoS) consensus.  Otherwise, use Proof of Authority (PoA)
    /// consensus.
    pub randomness_contract_address: Option<Address>,
    /// The block number at which the consensus engine switches from AuRa to AuRa with POSDAO
    /// modifications.
    pub posdao_transition: Option<U256>,
    /// The addresses of contracts that determine the block gas limit starting from the block number
    /// associated with each of those contracts.
    pub block_gas_limit_contract_transitions: Option<Vec<(U256, Address)>>,
}

/// Authority engine.
#[derive(Debug, PartialEq)]
pub struct AuthorityRound {
    /// Authority Round parameters.
    pub params: AuthorityRoundParams,
}

impl AuthorityRoundParams {
    /// Whether the block numbers of the contracts are in ascending order.
    pub open spec fn well_formed(self) -> bool {
        &&& self.block_reward_contract_transitions matches Some(transitions) ==> ascending(
            transitions@,
        )
        &&& self.block_gas_limit_contract_transitions matches Some(transitions) ==> ascending(
            transitions@,
        )
    }
}

} // verus!
