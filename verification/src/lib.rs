//! Consensus support for a proof-of-stake node.

pub mod authority_round;
pub mod batch;
pub mod consensus;
pub mod contribution;
pub mod engine_signer;
pub mod fetch;
pub mod hbbft_engine;
pub mod hbbft_laws;
pub mod hbbft_params;
pub mod network;
pub mod params;
pub mod randomness;
pub mod sealing;
pub mod time;
pub mod transition;
pub mod types;
