//! Account and transaction lifecycle for a Starknet command-line client:
//! configuration merging, signer resolution, transaction building, submission
//! with an optional wait for finality, ordered batches, and account records.

pub mod accounts;
pub mod address;
pub mod block;
pub mod command;
pub mod config;
pub mod felt;
pub mod multicall;
pub mod network;
pub mod prepare;
pub mod signer;
pub mod submission;
pub mod text;
pub mod transaction;
pub mod wait;
