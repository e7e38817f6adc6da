//! Verified core of the Solana intent solver: fee estimation, RPC endpoint
//! rotation, swap-intent validation, transaction retry scheduling and the
//! decisions of the execution pipeline.

pub mod error;
pub mod executor;
pub mod text;
pub mod fee_estimator;
pub mod payer;
pub mod rpc_manager;
pub mod service;
pub mod swapper;
