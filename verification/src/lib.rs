//! Call-simulation and gas-estimation engine for an Ethereum execution-layer
//! node's RPC service.
//!
//! The engine answers three classes of query without mutating canonical chain
//! state: execute a hypothetical call against a snapshot (`call` /
//! `call_many`), find the minimal gas limit at which a call succeeds
//! (`estimate_gas_at`), and determine the set of storage and account accesses
//! a call would perform (`create_access_list_at`).
//!
//! The bytecode interpreter itself is consumed as an opaque capability (the
//! [`Evm`](evm::Evm) trait); the engine layers speculative state on top of a
//! read-only snapshot through an overlay cache and never persists anything.

pub mod access;
pub mod bundle;
pub mod call;
pub mod env;
pub mod estimate;
pub mod evm;
pub mod foreign;
pub mod dbinit;
pub mod errors;
pub mod laws;
pub mod state;
pub mod types;

pub use dbinit::{init_db_plan, InitDbAction, VersionFileCheck};
pub use env::{BlockEnv, CfgEnv, ExecEnv, SpecKind, TxEnv, MIN_CREATE_GAS, MIN_TRANSACTION_GAS};
pub use errors::{EthApiError, EvmError, HaltReason, InvalidTxError};
pub use estimate::EthApi;
pub use evm::{Evm, Execution, ExecutionOutcome, TraceSeed};
pub use state::OverlayCache;
pub use types::{
    AccessItem, Account, AccountChanges, Address, BlockOverride, Bundle, CallRequest,
    EthCallResponse, Log, ReplayTx, StateContext, StateSnapshot, TransactionReceipt,
};
