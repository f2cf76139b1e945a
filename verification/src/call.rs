//! Executing one hypothetical call against a snapshot, with optional state
//! and block overrides, and returning its output. Nothing is ever committed:
//! the speculative overlay is discarded with the query.

use vstd::prelude::*;

use crate::env::{
    apply_block_override_spec, apply_block_override, prepare_call_env, prepare_env_spec, BlockEnv,
    BlockEnvV, CfgEnv,
};
use crate::errors::{evm_error_to_api, evm_error_to_api_spec, EthApiError, EthApiErrorV};
use crate::estimate::EthApi;
use crate::evm::{ensure_success, ensure_success_spec, Evm};
use crate::state::{apply_changes_v, OverlayCache};
use crate::types::{
    changes_view, AccountChanges, AccountChangesV, Address, BlockOverride, CallRequest,
    CallRequestV, StateSnapshot, StateV,
};

verus! {

/// The view of an optional state override.
pub open spec fn override_view(ov: Option<&Vec<(Address, AccountChanges)>>) -> Option<
    Seq<(Seq<u8>, AccountChangesV)>,
> {
    match ov {
        Some(v) => Some(changes_view(v@)),
        None => None,
    }
}

/// What one overridden call returns: the environment is prepared over the
/// overridden state, executed once, and the outcome's output or failure is
/// surfaced. A function of the inputs alone, so re-running a call against
/// the same snapshot yields the same result.
pub open spec fn call_spec<E: Evm>(
    evm: E,
    s0: StateV,
    cfg: CfgEnv,
    block: BlockEnvV,
    req: CallRequestV,
    gas_cap: u64,
    ov: Option<Seq<(Seq<u8>, AccountChangesV)>>,
    bo: Option<BlockOverride>,
) -> Result<Seq<u8>, EthApiErrorV> {
    let blockv = match bo {
        Some(o) => apply_block_override_spec(block, o),
        None => block,
    };
    let s = match ov {
        Some(o) => apply_changes_v(s0, o),
        None => s0,
    };
    match prepare_env_spec(cfg, blockv, req, gas_cap, s) {
        Err(e) => Err(e),
        Ok(env) => match evm.transact_spec(s, env) {
            Err(e) => Err(evm_error_to_api_spec(e)),
            Ok(exec) => ensure_success_spec(exec.outcome),
        },
    }
}

/// The view of a call result.
pub open spec fn bytes_result_view(r: Result<Vec<u8>, EthApiError>) -> Result<
    Seq<u8>,
    EthApiErrorV,
> {
    match r {
        Ok(o) => Ok(o@),
        Err(e) => Err(e@),
    }
}

impl EthApi {
    /// Executes one call request against the snapshot and returns its
    /// output. Overrides are laid into a fresh overlay cache first; the
    /// snapshot itself is read-only and never mutated.
    pub fn call<E: Evm>(
        &self,
        evm: &E,
        cfg: CfgEnv,
        block: BlockEnv,
        request: &CallRequest,
        snapshot: &StateSnapshot,
        state_override: Option<&Vec<(Address, AccountChanges)>>,
        block_override: Option<&BlockOverride>,
    ) -> (r: Result<Vec<u8>, EthApiError>)
        ensures
            bytes_result_view(r) == call_spec(
                *evm,
                snapshot@,
                cfg,
                block@,
                request@,
                self.gas_cap,
                override_view(state_override),
                match block_override {
                    Some(o) => Some(*o),
                    None => None,
                },
            ),
    {
        let block = match block_override {
            Some(o) => apply_block_override(block, o),
            None => block,
        };
        let mut cache = OverlayCache::new(snapshot);
        let env = match prepare_call_env(
            cfg,
            block,
            request,
            self.gas_cap,
            &mut cache,
            state_override,
        ) {
            Ok(env) => env,
            Err(e) => {
                return Err(e);
            },
        };
        let exec = match evm.transact(&cache, &env) {
            Ok(exec) => exec,
            Err(e) => {
                return Err(evm_error_to_api(e));
            },
        };
        ensure_success(exec.outcome)
    }
}

} // verus!
