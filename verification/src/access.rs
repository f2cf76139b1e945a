//! The access-list builder: drives one traced execution to record the
//! addresses and storage keys a call would touch, seeding the tracer with
//! the request's own list, the sender and recipient, and the protocol's
//! precompiled contracts, all of which stay out of the output.

use vstd::prelude::*;

use crate::env::{prepare_call_env, prepare_env_spec, BlockEnv, BlockEnvV, CfgEnv};
use crate::errors::{
    evm_error_to_api, evm_error_to_api_spec, EthApiError, EthApiErrorV, HaltReason, InvalidTxError,
    InvalidTxErrorV,
};
use crate::estimate::EthApi;
use crate::evm::{Evm, ExecutionOutcome, OutcomeV, TraceSeed, TraceSeedV};
use crate::foreign::{contract_address, created_address, precompile_addrs, precompile_addresses};
use crate::state::{state_nonce, OverlayCache};
use crate::types::{
    access_list_view, zero_address, AccessItem, AccessItemV, Address, CallRequest, CallRequestV,
    StateSnapshot, StateV,
};

verus! {

/// A chain configuration with the block gas-limit cap and base-fee
/// enforcement disabled, as access-list construction requires.
pub open spec fn al_cfg(cfg: CfgEnv) -> CfgEnv {
    CfgEnv { disable_block_gas_limit: true, disable_base_fee: true, ..cfg }
}

/// The failure a traced halt maps to: a nonce overflow means the synthetic
/// address prediction is impossible and is reported as such.
pub open spec fn traced_halt_error(reason: HaltReason) -> InvalidTxErrorV {
    if reason == HaltReason::NonceOverflow {
        InvalidTxErrorV::NonceMaxValue
    } else {
        InvalidTxErrorV::EvmHalt(reason)
    }
}

/// The tracer's seed for one request: the caller-supplied initial list, the
/// sender, the recipient or the predicted created-contract address, and the
/// protocol's precompiles.
pub open spec fn trace_seed_spec(s: StateV, req: CallRequestV, spec: crate::env::SpecKind) -> TraceSeedV {
    let from = match req.from {
        Some(a) => a,
        None => zero_address(),
    };
    TraceSeedV {
        initial: match req.access_list {
            Some(l) => l,
            None => Seq::empty(),
        },
        from: from,
        to: match req.to {
            Some(a) => a,
            None => created_address(from, state_nonce(s, from)),
        },
        precompiles: precompile_addrs(spec),
    }
}

/// What `create_access_list_at` returns: the traced execution's accumulated
/// accesses on success, the revert payload or the mapped halt otherwise.
pub open spec fn access_list_spec<E: Evm>(
    evm: E,
    s: StateV,
    cfg: CfgEnv,
    block: BlockEnvV,
    req: CallRequestV,
    gas_cap: u64,
) -> Result<Seq<AccessItemV>, EthApiErrorV> {
    match prepare_env_spec(al_cfg(cfg), block, req, gas_cap, s) {
        Err(e) => Err(e),
        Ok(env) => match evm.transact_traced_spec(s, env, trace_seed_spec(s, req, cfg.spec)) {
            Err(e) => Err(evm_error_to_api_spec(e)),
            Ok(p) => match p.0 {
                OutcomeV::Success { .. } => Ok(p.1),
                OutcomeV::Revert { output, .. } => Err(
                    EthApiErrorV::InvalidTransaction(InvalidTxErrorV::Revert(output)),
                ),
                OutcomeV::Halt { reason, .. } => Err(
                    EthApiErrorV::InvalidTransaction(traced_halt_error(reason)),
                ),
            },
        },
    }
}

/// The view of an access-list result.
pub open spec fn access_result_view(r: Result<Vec<AccessItem>, EthApiError>) -> Result<
    Seq<AccessItemV>,
    EthApiErrorV,
> {
    match r {
        Ok(l) => Ok(access_list_view(l@)),
        Err(e) => Err(e@),
    }
}

/// The address a contract created by `from` would get, derived from the
/// sender and its current nonce in the snapshot by the standard rule.
pub fn predict_create_address(snapshot: &StateSnapshot, from: &Address) -> (r: Address)
    ensures
        r@ == created_address(from@, state_nonce(snapshot@, from@)),
{
    let cache = OverlayCache::new(snapshot);
    let nonce = cache.nonce_of(from);
    contract_address(from, nonce)
}

impl EthApi {
    /// Determines the set of storage and account accesses one execution of
    /// the request would perform. The gas limit falls back to the caller's
    /// allowance when absent, an absent recipient is replaced by the
    /// predicted created-contract address, and precompiles stay out of the
    /// returned list.
    pub fn create_access_list_at<E: Evm>(
        &self,
        evm: &E,
        cfg: CfgEnv,
        block: BlockEnv,
        request: &CallRequest,
        snapshot: &StateSnapshot,
    ) -> (r: Result<Vec<AccessItem>, EthApiError>)
        ensures
            access_result_view(r) == access_list_spec(
                *evm,
                snapshot@,
                cfg,
                block@,
                request@,
                self.gas_cap,
            ),
    {
        let ghost s = snapshot@;
        let mut al_cfg_exec = cfg;
        // common practice for access-list queries: neither the block's gas
        // cap nor the base fee constrains the traced run
        al_cfg_exec.disable_block_gas_limit = true;
        al_cfg_exec.disable_base_fee = true;
        assert(al_cfg_exec == al_cfg(cfg));

        let mut cache = OverlayCache::new(snapshot);
        let env = match prepare_call_env(
            al_cfg_exec,
            block,
            request,
            self.gas_cap,
            &mut cache,
            None,
        ) {
            Ok(env) => env,
            Err(e) => {
                return Err(e);
            },
        };

        let from = match request.from {
            Some(a) => a,
            None => Address::zero(),
        };
        let to = match request.to {
            Some(a) => a,
            None => {
                let nonce = cache.nonce_of(&from);
                contract_address(&from, nonce)
            },
        };
        let initial = match &request.access_list {
            Some(l) => crate::env::copy_access_items(l),
            None => Vec::new(),
        };
        let precompiles = precompile_addresses(cfg.spec);
        let seed = TraceSeed { initial, from, to, precompiles };
        proof {
            assert(access_list_view(Seq::<AccessItem>::empty()) =~= Seq::<AccessItemV>::empty());
            let pv = precompiles@.map_values(|a: Address| a@);
            assert forall|x: Seq<u8>| pv.to_set().contains(x) implies precompile_addrs(
                cfg.spec,
            ).contains(x) by {
                let i = choose|i: int| 0 <= i < pv.len() && pv[i] == x;
                assert(precompiles@[i]@ == x);
            };
            assert forall|x: Seq<u8>| precompile_addrs(cfg.spec).contains(x) implies pv.to_set().contains(
                x,
            ) by {
                let i = choose|i: int| 0 <= i < precompiles@.len() && precompiles@[i]@ == x;
                assert(pv[i] == x);
                assert(pv.contains(x));
            };
            assert(pv.to_set() =~= precompile_addrs(cfg.spec));
            assert(seed@ =~= trace_seed_spec(s, request@, cfg.spec));
        }

        let traced = match evm.transact_traced(&cache, &env, &seed) {
            Ok(p) => p,
            Err(e) => {
                return Err(evm_error_to_api(e));
            },
        };
        match traced.0 {
            ExecutionOutcome::Success { .. } => Ok(traced.1),
            ExecutionOutcome::Revert { output, .. } => Err(
                EthApiError::InvalidTransaction(InvalidTxError::Revert(output)),
            ),
            ExecutionOutcome::Halt { reason, .. } => match reason {
                HaltReason::NonceOverflow => Err(
                    EthApiError::InvalidTransaction(InvalidTxError::NonceMaxValue),
                ),
                _ => Err(EthApiError::InvalidTransaction(InvalidTxError::EvmHalt(reason))),
            },
        }
    }
}

} // verus!
