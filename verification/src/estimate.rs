//! The gas estimator: finds the minimal gas limit at which a call succeeds by
//! executing once at the highest affordable limit and then bisecting, with
//! the protocol's intrinsic-gas floors as the lower bound.

use vstd::prelude::*;

use crate::env::{
    allowance_spec, build_call_evm_env, build_env_spec, caller_gas_allowance, min64, BlockEnv,
    BlockEnvV, CfgEnv, EnvV, ExecEnv, TxEnvV, MIN_CREATE_GAS, MIN_TRANSACTION_GAS,
};
use crate::errors::{
    evm_error_to_api, evm_error_to_api_spec, EthApiError, EthApiErrorV, EvmError, HaltReason,
    InvalidTxError, InvalidTxErrorV,
};
use crate::evm::{Evm, ExecutionOutcome, OutcomeV};
use crate::state::{state_balance, state_has_code, OverlayCache};
use crate::types::{CallRequest, CallRequestV, StateSnapshot, StateV};

verus! {

/// The RPC-facing engine: one instance per service, carrying the node's gas
/// cap. Every operation works on a caller-resolved block context and state
/// snapshot and drives a caller-supplied execution adapter.
pub struct EthApi {
    /// The node-wide cap on the gas a simulated call may be given.
    pub gas_cap: u64,
}

/// A chain configuration with the sender-must-be-an-EOA precheck and base-fee
/// enforcement disabled, as estimation requires.
pub open spec fn est_cfg(cfg: CfgEnv) -> CfgEnv {
    CfgEnv { disable_eip3607: true, disable_base_fee: true, ..cfg }
}

/// An environment with its transaction gas limit replaced.
pub open spec fn with_gas(env: EnvV, g: u64) -> EnvV {
    EnvV { tx: TxEnvV { gas_limit: g, ..env.tx }, ..env }
}

/// Whether the environment describes a plain value transfer: no input data
/// and a recipient that currently holds no code.
pub open spec fn is_plain_transfer(s: StateV, env: EnvV) -> bool {
    env.tx.data.len() == 0 && match env.tx.to {
        Some(to) => !state_has_code(s, to),
        None => false,
    }
}

/// The protocol intrinsic-gas floor of the environment's transaction shape.
pub open spec fn intrinsic_floor(env: EnvV) -> u64 {
    if env.tx.to is None {
        MIN_CREATE_GAS
    } else {
        MIN_TRANSACTION_GAS
    }
}

/// Whether the adapter reports a success for the environment at the given
/// gas limit.
pub open spec fn succeeds_at<E: Evm>(evm: E, s: StateV, env: EnvV, g: u64) -> bool {
    match evm.transact_spec(s, with_gas(env, g)) {
        Ok(e) => e.outcome is Success,
        Err(_) => false,
    }
}

/// The environment the estimator executes under: the request's environment
/// with the estimation prechecks disabled.
pub open spec fn estimate_env_spec(
    cfg: CfgEnv,
    block: BlockEnvV,
    req: CallRequestV,
    gas_cap: u64,
) -> Result<EnvV, EthApiErrorV> {
    build_env_spec(est_cfg(cfg), block, req, gas_cap)
}

/// The estimator's starting upper bound: the request's gas limit if given,
/// else the block's, capped by the gas the caller can afford when the gas
/// price is positive.
pub open spec fn initial_highest_spec(
    s: StateV,
    env: EnvV,
    req: CallRequestV,
    block: BlockEnvV,
) -> Result<u64, EthApiErrorV> {
    let base = match req.gas {
        Some(g) => g,
        None => block.gas_limit,
    };
    if env.tx.gas_price > 0 {
        match allowance_spec(s, env.tx.caller, env.tx.value, env.tx.gas_price) {
            Err(e) => Err(e),
            Ok(a) => Ok(min64(base, a)),
        }
    } else {
        Ok(base)
    }
}

/// The failure a halt maps to: running out of gas under a limit is reported
/// with that limit, any other halt carries its reason.
pub open spec fn halt_error_v(reason: HaltReason, gas_used: u64) -> InvalidTxErrorV {
    if reason == HaltReason::OutOfGas {
        InvalidTxErrorV::BasicOutOfGas(gas_used)
    } else {
        InvalidTxErrorV::EvmHalt(reason)
    }
}

/// What the disambiguating re-run at the block's full gas limit reports:
/// a success means the caller's own limit was the problem, a revert or halt
/// is surfaced as such.
pub open spec fn map_oog_spec<E: Evm>(
    evm: E,
    s: StateV,
    env: EnvV,
    env_gas_limit: u64,
    req_gas_limit: u64,
) -> EthApiErrorV {
    match evm.transact_spec(s, with_gas(env, env_gas_limit)) {
        Err(e) => evm_error_to_api_spec(e),
        Ok(exec) => match exec.outcome {
            OutcomeV::Success { .. } => EthApiErrorV::InvalidTransaction(
                InvalidTxErrorV::BasicOutOfGas(req_gas_limit),
            ),
            OutcomeV::Revert { output, .. } => EthApiErrorV::InvalidTransaction(
                InvalidTxErrorV::Revert(output),
            ),
            OutcomeV::Halt { reason, .. } => EthApiErrorV::InvalidTransaction(
                InvalidTxErrorV::EvmHalt(reason),
            ),
        },
    }
}

/// Whether an error is one the bisection loop may surface after the first
/// execution succeeded: an abnormal halt, or an adapter precheck other than
/// the recoverable gas-too-high.
pub open spec fn is_bisection_abort(e: EthApiErrorV) -> bool {
    ||| e matches EthApiErrorV::InvalidTransaction(InvalidTxErrorV::EvmHalt(h)) && h
        != HaltReason::OutOfGas
    ||| e == EthApiErrorV::InvalidTransaction(InvalidTxErrorV::InsufficientFunds)
    ||| e == EthApiErrorV::InvalidTransaction(InvalidTxErrorV::NonceTooLow)
    ||| e == EthApiErrorV::Internal
}

/// Everything `estimate_gas_with` promises, as one predicate over its inputs
/// and its result.
pub open spec fn estimate_post<E: Evm>(
    evm: E,
    s: StateV,
    cfg: CfgEnv,
    block: BlockEnvV,
    req: CallRequestV,
    gas_cap: u64,
    r: Result<u64, EthApiErrorV>,
) -> bool {
    match estimate_env_spec(cfg, block, req, gas_cap) {
        Err(e) => r == Err::<u64, EthApiErrorV>(e),
        Ok(env) => {
            if is_plain_transfer(s, env) {
                if state_balance(s, env.tx.caller) < env.tx.value {
                    r == Err::<u64, EthApiErrorV>(
                        EthApiErrorV::InvalidTransaction(
                            InvalidTxErrorV::InsufficientFundsForTransfer,
                        ),
                    )
                } else {
                    r == Ok::<u64, EthApiErrorV>(MIN_TRANSACTION_GAS)
                }
            } else {
                match initial_highest_spec(s, env, req, block) {
                    Err(e) => r == Err::<u64, EthApiErrorV>(e),
                    Ok(h0) => {
                        let explicit = req.gas is Some || req.gas_price is Some;
                        match evm.transact_spec(s, with_gas(env, h0)) {
                            Err(e) => {
                                if e == EvmError::GasTooHigh && explicit {
                                    r == Err::<u64, EthApiErrorV>(
                                        map_oog_spec(evm, s, env, block.gas_limit, h0),
                                    )
                                } else {
                                    r == Err::<u64, EthApiErrorV>(evm_error_to_api_spec(e))
                                }
                            },
                            Ok(exec) => match exec.outcome {
                                OutcomeV::Halt { reason, gas_used } => r == Err::<
                                    u64,
                                    EthApiErrorV,
                                >(EthApiErrorV::InvalidTransaction(halt_error_v(reason, gas_used))),
                                OutcomeV::Revert { output, .. } => {
                                    if explicit {
                                        r == Err::<u64, EthApiErrorV>(
                                            map_oog_spec(evm, s, env, block.gas_limit, h0),
                                        )
                                    } else {
                                        r == Err::<u64, EthApiErrorV>(
                                            EthApiErrorV::InvalidTransaction(
                                                InvalidTxErrorV::Revert(output),
                                            ),
                                        )
                                    }
                                },
                                OutcomeV::Success { .. } => match r {
                                    Ok(g) => {
                                        &&& succeeds_at(evm, s, env, g)
                                        &&& g <= h0
                                        &&& (g == h0 || g > intrinsic_floor(env))
                                        &&& (g == h0 || g == intrinsic_floor(env) + 1
                                            || !succeeds_at(evm, s, env, (g - 1) as u64))
                                    },
                                    Err(e) => is_bisection_abort(e),
                                },
                            },
                        }
                    },
                }
            }
        },
    }
}

/// The view of an estimation result.
pub open spec fn gas_result_view(r: Result<u64, EthApiError>) -> Result<u64, EthApiErrorV> {
    match r {
        Ok(g) => Ok(g),
        Err(e) => Err(e@),
    }
}

impl EthApi {
    /// Estimates the gas needed to execute the request against the given
    /// state, bisecting over gas limits until the smallest sufficient one is
    /// bracketed. Never commits anything: the snapshot is read-only and the
    /// speculative overlay is discarded.
    #[verifier::loop_isolation(false)]
    pub fn estimate_gas_with<E: Evm>(
        &self,
        evm: &E,
        cfg: CfgEnv,
        block: BlockEnv,
        request: &CallRequest,
        snapshot: &StateSnapshot,
    ) -> (r: Result<u64, EthApiError>)
        ensures
            estimate_post(*evm, snapshot@, cfg, block@, request@, self.gas_cap, gas_result_view(r)),
    {
        let mut cfg = cfg;
        // estimation must work for arbitrary senders and must not be skewed
        // by the current base fee
        cfg.disable_eip3607 = true;
        cfg.disable_base_fee = true;

        let env_gas_limit = block.gas_limit;

        let mut env = match build_call_evm_env(cfg, block, request, self.gas_cap) {
            Ok(env) => env,
            Err(e) => {
                return Err(e);
            },
        };
        let ghost env0 = env@;

        let cache = OverlayCache::new(snapshot);
        let ghost s = snapshot@;

        // a plain value transfer needs no execution: check the funds and
        // return the transfer floor
        if env.tx.data.len() == 0 {
            match env.tx.to {
                Some(to) => {
                    if !cache.has_code(&to) {
                        let available = cache.balance_of(&env.tx.caller);
                        if env.tx.value > available {
                            return Err(
                                EthApiError::InvalidTransaction(
                                    InvalidTxError::InsufficientFundsForTransfer,
                                ),
                            );
                        }
                        return Ok(MIN_TRANSACTION_GAS);
                    }
                },
                None => (),
            }
        }
        assert(!is_plain_transfer(s, env0));

        let base: u64 = match request.gas {
            Some(g) => g,
            None => block.gas_limit,
        };
        // cap the upper bound by the gas the caller can afford
        let highest0: u64 = if env.tx.gas_price > 0 {
            let allowance = match caller_gas_allowance(
                &cache,
                &env.tx.caller,
                env.tx.value,
                env.tx.gas_price,
            ) {
                Ok(a) => a,
                Err(e) => {
                    return Err(e);
                },
            };
            if base < allowance {
                base
            } else {
                allowance
            }
        } else {
            base
        };
        assert(initial_highest_spec(s, env0, request@, block@) == Ok::<u64, EthApiErrorV>(highest0));

        // execute once at the upper bound
        env.tx.gas_limit = highest0;
        proof {
            assert(env@ =~= with_gas(env0, highest0));
        }
        let explicit = request.gas.is_some() || request.gas_price.is_some();
        proof {
            assert(with_gas(env@, env_gas_limit) =~= with_gas(env0, env_gas_limit));
            assert(map_oog_spec(*evm, s, env@, env_gas_limit, highest0) == map_oog_spec(
                *evm,
                s,
                env0,
                env_gas_limit,
                highest0,
            ));
        }
        let first = match evm.transact(&cache, &env) {
            Err(e) => {
                if e == EvmError::GasTooHigh && explicit {
                    // the caller fixed gas or price: re-run at the block's
                    // full gas limit to tell a genuine revert from a gas
                    // shortfall
                    return Err(map_out_of_gas_err(evm, &cache, env, env_gas_limit, highest0));
                }
                return Err(evm_error_to_api(e));
            },
            Ok(exec) => exec,
        };
        let gas_used: u64 = match first.outcome {
            ExecutionOutcome::Halt { reason, gas_used } => {
                return Err(EthApiError::InvalidTransaction(halt_error(reason, gas_used)));
            },
            ExecutionOutcome::Revert { output, .. } => {
                if explicit {
                    return Err(map_out_of_gas_err(evm, &cache, env, env_gas_limit, highest0));
                }
                return Err(EthApiError::InvalidTransaction(InvalidTxError::Revert(output)));
            },
            ExecutionOutcome::Success { gas_used, .. } => gas_used,
        };
        assert(succeeds_at(*evm, s, env0, highest0));

        // bisect between the intrinsic floor and the succeeding upper bound
        let floor: u64 = if env.tx.to.is_none() {
            MIN_CREATE_GAS
        } else {
            MIN_TRANSACTION_GAS
        };
        assert(floor == intrinsic_floor(env0));
        let mut lowest: u64 = floor;
        let mut highest: u64 = highest0;

        if highest <= lowest || highest - lowest <= 1 {
            return Ok(highest);
        }

        // seed the first probe near the observed usage to converge faster
        // than a naive midpoint, clamped strictly between the bounds
        let plain_mid: u64 = (((lowest as u128) + (highest as u128)) / 2) as u64;
        let seeded: u128 = 3 * (gas_used as u128);
        let mut mid: u64 = if seeded < plain_mid as u128 {
            seeded as u64
        } else {
            plain_mid
        };
        if mid <= lowest {
            mid = lowest + 1;
        }
        if mid >= highest {
            mid = highest - 1;
        }

        while highest - lowest > 1
            invariant
                lowest < highest,
                highest - lowest > 1 ==> lowest < mid < highest,
                floor <= lowest,
                highest <= highest0,
                floor == intrinsic_floor(env0),
                succeeds_at(*evm, s, env0, highest),
                lowest == floor || !succeeds_at(*evm, s, env0, lowest),
                cache.state() == s,
                env@ =~= with_gas(env0, env@.tx.gas_limit),
            decreases highest - lowest,
        {
            env.tx.gas_limit = mid;
            proof {
                assert(env@ =~= with_gas(env0, mid));
            }
            match evm.transact(&cache, &env) {
                Err(e) => {
                    match e {
                        EvmError::GasTooHigh => {
                            // the probe's limit was below the intrinsic need
                            lowest = mid;
                        },
                        _ => {
                            return Err(evm_error_to_api(e));
                        },
                    }
                },
                Ok(exec) => {
                    match exec.outcome {
                        ExecutionOutcome::Success { .. } => {
                            highest = mid;
                        },
                        ExecutionOutcome::Revert { .. } => {
                            lowest = mid;
                        },
                        ExecutionOutcome::Halt { reason, .. } => {
                            match reason {
                                HaltReason::OutOfGas => {
                                    lowest = mid;
                                },
                                _ => {
                                    // unreachable when the adapter is
                                    // consistent with the success at the
                                    // upper bound; reported as a failure
                                    return Err(
                                        EthApiError::InvalidTransaction(
                                            InvalidTxError::EvmHalt(reason),
                                        ),
                                    );
                                },
                            }
                        },
                    }
                },
            }
            mid = (((lowest as u128) + (highest as u128)) / 2) as u64;
        }
        Ok(highest)
    }

    /// Estimates the gas needed to execute the request at a resolved block.
    pub fn estimate_gas_at<E: Evm>(
        &self,
        evm: &E,
        cfg: CfgEnv,
        block: BlockEnv,
        request: &CallRequest,
        snapshot: &StateSnapshot,
    ) -> (r: Result<u64, EthApiError>)
        ensures
            estimate_post(*evm, snapshot@, cfg, block@, request@, self.gas_cap, gas_result_view(r)),
    {
        self.estimate_gas_with(evm, cfg, block, request, snapshot)
    }
}

/// Maps a halt to the failure it is reported as.
pub fn halt_error(reason: HaltReason, gas_used: u64) -> (r: InvalidTxError)
    ensures
        r@ == halt_error_v(reason, gas_used),
{
    match reason {
        HaltReason::OutOfGas => InvalidTxError::BasicOutOfGas(gas_used),
        _ => InvalidTxError::EvmHalt(reason),
    }
}

/// Executes the request again at the block's full gas limit after a
/// gas-related failure, to tell whether the failure was a genuine revert or
/// a gas shortfall; always reports a failure.
pub fn map_out_of_gas_err<E: Evm>(
    evm: &E,
    cache: &OverlayCache<'_>,
    env: ExecEnv,
    env_gas_limit: u64,
    req_gas_limit: u64,
) -> (r: EthApiError)
    ensures
        r@ == map_oog_spec(*evm, cache.state(), env@, env_gas_limit, req_gas_limit),
{
    let mut env = env;
    let ghost env0 = env@;
    env.tx.gas_limit = env_gas_limit;
    proof {
        assert(env@ =~= with_gas(env0, env_gas_limit));
    }
    match evm.transact(cache, &env) {
        Err(e) => evm_error_to_api(e),
        Ok(exec) => match exec.outcome {
            ExecutionOutcome::Success { .. } => EthApiError::InvalidTransaction(
                InvalidTxError::BasicOutOfGas(req_gas_limit),
            ),
            ExecutionOutcome::Revert { output, .. } => EthApiError::InvalidTransaction(
                InvalidTxError::Revert(output),
            ),
            ExecutionOutcome::Halt { reason, .. } => EthApiError::InvalidTransaction(
                InvalidTxError::EvmHalt(reason),
            ),
        },
    }
}

} // verus!
