//! The engine's cross-cutting guarantees, stated and proved over the spec
//! functions that the public contracts speak of.

use vstd::prelude::*;

use crate::bundle::{call_many_spec, replay_count_spec, replay_state_spec, run_calls_spec, ReplayTxV};
use crate::call::call_spec;
use crate::env::{BlockEnvV, CfgEnv, MIN_CREATE_GAS, MIN_TRANSACTION_GAS};
use crate::errors::{EthApiErrorV, InvalidTxErrorV};
use crate::estimate::{
    estimate_env_spec, estimate_post, initial_highest_spec, is_plain_transfer, succeeds_at,
};
use crate::evm::Evm;
use crate::state::state_balance;
use crate::types::{AccountChangesV, BlockOverride, CallRequestV, EthCallResponseV, StateV};

verus! {

/// Law: the estimator's result re-executes successfully at exactly the
/// returned limit. Whenever estimation takes the search path (the request is
/// not a plain transfer) and returns a gas amount, the adapter reports a
/// success for the same state and environment at that amount.
pub proof fn lemma_estimate_result_succeeds<E: Evm>(
    evm: E,
    s: StateV,
    cfg: CfgEnv,
    block: BlockEnvV,
    req: CallRequestV,
    gas_cap: u64,
    g: u64,
)
    requires
        estimate_post(evm, s, cfg, block, req, gas_cap, Ok(g)),
        estimate_env_spec(cfg, block, req, gas_cap) matches Ok(env) && !is_plain_transfer(s, env),
    ensures
        estimate_env_spec(cfg, block, req, gas_cap) matches Ok(env) && succeeds_at(evm, s, env, g),
{
}

/// Law: a plain transfer is estimated without any execution. With the
/// sender's balance covering the value, the estimate is exactly the transfer
/// floor; with a smaller balance, estimation fails with the
/// insufficient-funds-for-transfer error.
pub proof fn lemma_plain_transfer_estimate<E: Evm>(
    evm: E,
    s: StateV,
    cfg: CfgEnv,
    block: BlockEnvV,
    req: CallRequestV,
    gas_cap: u64,
    r: Result<u64, EthApiErrorV>,
)
    requires
        estimate_post(evm, s, cfg, block, req, gas_cap, r),
        estimate_env_spec(cfg, block, req, gas_cap) matches Ok(env) && is_plain_transfer(s, env),
    ensures
        estimate_env_spec(cfg, block, req, gas_cap) matches Ok(env) && (if state_balance(
            s,
            env.tx.caller,
        ) >= env.tx.value {
            r == Ok::<u64, EthApiErrorV>(MIN_TRANSACTION_GAS)
        } else {
            r == Err::<u64, EthApiErrorV>(
                EthApiErrorV::InvalidTransaction(InvalidTxErrorV::InsufficientFundsForTransfer),
            )
        }),
{
}

/// Law: a contract creation is searched down to the creation floor, never
/// the transfer floor. A gas amount estimated for a request without a
/// recipient either exceeds the creation floor or is the starting upper
/// bound itself.
pub proof fn lemma_creation_floor<E: Evm>(
    evm: E,
    s: StateV,
    cfg: CfgEnv,
    block: BlockEnvV,
    req: CallRequestV,
    gas_cap: u64,
    g: u64,
)
    requires
        estimate_post(evm, s, cfg, block, req, gas_cap, Ok(g)),
        estimate_env_spec(cfg, block, req, gas_cap) matches Ok(env),
        req.to is None,
    ensures
        estimate_env_spec(cfg, block, req, gas_cap) matches Ok(env) && (initial_highest_spec(
            s,
            env,
            req,
            block,
        ) matches Ok(h0) && (g == h0 || g > MIN_CREATE_GAS)),
{
}

/// Law: simulation never mutates the snapshot, so executing the same call
/// twice against the same snapshot yields identical results. The engine
/// takes the snapshot immutably and discards its overlay with the query;
/// what `call` returns is a function of the inputs alone, so two runs agree.
pub proof fn lemma_call_repeatable<E: Evm>(
    evm: E,
    s: StateV,
    cfg: CfgEnv,
    block: BlockEnvV,
    req: CallRequestV,
    gas_cap: u64,
    ov: Option<Seq<(Seq<u8>, AccountChangesV)>>,
    bo: Option<BlockOverride>,
    r1: Result<Seq<u8>, EthApiErrorV>,
    r2: Result<Seq<u8>, EthApiErrorV>,
)
    requires
        r1 == call_spec(evm, s, cfg, block, req, gas_cap, ov, bo),
        r2 == call_spec(evm, s, cfg, block, req, gas_cap, ov, bo),
    ensures
        r1 == r2,
{
}

/// Law: in a bundle, a call's result depends only on the calls before it.
/// Truncating a bundle that ran through preserves the results of the calls
/// that remain.
pub proof fn lemma_bundle_prefix<E: Evm>(
    evm: E,
    cfg: CfgEnv,
    block: BlockEnvV,
    calls: Seq<CallRequestV>,
    ov: Option<Seq<(Seq<u8>, AccountChangesV)>>,
    gas_cap: u64,
    s: StateV,
    k: int,
)
    requires
        0 <= k <= calls.len(),
        run_calls_spec(evm, cfg, block, calls, ov, gas_cap, s) is Ok,
    ensures
        run_calls_spec(evm, cfg, block, calls, ov, gas_cap, s) matches Ok(full)
            ==> run_calls_spec(evm, cfg, block, calls.take(k), ov, gas_cap, s) == Ok::<
            Seq<EthCallResponseV>,
            EthApiErrorV,
        >(full.take(k)),
    decreases k,
{
    let full_r = run_calls_spec(evm, cfg, block, calls, ov, gas_cap, s);
    if k == 0 {
        assert(calls.take(0) =~= Seq::<CallRequestV>::empty());
        match full_r {
            Ok(full) => {
                assert(full.take(0) =~= Seq::<EthCallResponseV>::empty());
            },
            Err(_) => (),
        }
    } else {
        match full_r {
            Ok(full) => {
                let s1 = match ov {
                    Some(o) => crate::state::apply_changes_v(s, o),
                    None => s,
                };
                match crate::env::prepare_env_spec(cfg, block, calls.first(), gas_cap, s1) {
                    Err(_) => (),
                    Ok(env) => match evm.transact_spec(s1, env) {
                        Err(_) => (),
                        Ok(exec) => {
                            let resp = crate::bundle::response_of_spec(exec.outcome);
                            let s_next = crate::state::apply_changes_v(s1, exec.changes);
                            let rest_r = run_calls_spec(
                                evm,
                                cfg,
                                block,
                                calls.drop_first(),
                                None,
                                gas_cap,
                                s_next,
                            );
                            lemma_bundle_prefix(
                                evm,
                                cfg,
                                block,
                                calls.drop_first(),
                                None,
                                gas_cap,
                                s_next,
                                k - 1,
                            );
                            assert(calls.take(k).len() == k);
                            assert(calls.take(k).first() == calls.first());
                            assert(calls.take(k).drop_first() =~= calls.drop_first().take(k - 1));
                            match rest_r {
                                Ok(rest) => {
                                    lemma_run_calls_len(
                                        evm,
                                        cfg,
                                        block,
                                        calls.drop_first(),
                                        None,
                                        gas_cap,
                                        s_next,
                                    );
                                    assert(rest.len() == calls.len() - 1);
                                    assert(full == seq![resp] + rest);
                                    assert((seq![resp] + rest.take(k - 1)) =~= (seq![resp]
                                        + rest).take(k));
                                },
                                Err(_) => (),
                            }
                        },
                    },
                }
            },
            Err(_) => (),
        }
    }
}

/// Law: no forward causality in a bundle. When two bundles agree on their
/// first `i + 1` calls and both run through, their results agree at
/// position `i`: removing or changing later calls never changes an earlier
/// call's result.
pub proof fn lemma_no_forward_causality<E: Evm>(
    evm: E,
    cfg: CfgEnv,
    block: BlockEnvV,
    calls_a: Seq<CallRequestV>,
    calls_b: Seq<CallRequestV>,
    ov: Option<Seq<(Seq<u8>, AccountChangesV)>>,
    gas_cap: u64,
    s: StateV,
    i: int,
)
    requires
        0 <= i < calls_a.len(),
        i < calls_b.len(),
        calls_a.take(i + 1) == calls_b.take(i + 1),
        run_calls_spec(evm, cfg, block, calls_a, ov, gas_cap, s) is Ok,
        run_calls_spec(evm, cfg, block, calls_b, ov, gas_cap, s) is Ok,
    ensures
        run_calls_spec(evm, cfg, block, calls_a, ov, gas_cap, s) matches Ok(ra)
            ==> run_calls_spec(evm, cfg, block, calls_b, ov, gas_cap, s) matches Ok(rb) && ra[i]
            == rb[i],
{
    lemma_bundle_prefix(evm, cfg, block, calls_a, ov, gas_cap, s, i + 1);
    lemma_bundle_prefix(evm, cfg, block, calls_b, ov, gas_cap, s, i + 1);
    lemma_run_calls_len(evm, cfg, block, calls_a, ov, gas_cap, s);
    lemma_run_calls_len(evm, cfg, block, calls_b, ov, gas_cap, s);
    match run_calls_spec(evm, cfg, block, calls_a, ov, gas_cap, s) {
        Ok(ra) => match run_calls_spec(evm, cfg, block, calls_b, ov, gas_cap, s) {
            Ok(rb) => {
                assert(ra.take(i + 1) == rb.take(i + 1));
                assert(ra.take(i + 1)[i] == ra[i]);
                assert(rb.take(i + 1)[i] == rb[i]);
            },
            Err(_) => (),
        },
        Err(_) => (),
    }
}

/// A bundle that runs through yields exactly one result per call.
pub proof fn lemma_run_calls_len<E: Evm>(
    evm: E,
    cfg: CfgEnv,
    block: BlockEnvV,
    calls: Seq<CallRequestV>,
    ov: Option<Seq<(Seq<u8>, AccountChangesV)>>,
    gas_cap: u64,
    s: StateV,
)
    ensures
        run_calls_spec(evm, cfg, block, calls, ov, gas_cap, s) matches Ok(r) ==> r.len()
            == calls.len(),
    decreases calls.len(),
{
    if calls.len() > 0 {
        let s1 = match ov {
            Some(o) => crate::state::apply_changes_v(s, o),
            None => s,
        };
        match crate::env::prepare_env_spec(cfg, block, calls.first(), gas_cap, s1) {
            Err(_) => (),
            Ok(env) => match evm.transact_spec(s1, env) {
                Err(_) => (),
                Ok(exec) => {
                    lemma_run_calls_len(
                        evm,
                        cfg,
                        block,
                        calls.drop_first(),
                        None,
                        gas_cap,
                        crate::state::apply_changes_v(s1, exec.changes),
                    );
                },
            },
        }
    }
}

/// Law: a replay cursor equal to the block's full transaction count replays
/// nothing — the post-block snapshot stands in for the block's own
/// transactions, and the bundle runs directly against the given state.
pub proof fn lemma_full_cursor_skips_replay<E: Evm>(
    evm: E,
    cfg: CfgEnv,
    block: BlockEnvV,
    body: Seq<ReplayTxV>,
    calls: Seq<CallRequestV>,
    bo: Option<BlockOverride>,
    ov: Option<Seq<(Seq<u8>, AccountChangesV)>>,
    gas_cap: u64,
    s0: StateV,
    cursor: usize,
)
    requires
        calls.len() > 0,
        cursor == body.len(),
    ensures
        replay_count_spec(Some(cursor), body.len()) == 0,
        call_many_spec(evm, cfg, block, body, calls, bo, Some(cursor), ov, gas_cap, s0)
            == run_calls_spec(
            evm,
            cfg,
            match bo {
                Some(o) => crate::env::apply_block_override_spec(block, o),
                None => block,
            },
            calls,
            ov,
            gas_cap,
            s0,
        ),
{
    assert(body.take(0) =~= Seq::<ReplayTxV>::empty());
    assert(replay_state_spec(evm, cfg, block, body.take(0), s0) == Ok::<StateV, EthApiErrorV>(s0));
}

/// Law: an empty bundle is rejected with the request-shape error that names
/// the empty transaction list, before anything is resolved or executed.
pub proof fn lemma_empty_bundle_rejected<E: Evm>(
    evm: E,
    cfg: CfgEnv,
    block: BlockEnvV,
    body: Seq<ReplayTxV>,
    bo: Option<BlockOverride>,
    tx_index: Option<usize>,
    ov: Option<Seq<(Seq<u8>, AccountChangesV)>>,
    gas_cap: u64,
    s0: StateV,
)
    ensures
        call_many_spec(evm, cfg, block, body, Seq::empty(), bo, tx_index, ov, gas_cap, s0) == Err::<
            Seq<EthCallResponseV>,
            EthApiErrorV,
        >(EthApiErrorV::InvalidParams("transactions are empty."@)),
{
}

} // verus!
