//! The bundle replayer: runs an ordered sequence of calls against one shared
//! overlay cache, optionally after replaying the target block's
//! already-included transactions up to a cursor, with a state override
//! applied exactly once before the first call.

use vstd::prelude::*;

use crate::env::{
    apply_block_override_spec, apply_block_override, prepare_call_env,
    prepare_env_spec, BlockEnv, BlockEnvV, CfgEnv, EnvV, ExecEnv, TxEnv, TxEnvV,
};
use crate::errors::{
    error_message, error_message_v, evm_error_to_api, evm_error_to_api_spec, EthApiError,
    EthApiErrorV,
};
use crate::estimate::EthApi;
use crate::evm::{ensure_success, ensure_success_spec, Evm, Execution, OutcomeV};
use crate::foreign::{recover_signer, recovered_sender};
use crate::state::{apply_changes_v, OverlayCache};
use crate::types::{
    changes_view, copy_bytes, AccountChanges, AccountChangesV, Address, Bundle, CallRequestV,
    EthCallResponse, EthCallResponseV, ReplayTx, StateContext, StateSnapshot, StateV,
};

verus! {

/// Mathematical view of a replayed transaction.
#[verifier::ext_equal]
pub struct ReplayTxV {
    pub sig_r: Seq<u8>,
    pub sig_s: Seq<u8>,
    pub sig_v: u64,
    pub sig_hash: Seq<u8>,
    pub to: Option<Seq<u8>>,
    pub value: u128,
    pub input: Seq<u8>,
    pub gas_limit: u64,
    pub gas_price: u128,
}

impl View for ReplayTx {
    type V = ReplayTxV;

    open spec fn view(&self) -> ReplayTxV {
        ReplayTxV {
            sig_r: self.sig_r@,
            sig_s: self.sig_s@,
            sig_v: self.sig_v,
            sig_hash: self.sig_hash@,
            to: match self.to {
                Some(a) => Some(a@),
                None => None,
            },
            value: self.value,
            input: self.input@,
            gas_limit: self.gas_limit,
            gas_price: self.gas_price,
        }
    }
}

/// The view of a block body.
pub open spec fn body_view(s: Seq<ReplayTx>) -> Seq<ReplayTxV> {
    s.map_values(|t: ReplayTx| t@)
}

/// The environment a replayed transaction executes under, once its sender
/// has been recovered.
pub open spec fn replay_env_spec(
    cfg: CfgEnv,
    block: BlockEnvV,
    tx: ReplayTxV,
    sender: Seq<u8>,
) -> EnvV {
    EnvV {
        cfg,
        block,
        tx: TxEnvV {
            caller: sender,
            to: tx.to,
            value: tx.value,
            data: tx.input,
            gas_limit: tx.gas_limit,
            gas_price: tx.gas_price,
            access_list: Seq::empty(),
        },
    }
}

/// The state after replaying the given already-included transactions in
/// block order, committing each one's effects before the next, or the first
/// failure: an unrecoverable signature or an adapter error.
pub open spec fn replay_state_spec<E: Evm>(
    evm: E,
    cfg: CfgEnv,
    block: BlockEnvV,
    txs: Seq<ReplayTxV>,
    s: StateV,
) -> Result<StateV, EthApiErrorV>
    decreases txs.len(),
{
    if txs.len() == 0 {
        Ok(s)
    } else {
        let tx = txs.first();
        match recovered_sender(tx.sig_r, tx.sig_s, tx.sig_v, tx.sig_hash) {
            None => Err(EthApiErrorV::InvalidSignature),
            Some(sender) => match evm.transact_spec(s, replay_env_spec(cfg, block, tx, sender)) {
                Err(e) => Err(evm_error_to_api_spec(e)),
                Ok(exec) => replay_state_spec(
                    evm,
                    cfg,
                    block,
                    txs.drop_first(),
                    apply_changes_v(s, exec.changes),
                ),
            },
        }
    }
}

/// The result one bundled call contributes: the output of a success, or the
/// rendered message of its failure. A failing call never aborts the bundle.
pub open spec fn response_of_spec(o: OutcomeV) -> EthCallResponseV {
    match ensure_success_spec(o) {
        Ok(out) => EthCallResponseV { output: Some(out), error: None },
        Err(e) => EthCallResponseV { output: None, error: Some(error_message_v(e)) },
    }
}

/// The results of the bundled calls, executed strictly in request order
/// against the shared state, each call's changes committed before the next.
/// The state override is folded in before the first call and never again.
pub open spec fn run_calls_spec<E: Evm>(
    evm: E,
    cfg: CfgEnv,
    block: BlockEnvV,
    calls: Seq<CallRequestV>,
    ov: Option<Seq<(Seq<u8>, AccountChangesV)>>,
    gas_cap: u64,
    s: StateV,
) -> Result<Seq<EthCallResponseV>, EthApiErrorV>
    decreases calls.len(),
{
    if calls.len() == 0 {
        Ok(Seq::empty())
    } else {
        let s1 = match ov {
            Some(o) => apply_changes_v(s, o),
            None => s,
        };
        match prepare_env_spec(cfg, block, calls.first(), gas_cap, s1) {
            Err(e) => Err(e),
            Ok(env) => match evm.transact_spec(s1, env) {
                Err(e) => Err(evm_error_to_api_spec(e)),
                Ok(exec) => {
                    let resp = response_of_spec(exec.outcome);
                    match run_calls_spec(
                        evm,
                        cfg,
                        block,
                        calls.drop_first(),
                        None,
                        gas_cap,
                        apply_changes_v(s1, exec.changes),
                    ) {
                        Err(e) => Err(e),
                        Ok(rest) => Ok(seq![resp] + rest),
                    }
                },
            },
        }
    }
}

/// How many of the block's transactions the cursor replays: none when the
/// cursor names the block's full transaction count (the post-block snapshot
/// stands in for the replay), the prefix it selects otherwise.
pub open spec fn replay_count_spec(tx_index: Option<usize>, body_len: nat) -> nat {
    match tx_index {
        None => 0,
        Some(i) => {
            if i == body_len {
                0
            } else if i < body_len {
                i as nat
            } else {
                body_len
            }
        },
    }
}

/// What `call_many` returns for a bundle: a request-shape error for an empty
/// call list, else the replayed prefix's state threaded into the bundled
/// calls, one result per call.
pub open spec fn call_many_spec<E: Evm>(
    evm: E,
    cfg: CfgEnv,
    block: BlockEnvV,
    body: Seq<ReplayTxV>,
    calls: Seq<CallRequestV>,
    bo: Option<crate::types::BlockOverride>,
    tx_index: Option<usize>,
    ov: Option<Seq<(Seq<u8>, AccountChangesV)>>,
    gas_cap: u64,
    s0: StateV,
) -> Result<Seq<EthCallResponseV>, EthApiErrorV> {
    if calls.len() == 0 {
        Err(EthApiErrorV::InvalidParams("transactions are empty."@))
    } else {
        let n = replay_count_spec(tx_index, body.len());
        match replay_state_spec(evm, cfg, block, body.take(n as int), s0) {
            Err(e) => Err(e),
            Ok(s1) => {
                let blockv = match bo {
                    Some(o) => apply_block_override_spec(block, o),
                    None => block,
                };
                run_calls_spec(evm, cfg, blockv, calls, ov, gas_cap, s1)
            },
        }
    }
}

/// The view of a bundle result.
pub open spec fn responses_result_view(r: Result<Vec<EthCallResponse>, EthApiError>) -> Result<
    Seq<EthCallResponseV>,
    EthApiErrorV,
> {
    match r {
        Ok(rs) => Ok(rs@.map_values(|x: EthCallResponse| x@)),
        Err(e) => Err(e@),
    }
}

/// Recovers the sender of a replayed transaction from its signature.
pub fn recover_replay_sender(tx: &ReplayTx) -> (r: Option<Address>)
    ensures
        match r {
            Some(a) => recovered_sender(tx.sig_r@, tx.sig_s@, tx.sig_v, tx.sig_hash@) == Some(a@),
            None => recovered_sender(tx.sig_r@, tx.sig_s@, tx.sig_v, tx.sig_hash@) is None,
        },
{
    recover_signer(&tx.sig_r, &tx.sig_s, tx.sig_v, &tx.sig_hash)
}

/// Builds the execution environment of one replayed transaction.
fn build_replay_env(cfg: CfgEnv, block: BlockEnv, tx: &ReplayTx, sender: Address) -> (r: ExecEnv)
    ensures
        r@ == replay_env_spec(cfg, block@, tx@, sender@),
{
    let env = ExecEnv {
        cfg,
        block,
        tx: TxEnv {
            caller: sender,
            to: tx.to,
            value: tx.value,
            data: copy_bytes(&tx.input),
            gas_limit: tx.gas_limit,
            gas_price: tx.gas_price,
            access_list: Vec::new(),
        },
    };
    proof {
        assert(crate::types::access_list_view(Seq::<crate::types::AccessItem>::empty()) =~= Seq::<
            crate::types::AccessItemV,
        >::empty());
        assert(env@ =~= replay_env_spec(cfg, block@, tx@, sender@));
    }
    env
}

/// Replays the first `num_txs` transactions of the block body against the
/// cache, strictly in block order, committing each one's effects before the
/// next, recovering each sender from its signature.
#[verifier::loop_isolation(false)]
fn replay_prefix<E: Evm>(
    evm: &E,
    cfg: CfgEnv,
    block: BlockEnv,
    body: &Vec<ReplayTx>,
    num_txs: usize,
    cache: &mut OverlayCache<'_>,
) -> (r: Result<(), EthApiError>)
    requires
        num_txs <= body@.len(),
    ensures
        final(cache).snapshot == old(cache).snapshot,
        match r {
            Ok(_) => replay_state_spec(
                *evm,
                cfg,
                block@,
                body_view(body@).take(num_txs as int),
                old(cache).state(),
            ) == Ok::<StateV, EthApiErrorV>(final(cache).state()),
            Err(e) => replay_state_spec(
                *evm,
                cfg,
                block@,
                body_view(body@).take(num_txs as int),
                old(cache).state(),
            ) == Err::<StateV, EthApiErrorV>(e@),
        },
{
    let ghost bodyv = body_view(body@);
    let ghost s0 = cache.state();
    proof {
        assert(bodyv.take(num_txs as int).skip(0) =~= bodyv.take(num_txs as int));
    }
    let mut i: usize = 0;
    while i < num_txs
        invariant
            i <= num_txs,
            cache.snapshot == old(cache).snapshot,
            replay_state_spec(*evm, cfg, block@, bodyv.take(num_txs as int), s0)
                == replay_state_spec(
                *evm,
                cfg,
                block@,
                bodyv.take(num_txs as int).skip(i as int),
                cache.state(),
            ),
        decreases num_txs - i,
    {
        let ghost rem = bodyv.take(num_txs as int).skip(i as int);
        proof {
            assert(rem.len() > 0);
            assert(rem.first() == bodyv[i as int]);
            assert(bodyv[i as int] == body@[i as int]@);
            assert(rem.drop_first() =~= bodyv.take(num_txs as int).skip(i + 1 as int));
        }
        let tx = &body[i];
        let sender = match recover_replay_sender(tx) {
            Some(a) => a,
            None => {
                return Err(EthApiError::InvalidSignature);
            },
        };
        let env = build_replay_env(cfg, block, tx, sender);
        let exec = match evm.transact(cache, &env) {
            Ok(exec) => exec,
            Err(e) => {
                return Err(evm_error_to_api(e));
            },
        };
        cache.commit(&exec.changes);
        i = i + 1;
    }
    proof {
        assert(bodyv.take(num_txs as int).skip(num_txs as int) =~= Seq::<ReplayTxV>::empty());
    }
    Ok(())
}

/// Runs the bundled calls in request order against the shared cache: the
/// state override is consumed before the first call, each call's changes are
/// committed before the next, and every call yields exactly one result,
/// failing or not.
#[verifier::loop_isolation(false)]
#[verifier::rlimit(100)]
fn run_bundle_calls<E: Evm>(
    evm: &E,
    cfg: CfgEnv,
    block: BlockEnv,
    transactions: Vec<crate::types::CallRequest>,
    state_override: Option<Vec<(Address, AccountChanges)>>,
    gas_cap: u64,
    cache: &mut OverlayCache<'_>,
) -> (r: Result<Vec<EthCallResponse>, EthApiError>)
    ensures
        final(cache).snapshot == old(cache).snapshot,
        responses_result_view(r) == run_calls_spec(
            *evm,
            cfg,
            block@,
            transactions@.map_values(|c: crate::types::CallRequest| c@),
            match state_override {
                Some(ref v) => Some(changes_view(v@)),
                None => None,
            },
            gas_cap,
            old(cache).state(),
        ),
        r matches Ok(rs) ==> rs@.len() == transactions@.len(),
{
    let ghost callsv = transactions@.map_values(|c: crate::types::CallRequest| c@);
    let ghost r_calls = run_calls_spec(
        *evm,
        cfg,
        block@,
        callsv,
        match state_override {
            Some(ref v) => Some(changes_view(v@)),
            None => None,
        },
        gas_cap,
        cache.state(),
    );

    let mut results: Vec<EthCallResponse> = Vec::new();
    let mut state_override = state_override;
    let mut j: usize = 0;
    proof {
        assert(callsv.skip(0) =~= callsv);
        assert(results@.map_values(|x: EthCallResponse| x@) =~= Seq::<EthCallResponseV>::empty());
    }
    while j < transactions.len()
        invariant
            j <= transactions@.len(),
            cache.snapshot == old(cache).snapshot,
            results@.len() == j,
            j > 0 ==> state_override is None,
            combine_results(
                results@.map_values(|x: EthCallResponse| x@),
                run_calls_spec(
                    *evm,
                    cfg,
                    block@,
                    callsv.skip(j as int),
                    match state_override {
                        Some(ref v) => Some(changes_view(v@)),
                        None => None,
                    },
                    gas_cap,
                    cache.state(),
                ),
            ) == r_calls,
        decreases transactions@.len() - j,
    {
        let ghost rem = callsv.skip(j as int);
        let ghost state_j = cache.state();
        let ghost ovv = match state_override {
            Some(ref v) => Some(changes_view(v@)),
            None => None,
        };
        proof {
            assert(rem.len() > 0);
            assert(rem.first() == callsv[j as int]);
            assert(callsv[j as int] == transactions@[j as int]@);
            assert(rem.drop_first() =~= callsv.skip(j + 1 as int));
        }

        // the state override is consumed by the first call alone
        let ov = state_override;
        state_override = None;
        let env = match prepare_call_env(
            cfg,
            block,
            &transactions[j],
            gas_cap,
            cache,
            match ov {
                Some(ref v) => Some(v),
                None => None,
            },
        ) {
            Ok(env) => env,
            Err(e) => {
                proof {
                    assert(run_calls_spec(*evm, cfg, block@, rem, ovv, gas_cap, state_j)
                        == Err::<Seq<EthCallResponseV>, EthApiErrorV>(e@));
                }
                return Err(e);
            },
        };
        let ghost s_mid = cache.state();
        proof {
            assert(s_mid == match ovv {
                Some(o) => apply_changes_v(state_j, o),
                None => state_j,
            });
        }
        let exec = match evm.transact(cache, &env) {
            Ok(exec) => exec,
            Err(e) => {
                proof {
                    assert(run_calls_spec(*evm, cfg, block@, rem, ovv, gas_cap, state_j)
                        == Err::<Seq<EthCallResponseV>, EthApiErrorV>(evm_error_to_api_spec(e)));
                }
                return Err(evm_error_to_api(e));
            },
        };
        let ghost execv = exec@;
        let Execution { outcome, changes } = exec;
        let ghost outv = outcome@;
        proof {
            assert(execv.outcome == outv);
            assert(execv.changes == changes_view(changes@));
        }
        let resp = match ensure_success(outcome) {
            Ok(out) => EthCallResponse { output: Some(out), error: None },
            Err(e) => EthCallResponse { output: None, error: Some(error_message(&e)) },
        };
        proof {
            assert(resp@ =~= response_of_spec(outv));
        }
        let ghost results_old = results@.map_values(|x: EthCallResponse| x@);
        results.push(resp);
        proof {
            assert(results@.map_values(|x: EthCallResponse| x@) =~= results_old.push(
                response_of_spec(outv),
            ));
        }
        if j + 1 < transactions.len() {
            // later calls observe this call's effects
            cache.commit(&changes);
        }
        j = j + 1;
        proof {
            let s_next = apply_changes_v(s_mid, execv.changes);
            let rest_next = run_calls_spec(
                *evm,
                cfg,
                block@,
                callsv.skip(j as int),
                None,
                gas_cap,
                s_next,
            );
            assert(run_calls_spec(*evm, cfg, block@, rem, ovv, gas_cap, state_j) == match rest_next {
                Err(e) => Err::<Seq<EthCallResponseV>, EthApiErrorV>(e),
                Ok(rest) => Ok(seq![response_of_spec(outv)] + rest),
            });
            if j < transactions@.len() {
                assert(cache.state() == s_next);
            } else {
                assert(callsv.skip(j as int) =~= Seq::<CallRequestV>::empty());
                assert(run_calls_spec(
                    *evm,
                    cfg,
                    block@,
                    callsv.skip(j as int),
                    None,
                    gas_cap,
                    cache.state(),
                ) == run_calls_spec(*evm, cfg, block@, callsv.skip(j as int), None, gas_cap, s_next));
            }
            match rest_next {
                Err(_) => (),
                Ok(rest) => {
                    assert(results_old + (seq![response_of_spec(outv)] + rest)
                        =~= results@.map_values(|x: EthCallResponse| x@) + rest);
                },
            }
        }
    }
    proof {
        assert(callsv.skip(transactions@.len() as int) =~= Seq::<CallRequestV>::empty());
        assert(responses_result_view(Ok(results)) == Ok::<Seq<EthCallResponseV>, EthApiErrorV>(
            results@.map_values(|x: EthCallResponse| x@) + Seq::<EthCallResponseV>::empty(),
        ));
    }
    Ok(results)
}

/// A prefix of results combined with the rest of a bundle run: a failure
/// passes through, results concatenate.
pub open spec fn combine_results(
    rs: Seq<EthCallResponseV>,
    x: Result<Seq<EthCallResponseV>, EthApiErrorV>,
) -> Result<Seq<EthCallResponseV>, EthApiErrorV> {
    match x {
        Err(e) => Err(e),
        Ok(rest) => Ok(rs + rest),
    }
}

impl EthApi {
    /// Simulates a bundle of calls at an intra-block position: rejects an
    /// empty bundle, replays the block's transactions up to the cursor, then
    /// runs every bundled call in order against the shared overlay cache,
    /// committing each call's changes before the next. Always returns one
    /// result per submitted call on success; a failing call is reported in
    /// its own entry and never aborts the bundle. The snapshot is read-only
    /// and never mutated.
    pub fn call_many<E: Evm>(
        &self,
        evm: &E,
        cfg: CfgEnv,
        block: BlockEnv,
        body: &Vec<ReplayTx>,
        bundle: Bundle,
        state_context: Option<StateContext>,
        state_override: Option<Vec<(Address, AccountChanges)>>,
        snapshot: &StateSnapshot,
    ) -> (r: Result<Vec<EthCallResponse>, EthApiError>)
        ensures
            responses_result_view(r) == call_many_spec(
                *evm,
                cfg,
                block@,
                body_view(body@),
                bundle.transactions@.map_values(|c: crate::types::CallRequest| c@),
                bundle.block_override,
                match state_context {
                    Some(sc) => sc.transaction_index,
                    None => None,
                },
                match state_override {
                    Some(ref v) => Some(changes_view(v@)),
                    None => None,
                },
                self.gas_cap,
                snapshot@,
            ),
            r matches Ok(rs) ==> rs@.len() == bundle.transactions@.len(),
    {
        let transactions = bundle.transactions;
        if transactions.len() == 0 {
            return Err(EthApiError::InvalidParams(String::from_str("transactions are empty.")));
        }

        let tx_index: Option<usize> = match state_context {
            Some(sc) => sc.transaction_index,
            None => None,
        };
        let num_txs: usize = match tx_index {
            None => 0,
            Some(i) => {
                if i == body.len() {
                    0
                } else if i < body.len() {
                    i
                } else {
                    body.len()
                }
            },
        };
        let ghost bodyv = body_view(body@);
        assert(num_txs == replay_count_spec(tx_index, bodyv.len()));

        let mut cache = OverlayCache::new(snapshot);

        // replay the block's transactions before the cursor; a cursor equal
        // to the block's transaction count replays nothing, since the
        // caller then hands in the post-block snapshot directly
        match replay_prefix(evm, cfg, block, body, num_txs, &mut cache) {
            Ok(_) => (),
            Err(e) => {
                return Err(e);
            },
        }

        // the block overrides apply uniformly to every bundled call
        let block = match bundle.block_override {
            Some(o) => apply_block_override(block, &o),
            None => block,
        };

        run_bundle_calls(evm, cfg, block, transactions, state_override, self.gas_cap, &mut cache)
    }
}

} // verus!
