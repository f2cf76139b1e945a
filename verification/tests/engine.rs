use std::cell::Cell;

use eth_call_engine::{
    AccessItem, Account, AccountChanges, Address, BlockEnv, Bundle, CallRequest, CfgEnv, EthApi,
    EthApiError, Evm, EvmError, Execution, ExecutionOutcome, HaltReason, InvalidTxError,
    OverlayCache, ReplayTx, SpecKind, StateContext, StateSnapshot, TraceSeed, MIN_CREATE_GAS,
    MIN_TRANSACTION_GAS,
};

fn addr(n: u8) -> Address {
    let mut bytes = [0u8; 20];
    bytes[19] = n;
    Address { bytes }
}

fn account(balance: u128) -> Account {
    Account { balance, nonce: 0, code: Vec::new(), storage: Vec::new() }
}

fn cfg() -> CfgEnv {
    CfgEnv {
        chain_id: 1,
        spec: SpecKind::Berlin,
        disable_eip3607: false,
        disable_base_fee: false,
        disable_block_gas_limit: false,
    }
}

fn block() -> BlockEnv {
    BlockEnv { number: 1, timestamp: 0, gas_limit: 30_000_000, base_fee: 0, coinbase: addr(0xcc) }
}

fn api() -> EthApi {
    EthApi { gas_cap: 50_000_000 }
}

fn plain_request(from: Address, to: Option<Address>, value: u128) -> CallRequest {
    CallRequest {
        from: Some(from),
        to,
        value,
        input: Vec::new(),
        gas: None,
        gas_price: None,
        max_fee_per_gas: None,
        max_priority_fee_per_gas: None,
        access_list: None,
    }
}

enum MockMode {
    AlwaysSucceed,
    SucceedAtOrAbove(u64),
    AlwaysRevert(Vec<u8>),
    GasTooHighBelow(u64),
    Transfer,
    HaltNonceOverflow,
}

struct MockEvm {
    mode: MockMode,
    calls: Cell<u64>,
    traced_calls: Cell<u64>,
}

impl MockEvm {
    fn new(mode: MockMode) -> MockEvm {
        MockEvm { mode, calls: Cell::new(0), traced_calls: Cell::new(0) }
    }
}

fn balance_in(cache: &OverlayCache<'_>, a: &Address) -> u128 {
    match cache.read_account(a) {
        Some(acc) => acc.balance,
        None => 0,
    }
}

impl Evm for MockEvm {
    fn transact(
        &self,
        cache: &OverlayCache<'_>,
        env: &eth_call_engine::ExecEnv,
    ) -> Result<Execution, EvmError> {
        self.calls.set(self.calls.get() + 1);
        match &self.mode {
            MockMode::AlwaysSucceed => Ok(Execution {
                outcome: ExecutionOutcome::Success { output: vec![0xaa], gas_used: 55_000 },
                changes: Vec::new(),
            }),
            MockMode::SucceedAtOrAbove(n) => {
                if env.tx.gas_limit >= *n {
                    Ok(Execution {
                        outcome: ExecutionOutcome::Success { output: vec![0xaa], gas_used: 55_000 },
                        changes: Vec::new(),
                    })
                } else {
                    Ok(Execution {
                        outcome: ExecutionOutcome::Revert { output: vec![0xff], gas_used: env.tx.gas_limit },
                        changes: Vec::new(),
                    })
                }
            }
            MockMode::AlwaysRevert(payload) => Ok(Execution {
                outcome: ExecutionOutcome::Revert { output: payload.clone(), gas_used: 30_000 },
                changes: Vec::new(),
            }),
            MockMode::GasTooHighBelow(n) => {
                if env.tx.gas_limit < *n {
                    Err(EvmError::GasTooHigh)
                } else {
                    Ok(Execution {
                        outcome: ExecutionOutcome::Success { output: vec![0xaa], gas_used: 55_000 },
                        changes: Vec::new(),
                    })
                }
            }
            MockMode::Transfer => {
                let from_balance = balance_in(cache, &env.tx.caller);
                if from_balance < env.tx.value {
                    return Ok(Execution {
                        outcome: ExecutionOutcome::Revert { output: Vec::new(), gas_used: 21_000 },
                        changes: Vec::new(),
                    });
                }
                let to = match env.tx.to {
                    Some(to) => to,
                    None => return Err(EvmError::Internal),
                };
                let to_balance = balance_in(cache, &to) + env.tx.value;
                let changes = vec![
                    (
                        env.tx.caller,
                        AccountChanges {
                            balance: Some(from_balance - env.tx.value),
                            nonce: None,
                            code: None,
                            storage: Vec::new(),
                        },
                    ),
                    (
                        to,
                        AccountChanges {
                            balance: Some(to_balance),
                            nonce: None,
                            code: None,
                            storage: Vec::new(),
                        },
                    ),
                ];
                Ok(Execution {
                    outcome: ExecutionOutcome::Success {
                        output: to_balance.to_le_bytes().to_vec(),
                        gas_used: 21_000,
                    },
                    changes,
                })
            }
            MockMode::HaltNonceOverflow => Ok(Execution {
                outcome: ExecutionOutcome::Halt { reason: HaltReason::NonceOverflow, gas_used: 1 },
                changes: Vec::new(),
            }),
        }
    }

    fn transact_traced(
        &self,
        _cache: &OverlayCache<'_>,
        _env: &eth_call_engine::ExecEnv,
        seed: &TraceSeed,
    ) -> Result<(ExecutionOutcome, Vec<AccessItem>), EvmError> {
        self.traced_calls.set(self.traced_calls.get() + 1);
        match &self.mode {
            MockMode::AlwaysRevert(payload) => Ok((
                ExecutionOutcome::Revert { output: payload.clone(), gas_used: 1 },
                Vec::new(),
            )),
            MockMode::HaltNonceOverflow => Ok((
                ExecutionOutcome::Halt { reason: HaltReason::NonceOverflow, gas_used: 1 },
                Vec::new(),
            )),
            _ => {
                let mut list = vec![AccessItem { address: seed.to, storage_keys: vec![7] }];
                for p in &seed.precompiles {
                    list.push(AccessItem { address: *p, storage_keys: Vec::new() });
                }
                Ok((ExecutionOutcome::Success { output: Vec::new(), gas_used: 1 }, list))
            }
        }
    }
}

fn snapshot_of(entries: Vec<(Address, Account)>) -> StateSnapshot {
    StateSnapshot { accounts: entries }
}

#[test]
fn estimate_plain_transfer_returns_floor() {
    let alice = addr(1);
    let bob = addr(2);
    let snapshot = snapshot_of(vec![(alice, account(1_000_000))]);
    let evm = MockEvm::new(MockMode::AlwaysSucceed);
    let r = api().estimate_gas_with(&evm, cfg(), block(), &plain_request(alice, Some(bob), 10), &snapshot);
    assert_eq!(r.unwrap(), MIN_TRANSACTION_GAS);
    // the fast path performs no execution at all
    assert_eq!(evm.calls.get(), 0);
}

#[test]
fn estimate_plain_transfer_insufficient_funds() {
    let alice = addr(1);
    let bob = addr(2);
    let snapshot = snapshot_of(vec![(alice, account(5))]);
    let evm = MockEvm::new(MockMode::AlwaysSucceed);
    let r = api().estimate_gas_with(&evm, cfg(), block(), &plain_request(alice, Some(bob), 10), &snapshot);
    assert!(matches!(
        r,
        Err(EthApiError::InvalidTransaction(InvalidTxError::InsufficientFundsForTransfer))
    ));
    assert_eq!(evm.calls.get(), 0);
}

#[test]
fn estimate_converges_to_threshold() {
    let alice = addr(1);
    let bob = addr(2);
    let snapshot = snapshot_of(vec![(alice, account(1_000_000))]);
    let evm = MockEvm::new(MockMode::SucceedAtOrAbove(60_000));
    let mut request = plain_request(alice, Some(bob), 0);
    request.input = vec![1, 2, 3];
    let g = api().estimate_gas_with(&evm, cfg(), block(), &request, &snapshot).unwrap();
    assert_eq!(g, 60_000);
    // re-running with exactly the returned limit still succeeds
    let cache = OverlayCache::new(&snapshot);
    let mut env = eth_call_engine::ExecEnv {
        cfg: cfg(),
        block: block(),
        tx: eth_call_engine::TxEnv {
            caller: alice,
            to: Some(bob),
            value: 0,
            data: vec![1, 2, 3],
            gas_limit: g,
            gas_price: 0,
            access_list: Vec::new(),
        },
    };
    env.tx.gas_limit = g;
    let rerun = evm.transact(&cache, &env).unwrap();
    assert!(matches!(rerun.outcome, ExecutionOutcome::Success { .. }));
}

#[test]
fn estimate_creation_uses_creation_floor() {
    let alice = addr(1);
    let snapshot = snapshot_of(vec![(alice, account(1_000_000))]);
    let evm = MockEvm::new(MockMode::AlwaysSucceed);
    let g = api().estimate_gas_with(&evm, cfg(), block(), &plain_request(alice, None, 0), &snapshot).unwrap();
    // a call that succeeds everywhere bisects down to just above the floor
    assert_eq!(g, MIN_CREATE_GAS + 1);
}

#[test]
fn estimate_call_uses_transfer_floor() {
    let alice = addr(1);
    let bob = addr(2);
    let snapshot = snapshot_of(vec![(alice, account(1_000_000))]);
    let evm = MockEvm::new(MockMode::AlwaysSucceed);
    let mut request = plain_request(alice, Some(bob), 0);
    request.input = vec![1];
    let g = api().estimate_gas_with(&evm, cfg(), block(), &request, &snapshot).unwrap();
    assert_eq!(g, MIN_TRANSACTION_GAS + 1);
}

#[test]
fn estimate_creation_revert_carries_payload() {
    let alice = addr(1);
    let snapshot = snapshot_of(vec![(alice, account(1_000_000))]);
    let evm = MockEvm::new(MockMode::AlwaysRevert(vec![0xde, 0xad]));
    let r = api().estimate_gas_with(&evm, cfg(), block(), &plain_request(alice, None, 0), &snapshot);
    match r {
        Err(EthApiError::InvalidTransaction(InvalidTxError::Revert(payload))) => {
            assert_eq!(payload, vec![0xde, 0xad]);
        }
        other => panic!("expected a revert, got {:?}", other),
    }
}

#[test]
fn estimate_gas_too_high_propagates_without_explicit_gas() {
    let alice = addr(1);
    let snapshot = snapshot_of(vec![(alice, account(1_000_000))]);
    let evm = MockEvm::new(MockMode::GasTooHighBelow(40_000_000));
    let mut request = plain_request(alice, None, 0);
    request.input = vec![1];
    let r = api().estimate_gas_with(&evm, cfg(), block(), &request, &snapshot);
    assert!(matches!(r, Err(EthApiError::InvalidTransaction(InvalidTxError::GasTooHigh))));
}

#[test]
fn estimate_explicit_gas_disambiguates_to_out_of_gas() {
    let alice = addr(1);
    let snapshot = snapshot_of(vec![(alice, account(1_000_000))]);
    let evm = MockEvm::new(MockMode::GasTooHighBelow(200_000));
    let mut request = plain_request(alice, None, 0);
    request.input = vec![1];
    request.gas = Some(100_000);
    let r = api().estimate_gas_with(&evm, cfg(), block(), &request, &snapshot);
    match r {
        Err(EthApiError::InvalidTransaction(InvalidTxError::BasicOutOfGas(g))) => {
            assert_eq!(g, 100_000);
        }
        other => panic!("expected basic out of gas, got {:?}", other),
    }
}

#[test]
fn estimate_allowance_insufficient_funds() {
    let alice = addr(1);
    let snapshot = snapshot_of(vec![(alice, account(5))]);
    let evm = MockEvm::new(MockMode::AlwaysSucceed);
    let mut request = plain_request(alice, None, 10);
    request.input = vec![1];
    request.gas_price = Some(2);
    let r = api().estimate_gas_with(&evm, cfg(), block(), &request, &snapshot);
    assert!(matches!(
        r,
        Err(EthApiError::InvalidTransaction(InvalidTxError::InsufficientFunds))
    ));
}

#[test]
fn call_returns_output() {
    let alice = addr(1);
    let bob = addr(2);
    let snapshot = snapshot_of(vec![(alice, account(100))]);
    let evm = MockEvm::new(MockMode::Transfer);
    let out = api()
        .call(&evm, cfg(), block(), &plain_request(alice, Some(bob), 10), &snapshot, None, None)
        .unwrap();
    assert_eq!(out, 10u128.to_le_bytes().to_vec());
}

#[test]
fn call_conflicting_fee_fields_rejected() {
    let alice = addr(1);
    let bob = addr(2);
    let snapshot = snapshot_of(vec![(alice, account(100))]);
    let evm = MockEvm::new(MockMode::Transfer);
    let mut request = plain_request(alice, Some(bob), 10);
    request.gas_price = Some(1);
    request.max_fee_per_gas = Some(2);
    let r = api().call(&evm, cfg(), block(), &request, &snapshot, None, None);
    match r {
        Err(EthApiError::InvalidParams(msg)) => {
            assert_eq!(msg, "both gasPrice and (maxFeePerGas or maxPriorityFeePerGas) specified");
        }
        other => panic!("expected invalid params, got {:?}", other),
    }
}

#[test]
fn call_twice_yields_identical_outputs() {
    let alice = addr(1);
    let bob = addr(2);
    let snapshot = snapshot_of(vec![(alice, account(100))]);
    let evm = MockEvm::new(MockMode::Transfer);
    let request = plain_request(alice, Some(bob), 10);
    let a = api().call(&evm, cfg(), block(), &request, &snapshot, None, None).unwrap();
    let b = api().call(&evm, cfg(), block(), &request, &snapshot, None, None).unwrap();
    // the snapshot was not mutated by the first run
    assert_eq!(a, b);
}

#[test]
fn call_many_empty_bundle_rejected() {
    let snapshot = snapshot_of(vec![]);
    let evm = MockEvm::new(MockMode::Transfer);
    let bundle = Bundle { transactions: Vec::new(), block_override: None };
    let r = api().call_many(&evm, cfg(), block(), &Vec::new(), bundle, None, None, &snapshot);
    match r {
        Err(EthApiError::InvalidParams(msg)) => assert_eq!(msg, "transactions are empty."),
        other => panic!("expected invalid params, got {:?}", other),
    }
}

fn garbage_replay_tx() -> ReplayTx {
    ReplayTx {
        sig_r: [0u8; 32],
        sig_s: [0u8; 32],
        sig_v: 27,
        sig_hash: [0x42u8; 32],
        to: Some(addr(9)),
        value: 0,
        input: Vec::new(),
        gas_limit: 21_000,
        gas_price: 0,
    }
}

#[test]
fn call_many_full_cursor_skips_replay() {
    let alice = addr(1);
    let bob = addr(2);
    let snapshot = snapshot_of(vec![(alice, account(100))]);
    let evm = MockEvm::new(MockMode::Transfer);
    // replaying any of these would fail on signature recovery
    let body = vec![garbage_replay_tx(), garbage_replay_tx()];
    let bundle = Bundle {
        transactions: vec![plain_request(alice, Some(bob), 10)],
        block_override: None,
    };
    let ctx = Some(StateContext { transaction_index: Some(2) });
    let rs = api().call_many(&evm, cfg(), block(), &body, bundle, ctx, None, &snapshot).unwrap();
    assert_eq!(rs.len(), 1);
    assert_eq!(rs[0].output.as_ref().unwrap(), &10u128.to_le_bytes().to_vec());
    // exactly one execution: the bundled call; no replay step ran
    assert_eq!(evm.calls.get(), 1);
}

#[test]
fn call_many_replay_bad_signature_fails() {
    let alice = addr(1);
    let bob = addr(2);
    let snapshot = snapshot_of(vec![(alice, account(100))]);
    let evm = MockEvm::new(MockMode::Transfer);
    let body = vec![garbage_replay_tx(), garbage_replay_tx()];
    let bundle = Bundle {
        transactions: vec![plain_request(alice, Some(bob), 10)],
        block_override: None,
    };
    let ctx = Some(StateContext { transaction_index: Some(1) });
    let r = api().call_many(&evm, cfg(), block(), &body, bundle, ctx, None, &snapshot);
    assert!(matches!(r, Err(EthApiError::InvalidSignature)));
}

#[test]
fn call_many_commits_between_calls() {
    let alice = addr(1);
    let bob = addr(2);
    let snapshot = snapshot_of(vec![(alice, account(100))]);
    let evm = MockEvm::new(MockMode::Transfer);
    let bundle = Bundle {
        transactions: vec![
            plain_request(alice, Some(bob), 10),
            plain_request(alice, Some(bob), 10),
        ],
        block_override: None,
    };
    let rs = api().call_many(&evm, cfg(), block(), &Vec::new(), bundle, None, None, &snapshot).unwrap();
    assert_eq!(rs.len(), 2);
    // the second call observes the first call's committed transfer
    assert_eq!(rs[0].output.as_ref().unwrap(), &10u128.to_le_bytes().to_vec());
    assert_eq!(rs[1].output.as_ref().unwrap(), &20u128.to_le_bytes().to_vec());
}

#[test]
fn call_many_state_override_applied_once() {
    let alice = addr(1);
    let bob = addr(2);
    let snapshot = snapshot_of(vec![(alice, account(100))]);
    let evm = MockEvm::new(MockMode::Transfer);
    let bundle = Bundle {
        transactions: vec![
            plain_request(alice, Some(bob), 10),
            plain_request(alice, Some(bob), 10),
        ],
        block_override: None,
    };
    let overrides = vec![(
        bob,
        AccountChanges { balance: Some(500), nonce: None, code: None, storage: Vec::new() },
    )];
    let rs = api()
        .call_many(&evm, cfg(), block(), &Vec::new(), bundle, None, Some(overrides), &snapshot)
        .unwrap();
    // the override seeds the first call; were it reapplied, the second
    // output would be 510 again
    assert_eq!(rs[0].output.as_ref().unwrap(), &510u128.to_le_bytes().to_vec());
    assert_eq!(rs[1].output.as_ref().unwrap(), &520u128.to_le_bytes().to_vec());
}

#[test]
fn call_many_failing_call_reported_in_place() {
    let alice = addr(1);
    let bob = addr(2);
    let poor = addr(3);
    let snapshot = snapshot_of(vec![(alice, account(100))]);
    let evm = MockEvm::new(MockMode::Transfer);
    let bundle = Bundle {
        transactions: vec![
            plain_request(alice, Some(bob), 10),
            // reverts inside the adapter: the sender has nothing
            plain_request(poor, Some(bob), 50),
            plain_request(alice, Some(bob), 10),
        ],
        block_override: None,
    };
    let rs = api().call_many(&evm, cfg(), block(), &Vec::new(), bundle, None, None, &snapshot).unwrap();
    // the failing call is reported in its own entry and the bundle goes on
    assert_eq!(rs.len(), 3);
    assert!(rs[0].error.is_none());
    assert_eq!(rs[1].error.as_ref().unwrap(), "execution reverted");
    assert!(rs[1].output.is_none());
    assert_eq!(rs[2].output.as_ref().unwrap(), &20u128.to_le_bytes().to_vec());
}

#[test]
fn call_many_no_forward_causality() {
    let alice = addr(1);
    let bob = addr(2);
    let carol = addr(3);
    let snapshot = snapshot_of(vec![(alice, account(1000))]);
    let make_bundle = |second: CallRequest| Bundle {
        transactions: vec![plain_request(alice, Some(bob), 10), second],
        block_override: None,
    };
    let evm_a = MockEvm::new(MockMode::Transfer);
    let evm_b = MockEvm::new(MockMode::Transfer);
    let ra = api()
        .call_many(
            &evm_a,
            cfg(),
            block(),
            &Vec::new(),
            make_bundle(plain_request(alice, Some(bob), 99)),
            None,
            None,
            &snapshot,
        )
        .unwrap();
    let rb = api()
        .call_many(
            &evm_b,
            cfg(),
            block(),
            &Vec::new(),
            make_bundle(plain_request(alice, Some(carol), 7)),
            None,
            None,
            &snapshot,
        )
        .unwrap();
    // changing the second call never changes the first call's result
    assert_eq!(ra[0].output, rb[0].output);
    assert_eq!(ra[0].error, rb[0].error);
}

#[test]
fn access_list_excludes_nothing_it_reports() {
    let alice = addr(1);
    let snapshot = snapshot_of(vec![(alice, account(1_000_000))]);
    let evm = MockEvm::new(MockMode::AlwaysSucceed);
    let mut request = plain_request(alice, None, 0);
    request.input = vec![1];
    let list = api().create_access_list_at(&evm, cfg(), block(), &request, &snapshot).unwrap();
    assert_eq!(evm.traced_calls.get(), 1);
    // the tracer's target for a creation is the predicted contract address
    let predicted = eth_call_engine::access::predict_create_address(&snapshot, &alice);
    assert_eq!(list[0].address.bytes, predicted.bytes);
    assert_ne!(list[0].address.bytes, alice.bytes);
    assert_eq!(list[0].storage_keys, vec![7]);
    // the protocol's precompiles were in the seed; ecrecover sits at 0x01
    let one = addr(1);
    assert!(list.iter().skip(1).any(|it| it.address.bytes == one.bytes));
}

#[test]
fn access_list_revert_carries_payload() {
    let alice = addr(1);
    let snapshot = snapshot_of(vec![(alice, account(1_000_000))]);
    let evm = MockEvm::new(MockMode::AlwaysRevert(vec![0x0b, 0xad]));
    let mut request = plain_request(alice, Some(addr(2)), 0);
    request.input = vec![1];
    let r = api().create_access_list_at(&evm, cfg(), block(), &request, &snapshot);
    match r {
        Err(EthApiError::InvalidTransaction(InvalidTxError::Revert(payload))) => {
            assert_eq!(payload, vec![0x0b, 0xad]);
        }
        other => panic!("expected revert, got {:?}", other),
    }
}

#[test]
fn access_list_nonce_overflow_is_distinguished() {
    let alice = addr(1);
    let snapshot = snapshot_of(vec![(alice, account(1_000_000))]);
    let evm = MockEvm::new(MockMode::HaltNonceOverflow);
    let mut request = plain_request(alice, Some(addr(2)), 0);
    request.input = vec![1];
    let r = api().create_access_list_at(&evm, cfg(), block(), &request, &snapshot);
    assert!(matches!(
        r,
        Err(EthApiError::InvalidTransaction(InvalidTxError::NonceMaxValue))
    ));
}
