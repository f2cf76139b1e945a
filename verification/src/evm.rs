//! The execution adapter: the opaque "execute one transaction" capability the
//! engine is built around, stated as a trait contract. An implementor runs
//! one transaction against the overlay cache and returns a tagged outcome,
//! deterministically in the cache contents and the environment.

use vstd::prelude::*;

use crate::env::{EnvV, ExecEnv};
use crate::errors::{EthApiError, EthApiErrorV, EvmError, HaltReason, InvalidTxError, InvalidTxErrorV};
use crate::state::OverlayCache;
use crate::types::{changes_view, AccessItem, AccessItemV, AccountChanges, Address, StateV};

verus! {

/// A tagged execution outcome; never a fourth state.
#[derive(Debug)]
pub enum ExecutionOutcome {
    /// The call completed, returning its output.
    Success { output: Vec<u8>, gas_used: u64 },
    /// The call reverted with explanatory data; unused gas is refunded.
    Revert { output: Vec<u8>, gas_used: u64 },
    /// The call terminated abnormally for a reason other than revert.
    Halt { reason: HaltReason, gas_used: u64 },
}

/// Mathematical view of an execution outcome.
#[verifier::ext_equal]
pub enum OutcomeV {
    Success { output: Seq<u8>, gas_used: u64 },
    Revert { output: Seq<u8>, gas_used: u64 },
    Halt { reason: HaltReason, gas_used: u64 },
}

impl View for ExecutionOutcome {
    type V = OutcomeV;

    open spec fn view(&self) -> OutcomeV {
        match self {
            ExecutionOutcome::Success { output, gas_used } => OutcomeV::Success {
                output: output@,
                gas_used: *gas_used,
            },
            ExecutionOutcome::Revert { output, gas_used } => OutcomeV::Revert {
                output: output@,
                gas_used: *gas_used,
            },
            ExecutionOutcome::Halt { reason, gas_used } => OutcomeV::Halt {
                reason: *reason,
                gas_used: *gas_used,
            },
        }
    }
}

/// One execution's outcome together with the state changes it produced,
/// which the caller may commit into the overlay cache.
#[derive(Debug)]
pub struct Execution {
    pub outcome: ExecutionOutcome,
    pub changes: Vec<(Address, AccountChanges)>,
}

/// Mathematical view of an execution.
#[verifier::ext_equal]
pub struct ExecutionV {
    pub outcome: OutcomeV,
    pub changes: Seq<(Seq<u8>, crate::types::AccountChangesV)>,
}

impl View for Execution {
    type V = ExecutionV;

    open spec fn view(&self) -> ExecutionV {
        ExecutionV { outcome: self.outcome@, changes: changes_view(self.changes@) }
    }
}

/// The seed of an access-list trace: entries the caller supplied, the sender
/// and recipient, and the protocol's precompiled-contract addresses, all of
/// which are excluded from the trace's output.
#[derive(Debug)]
pub struct TraceSeed {
    pub initial: Vec<AccessItem>,
    pub from: Address,
    pub to: Address,
    pub precompiles: Vec<Address>,
}

/// Mathematical view of a trace seed. The precompiles are a set: they come
/// out of a table whose iteration order promises nothing.
#[verifier::ext_equal]
pub struct TraceSeedV {
    pub initial: Seq<AccessItemV>,
    pub from: Seq<u8>,
    pub to: Seq<u8>,
    pub precompiles: Set<Seq<u8>>,
}

impl View for TraceSeed {
    type V = TraceSeedV;

    open spec fn view(&self) -> TraceSeedV {
        TraceSeedV {
            initial: crate::types::access_list_view(self.initial@),
            from: self.from@,
            to: self.to@,
            precompiles: self.precompiles@.map_values(|a: Address| a@).to_set(),
        }
    }
}

/// The execution adapter. An implementor runs one transaction against the
/// state an overlay cache shows, without mutating the cache, and reports the
/// tagged outcome and the state changes the transaction would make.
///
/// The adapter's contract is that it is a function of the cache contents and
/// the environment: `transact_spec` names what it returns, and both
/// executable methods are promised to agree with it. The engine's own
/// guarantees hold of every implementor that meets this contract.
pub trait Evm {
    /// What one execution returns, as a function of the visible state and
    /// the environment alone. An implementor may leave the default, which
    /// promises nothing of the value beyond its determinism.
    open spec fn transact_spec(&self, state: StateV, env: EnvV) -> Result<ExecutionV, EvmError> {
        vstd::pervasive::arbitrary()
    }

    /// What one traced execution returns: the outcome, and the accumulated
    /// (address, storage keys) accesses minus the seeded entries.
    open spec fn transact_traced_spec(&self, state: StateV, env: EnvV, seed: TraceSeedV) -> Result<
        (OutcomeV, Seq<AccessItemV>),
        EvmError,
    > {
        vstd::pervasive::arbitrary()
    }

    /// Runs one transaction against the cache's state. Fails with a protocol
    /// precheck error for conditions detected before execution begins.
    fn transact(&self, cache: &OverlayCache<'_>, env: &ExecEnv) -> (r: Result<Execution, EvmError>)
        ensures
            match r {
                Ok(e) => self.transact_spec(cache.state(), env@) == Ok::<ExecutionV, EvmError>(e@),
                Err(er) => self.transact_spec(cache.state(), env@) == Err::<ExecutionV, EvmError>(
                    er,
                ),
            },
    ;

    /// Runs one transaction through a tracing inspector seeded with the
    /// given entries, recording the touched state.
    fn transact_traced(&self, cache: &OverlayCache<'_>, env: &ExecEnv, seed: &TraceSeed) -> (r:
        Result<(ExecutionOutcome, Vec<AccessItem>), EvmError>)
        ensures
            match r {
                Ok(p) => self.transact_traced_spec(cache.state(), env@, seed@) == Ok::<
                    (OutcomeV, Seq<AccessItemV>),
                    EvmError,
                >((p.0@, crate::types::access_list_view(p.1@))),
                Err(er) => self.transact_traced_spec(cache.state(), env@, seed@) == Err::<
                    (OutcomeV, Seq<AccessItemV>),
                    EvmError,
                >(er),
            },
    ;
}

/// What [`ensure_success`] turns an outcome into: the output on success, the
/// revert payload or the halt reason as an error otherwise.
pub open spec fn ensure_success_spec(o: OutcomeV) -> Result<Seq<u8>, EthApiErrorV> {
    match o {
        OutcomeV::Success { output, .. } => Ok(output),
        OutcomeV::Revert { output, .. } => Err(
            EthApiErrorV::InvalidTransaction(InvalidTxErrorV::Revert(output)),
        ),
        OutcomeV::Halt { reason, .. } => Err(
            EthApiErrorV::InvalidTransaction(InvalidTxErrorV::EvmHalt(reason)),
        ),
    }
}

/// Turns an execution outcome into the operation's result: the output of a
/// success, or the failure the outcome carries.
pub fn ensure_success(o: ExecutionOutcome) -> (r: Result<Vec<u8>, EthApiError>)
    ensures
        match r {
            Ok(out) => ensure_success_spec(o@) == Ok::<Seq<u8>, EthApiErrorV>(out@),
            Err(e) => ensure_success_spec(o@) == Err::<Seq<u8>, EthApiErrorV>(e@),
        },
{
    match o {
        ExecutionOutcome::Success { output, .. } => Ok(output),
        ExecutionOutcome::Revert { output, .. } => Err(
            EthApiError::InvalidTransaction(InvalidTxError::Revert(output)),
        ),
        ExecutionOutcome::Halt { reason, .. } => Err(
            EthApiError::InvalidTransaction(InvalidTxError::EvmHalt(reason)),
        ),
    }
}

} // verus!
