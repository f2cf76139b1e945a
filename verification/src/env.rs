//! The environment builder: turns a call request plus a resolved block
//! context into a complete execution environment, applying protocol defaults
//! and EIP-1559 fee resolution.

use vstd::prelude::*;

use crate::errors::{EthApiError, EthApiErrorV, InvalidTxError, InvalidTxErrorV};
use crate::state::{state_balance, OverlayCache};
use crate::types::{
    access_list_view, copy_bytes, zero_address, AccessItem, AccountChanges, Address, BlockOverride,
    CallRequest, CallRequestV,
};

verus! {

/// Gas of a transaction that does not create a contract: the protocol
/// intrinsic floor of a plain transfer.
pub const MIN_TRANSACTION_GAS: u64 = 21000;

/// Gas floor of a contract-creating transaction.
pub const MIN_CREATE_GAS: u64 = 53000;

/// The protocol rule set a block runs under.
#[derive(Clone, Copy, Debug, PartialEq, Eq, Structural)]
pub enum SpecKind {
    Homestead,
    Byzantium,
    Istanbul,
    Berlin,
    Latest,
}

/// Chain configuration for one execution, with the prechecks the engine may
/// disable for simulation.
#[derive(Clone, Copy, Debug)]
pub struct CfgEnv {
    pub chain_id: u64,
    pub spec: SpecKind,
    pub disable_eip3607: bool,
    pub disable_base_fee: bool,
    pub disable_block_gas_limit: bool,
}

/// The block a call is simulated in.
#[derive(Clone, Copy, Debug)]
pub struct BlockEnv {
    pub number: u64,
    pub timestamp: u64,
    pub gas_limit: u64,
    pub base_fee: u128,
    pub coinbase: Address,
}

/// Mathematical view of a block environment.
#[verifier::ext_equal]
pub struct BlockEnvV {
    pub number: u64,
    pub timestamp: u64,
    pub gas_limit: u64,
    pub base_fee: u128,
    pub coinbase: Seq<u8>,
}

impl View for BlockEnv {
    type V = BlockEnvV;

    open spec fn view(&self) -> BlockEnvV {
        BlockEnvV {
            number: self.number,
            timestamp: self.timestamp,
            gas_limit: self.gas_limit,
            base_fee: self.base_fee,
            coinbase: self.coinbase@,
        }
    }
}

/// The transaction part of an execution environment. An absent recipient
/// marks a contract creation.
#[derive(Debug)]
pub struct TxEnv {
    pub caller: Address,
    pub to: Option<Address>,
    pub value: u128,
    pub data: Vec<u8>,
    pub gas_limit: u64,
    pub gas_price: u128,
    pub access_list: Vec<AccessItem>,
}

/// Mathematical view of the transaction environment.
#[verifier::ext_equal]
pub struct TxEnvV {
    pub caller: Seq<u8>,
    pub to: Option<Seq<u8>>,
    pub value: u128,
    pub data: Seq<u8>,
    pub gas_limit: u64,
    pub gas_price: u128,
    pub access_list: Seq<crate::types::AccessItemV>,
}

impl View for TxEnv {
    type V = TxEnvV;

    open spec fn view(&self) -> TxEnvV {
        TxEnvV {
            caller: self.caller@,
            to: match self.to {
                Some(a) => Some(a@),
                None => None,
            },
            value: self.value,
            data: self.data@,
            gas_limit: self.gas_limit,
            gas_price: self.gas_price,
            access_list: access_list_view(self.access_list@),
        }
    }
}

/// A complete execution environment: chain rules, block context and
/// transaction context.
#[derive(Debug)]
pub struct ExecEnv {
    pub cfg: CfgEnv,
    pub block: BlockEnv,
    pub tx: TxEnv,
}

/// Mathematical view of an execution environment.
#[verifier::ext_equal]
pub struct EnvV {
    pub cfg: CfgEnv,
    pub block: BlockEnvV,
    pub tx: TxEnvV,
}

impl View for ExecEnv {
    type V = EnvV;

    open spec fn view(&self) -> EnvV {
        EnvV { cfg: self.cfg, block: self.block@, tx: self.tx@ }
    }
}

/// The smaller of two gas quantities.
pub open spec fn min64(a: u64, b: u64) -> u64 {
    if a < b {
        a
    } else {
        b
    }
}

/// The smaller of two fee quantities.
pub open spec fn min128(a: u128, b: u128) -> u128 {
    if a < b {
        a
    } else {
        b
    }
}

/// A sum of fee quantities that sticks at the maximum instead of wrapping.
pub open spec fn sat_add128(a: u128, b: u128) -> u128 {
    if a + b > u128::MAX {
        u128::MAX
    } else {
        (a + b) as u128
    }
}

/// The reason a request's fee fields do not resolve.
pub open spec fn conflicting_fee_message() -> Seq<char> {
    "both gasPrice and (maxFeePerGas or maxPriorityFeePerGas) specified"@
}

/// The effective gas price of a request: the legacy price used directly, or
/// the EIP-1559 resolution `min(maxFee, baseFee + maxPriorityFee)`. Giving
/// both styles at once has no resolution.
pub open spec fn resolve_fee_spec(
    gas_price: Option<u128>,
    max_fee: Option<u128>,
    max_prio: Option<u128>,
    base_fee: u128,
) -> Option<u128> {
    match gas_price {
        Some(p) => {
            if max_fee is Some || max_prio is Some {
                None
            } else {
                Some(p)
            }
        },
        None => {
            if max_fee is Some || max_prio is Some {
                let prio = match max_prio {
                    Some(t) => t,
                    None => 0,
                };
                let cap = sat_add128(base_fee, prio);
                let mf = match max_fee {
                    Some(f) => f,
                    None => cap,
                };
                Some(min128(mf, cap))
            } else {
                Some(0)
            }
        },
    }
}

/// What [`build_call_evm_env`] returns: the defaults of the environment
/// builder, applied to one request.
pub open spec fn build_env_spec(
    cfg: CfgEnv,
    block: BlockEnvV,
    req: CallRequestV,
    gas_cap: u64,
) -> Result<EnvV, EthApiErrorV> {
    match resolve_fee_spec(
        req.gas_price,
        req.max_fee_per_gas,
        req.max_priority_fee_per_gas,
        block.base_fee,
    ) {
        None => Err(EthApiErrorV::InvalidParams(conflicting_fee_message())),
        Some(price) => Ok(
            EnvV {
                cfg,
                block,
                tx: TxEnvV {
                    caller: match req.from {
                        Some(a) => a,
                        None => zero_address(),
                    },
                    to: req.to,
                    value: req.value,
                    data: req.input,
                    gas_limit: match req.gas {
                        Some(g) => g,
                        None => min64(block.gas_limit, gas_cap),
                    },
                    gas_price: price,
                    access_list: match req.access_list {
                        Some(l) => l,
                        None => Seq::empty(),
                    },
                },
            },
        ),
    }
}

/// Copies a vector of access-list entries.
pub fn copy_access_items(v: &Vec<AccessItem>) -> (r: Vec<AccessItem>)
    ensures
        access_list_view(r@) == access_list_view(v@),
{
    let mut r: Vec<AccessItem> = Vec::new();
    let mut i: usize = 0;
    while i < v.len()
        invariant
            i <= v.len(),
            r@.len() == i,
            forall|j: int| 0 <= j < i ==> r@[j]@ == v@[j]@,
        decreases v.len() - i,
    {
        let item = &v[i];
        r.push(AccessItem { address: item.address, storage_keys: copy_bytes_u128(&item.storage_keys) });
        i = i + 1;
    }
    proof {
        assert(access_list_view(r@) =~= access_list_view(v@));
    }
    r
}

/// Copies a vector of storage keys.
pub fn copy_bytes_u128(v: &Vec<u128>) -> (r: Vec<u128>)
    ensures
        r@ == v@,
{
    let mut r: Vec<u128> = Vec::new();
    let mut i: usize = 0;
    while i < v.len()
        invariant
            i <= v.len(),
            r@ == v@.take(i as int),
        decreases v.len() - i,
    {
        r.push(v[i]);
        proof {
            assert(v@.take(i + 1 as int) =~= v@.take(i as int).push(v@[i as int]));
        }
        i = i + 1;
    }
    proof {
        assert(v@.take(v@.len() as int) =~= v@);
    }
    r
}

/// Builds an execution environment from chain rules, a block environment and
/// a call request, applying the protocol defaults: absent sender becomes the
/// zero address, an absent gas limit becomes the block limit capped by the
/// node's gas cap, and fee fields resolve per EIP-1559.
pub fn build_call_evm_env(
    cfg: CfgEnv,
    block: BlockEnv,
    req: &CallRequest,
    gas_cap: u64,
) -> (r: Result<ExecEnv, EthApiError>)
    ensures
        match r {
            Ok(env) => build_env_spec(cfg, block@, req@, gas_cap) == Ok::<EnvV, EthApiErrorV>(env@),
            Err(e) => build_env_spec(cfg, block@, req@, gas_cap) == Err::<EnvV, EthApiErrorV>(e@),
        },
{
    let conflicting = match req.gas_price {
        Some(_) => req.max_fee_per_gas.is_some() || req.max_priority_fee_per_gas.is_some(),
        None => false,
    };
    if conflicting {
        let msg = String::from_str("both gasPrice and (maxFeePerGas or maxPriorityFeePerGas) specified");
        return Err(EthApiError::InvalidParams(msg));
    }
    let price: u128 = match req.gas_price {
        Some(p) => p,
        None => {
            if req.max_fee_per_gas.is_some() || req.max_priority_fee_per_gas.is_some() {
                let prio: u128 = match req.max_priority_fee_per_gas {
                    Some(t) => t,
                    None => 0,
                };
                let cap: u128 = if block.base_fee <= u128::MAX - prio {
                    block.base_fee + prio
                } else {
                    u128::MAX
                };
                let mf: u128 = match req.max_fee_per_gas {
                    Some(f) => f,
                    None => cap,
                };
                if mf < cap {
                    mf
                } else {
                    cap
                }
            } else {
                0
            }
        },
    };
    let caller = match req.from {
        Some(a) => a,
        None => Address::zero(),
    };
    let gas_limit = match req.gas {
        Some(g) => g,
        None => {
            if block.gas_limit < gas_cap {
                block.gas_limit
            } else {
                gas_cap
            }
        },
    };
    let access_list = match &req.access_list {
        Some(l) => copy_access_items(l),
        None => Vec::new(),
    };
    proof {
        assert(access_list_view(Seq::<AccessItem>::empty()) =~= Seq::<
            crate::types::AccessItemV,
        >::empty());
    }
    let env = ExecEnv {
        cfg,
        block,
        tx: TxEnv {
            caller,
            to: req.to,
            value: req.value,
            data: copy_bytes(&req.input),
            gas_limit,
            gas_price: price,
            access_list,
        },
    };
    proof {
        assert(build_env_spec(cfg, block@, req@, gas_cap) matches Ok(e) && e =~= env@);
    }
    Ok(env)
}

/// What [`caller_gas_allowance`] returns: the gas the caller can afford at
/// the given price, after setting the transferred value aside.
pub open spec fn allowance_spec(
    s: crate::types::StateV,
    caller: Seq<u8>,
    value: u128,
    gas_price: u128,
) -> Result<u64, EthApiErrorV>
    recommends
        gas_price > 0,
{
    let balance = state_balance(s, caller);
    if balance < value {
        Err(EthApiErrorV::InvalidTransaction(InvalidTxErrorV::InsufficientFunds))
    } else {
        let gas = ((balance - value) as u128) / gas_price;
        if gas > u64::MAX {
            Ok(u64::MAX)
        } else {
            Ok(gas as u64)
        }
    }
}

/// The gas the caller can afford with the given gas price: its balance minus
/// the transferred value, divided by the price.
pub fn caller_gas_allowance(
    cache: &OverlayCache<'_>,
    caller: &Address,
    value: u128,
    gas_price: u128,
) -> (r: Result<u64, EthApiError>)
    requires
        gas_price > 0,
    ensures
        match r {
            Ok(g) => allowance_spec(cache.state(), caller@, value, gas_price) == Ok::<
                u64,
                EthApiErrorV,
            >(g),
            Err(e) => allowance_spec(cache.state(), caller@, value, gas_price) == Err::<
                u64,
                EthApiErrorV,
            >(e@),
        },
{
    let balance = cache.balance_of(caller);
    if balance < value {
        Err(EthApiError::InvalidTransaction(InvalidTxError::InsufficientFunds))
    } else {
        let gas: u128 = (balance - value) / gas_price;
        if gas > u64::MAX as u128 {
            Ok(u64::MAX)
        } else {
            Ok(gas as u64)
        }
    }
}

/// A block environment with a bundle's overrides folded in.
pub open spec fn apply_block_override_spec(b: BlockEnvV, o: BlockOverride) -> BlockEnvV {
    BlockEnvV {
        number: match o.number {
            Some(n) => n,
            None => b.number,
        },
        timestamp: match o.timestamp {
            Some(t) => t,
            None => b.timestamp,
        },
        gas_limit: match o.gas_limit {
            Some(g) => g,
            None => b.gas_limit,
        },
        base_fee: match o.base_fee {
            Some(f) => f,
            None => b.base_fee,
        },
        coinbase: match o.coinbase {
            Some(a) => a@,
            None => b.coinbase,
        },
    }
}

/// Applies a bundle's block overrides uniformly to a block environment.
pub fn apply_block_override(block: BlockEnv, o: &BlockOverride) -> (r: BlockEnv)
    ensures
        r@ == apply_block_override_spec(block@, *o),
{
    BlockEnv {
        number: match o.number {
            Some(n) => n,
            None => block.number,
        },
        timestamp: match o.timestamp {
            Some(t) => t,
            None => block.timestamp,
        },
        gas_limit: match o.gas_limit {
            Some(g) => g,
            None => block.gas_limit,
        },
        base_fee: match o.base_fee {
            Some(f) => f,
            None => block.base_fee,
        },
        coinbase: match o.coinbase {
            Some(a) => a,
            None => block.coinbase,
        },
    }
}

/// What [`prepare_call_env`] returns once overrides are in the state: the
/// built environment, its gas limit capped by the caller's allowance when the
/// request gave no explicit gas.
pub open spec fn prepare_env_spec(
    cfg: CfgEnv,
    block: BlockEnvV,
    req: CallRequestV,
    gas_cap: u64,
    s: crate::types::StateV,
) -> Result<EnvV, EthApiErrorV> {
    match build_env_spec(cfg, block, req, gas_cap) {
        Err(e) => Err(e),
        Ok(env) => {
            if req.gas is None && env.tx.gas_price > 0 {
                match allowance_spec(s, env.tx.caller, env.tx.value, env.tx.gas_price) {
                    Err(e) => Err(e),
                    Ok(g) => Ok(
                        EnvV {
                            tx: TxEnvV { gas_limit: min64(env.tx.gas_limit, g), ..env.tx },
                            ..env
                        },
                    ),
                }
            } else {
                Ok(env)
            }
        },
    }
}

/// Prepares the environment of one bundled call: folds any state override
/// into the overlay cache (the caller hands it in at most once), builds the
/// environment over the overridden state, and caps an absent gas limit by
/// the caller's allowance.
pub fn prepare_call_env(
    cfg: CfgEnv,
    block: BlockEnv,
    req: &CallRequest,
    gas_cap: u64,
    cache: &mut OverlayCache<'_>,
    state_override: Option<&Vec<(Address, AccountChanges)>>,
) -> (r: Result<ExecEnv, EthApiError>)
    ensures
        final(cache).state() == match state_override {
            Some(ov) => crate::state::apply_changes_v(
                old(cache).state(),
                crate::types::changes_view(ov@),
            ),
            None => old(cache).state(),
        },
        final(cache).snapshot == old(cache).snapshot,
        match r {
            Ok(env) => prepare_env_spec(cfg, block@, req@, gas_cap, final(cache).state()) == Ok::<
                EnvV,
                EthApiErrorV,
            >(env@),
            Err(e) => prepare_env_spec(cfg, block@, req@, gas_cap, final(cache).state()) == Err::<
                EnvV,
                EthApiErrorV,
            >(e@),
        },
{
    match state_override {
        Some(ov) => cache.commit(ov),
        None => (),
    }
    let mut env = match build_call_evm_env(cfg, block, req, gas_cap) {
        Ok(env) => env,
        Err(e) => {
            return Err(e);
        },
    };
    if req.gas.is_none() && env.tx.gas_price > 0 {
        let allowance = match caller_gas_allowance(cache, &env.tx.caller, env.tx.value, env.tx.gas_price) {
            Ok(g) => g,
            Err(e) => {
                return Err(e);
            },
        };
        if allowance < env.tx.gas_limit {
            env.tx.gas_limit = allowance;
        }
        proof {
            assert(prepare_env_spec(cfg, block@, req@, gas_cap, cache.state()) matches Ok(e)
                && e =~= env@);
        }
        Ok(env)
    } else {
        Ok(env)
    }
}

} // verus!
