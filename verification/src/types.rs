//! Plain data model of the engine: addresses, accounts, state snapshots,
//! call requests, bundles and responses, with their mathematical views.

use vstd::prelude::*;

verus! {

/// A 20-byte account address.
#[derive(Clone, Copy, Debug)]
pub struct Address {
    pub bytes: [u8; 20],
}

impl View for Address {
    type V = Seq<u8>;

    open spec fn view(&self) -> Seq<u8> {
        self.bytes@
    }
}

impl Address {
    /// The all-zero address, used as the default sender.
    pub fn zero() -> (r: Address)
        ensures
            r@ == zero_address(),
    {
        let a = Address { bytes: [0u8; 20] };
        proof {
            assert(a.bytes@ =~= zero_address());
        }
        a
    }
}

/// The view of the all-zero address.
pub open spec fn zero_address() -> Seq<u8> {
    Seq::new(20, |i: int| 0u8)
}

/// Compares two addresses byte by byte.
pub fn addr_eq(a: &Address, b: &Address) -> (r: bool)
    ensures
        r == (a@ == b@),
{
    let mut i: usize = 0;
    while i < 20
        invariant
            i <= 20,
            forall|j: int| 0 <= j < i ==> a.bytes@[j] == b.bytes@[j],
        decreases 20 - i,
    {
        if a.bytes[i] != b.bytes[i] {
            assert(a@ != b@);
            return false;
        }
        i = i + 1;
    }
    proof {
        assert(a.bytes@ =~= b.bytes@);
    }
    true
}

/// Mathematical view of one account: balance, nonce, code and storage.
#[verifier::ext_equal]
pub struct AccountV {
    pub balance: u128,
    pub nonce: u64,
    pub code: Seq<u8>,
    pub storage: Map<u128, u128>,
}

/// The state a query runs against: a partial map from address to account.
pub type StateV = Map<Seq<u8>, AccountV>;

/// One account of a state snapshot or of an overlay delta.
#[derive(Debug)]
pub struct Account {
    pub balance: u128,
    pub nonce: u64,
    pub code: Vec<u8>,
    pub storage: Vec<(u128, u128)>,
}

/// Turns a sequence of storage pairs into a slot map; a later pair for the
/// same slot shadows an earlier one.
pub open spec fn slots_map(s: Seq<(u128, u128)>) -> Map<u128, u128>
    decreases s.len(),
{
    if s.len() == 0 {
        Map::empty()
    } else {
        slots_map(s.drop_last()).insert(s.last().0, s.last().1)
    }
}

impl View for Account {
    type V = AccountV;

    open spec fn view(&self) -> AccountV {
        AccountV {
            balance: self.balance,
            nonce: self.nonce,
            code: self.code@,
            storage: slots_map(self.storage@),
        }
    }
}

/// The view of an account that the state does not hold.
pub open spec fn empty_account_v() -> AccountV {
    AccountV { balance: 0, nonce: 0, code: Seq::empty(), storage: Map::empty() }
}

/// Turns an association list of accounts into a state map; a later entry for
/// the same address shadows an earlier one.
pub open spec fn accounts_map(s: Seq<(Address, Account)>) -> StateV
    decreases s.len(),
{
    if s.len() == 0 {
        Map::empty()
    } else {
        accounts_map(s.drop_last()).insert(s.last().0@, s.last().1@)
    }
}

/// A read-only snapshot of chain state at one point in history, materialized
/// as the accounts a query may touch.
#[derive(Debug)]
pub struct StateSnapshot {
    pub accounts: Vec<(Address, Account)>,
}

impl View for StateSnapshot {
    type V = StateV;

    open spec fn view(&self) -> StateV {
        accounts_map(self.accounts@)
    }
}

/// One entry of an access list: an address and the storage keys touched
/// under it.
#[derive(Debug)]
pub struct AccessItem {
    pub address: Address,
    pub storage_keys: Vec<u128>,
}

/// Mathematical view of an access-list entry.
#[verifier::ext_equal]
pub struct AccessItemV {
    pub address: Seq<u8>,
    pub storage_keys: Seq<u128>,
}

impl View for AccessItem {
    type V = AccessItemV;

    open spec fn view(&self) -> AccessItemV {
        AccessItemV { address: self.address@, storage_keys: self.storage_keys@ }
    }
}

/// The view of a sequence of access-list entries.
pub open spec fn access_list_view(s: Seq<AccessItem>) -> Seq<AccessItemV> {
    s.map_values(|it: AccessItem| it@)
}

/// An unsigned, unbroadcast call description used purely for simulation.
/// An absent recipient marks a contract creation; the legacy gas price and
/// the two EIP-1559 fee fields are mutually exclusive.
#[derive(Debug)]
pub struct CallRequest {
    pub from: Option<Address>,
    pub to: Option<Address>,
    pub value: u128,
    pub input: Vec<u8>,
    pub gas: Option<u64>,
    pub gas_price: Option<u128>,
    pub max_fee_per_gas: Option<u128>,
    pub max_priority_fee_per_gas: Option<u128>,
    pub access_list: Option<Vec<AccessItem>>,
}

/// Mathematical view of a call request.
#[verifier::ext_equal]
pub struct CallRequestV {
    pub from: Option<Seq<u8>>,
    pub to: Option<Seq<u8>>,
    pub value: u128,
    pub input: Seq<u8>,
    pub gas: Option<u64>,
    pub gas_price: Option<u128>,
    pub max_fee_per_gas: Option<u128>,
    pub max_priority_fee_per_gas: Option<u128>,
    pub access_list: Option<Seq<AccessItemV>>,
}

impl View for CallRequest {
    type V = CallRequestV;

    open spec fn view(&self) -> CallRequestV {
        CallRequestV {
            from: match self.from {
                Some(a) => Some(a@),
                None => None,
            },
            to: match self.to {
                Some(a) => Some(a@),
                None => None,
            },
            value: self.value,
            input: self.input@,
            gas: self.gas,
            gas_price: self.gas_price,
            max_fee_per_gas: self.max_fee_per_gas,
            max_priority_fee_per_gas: self.max_priority_fee_per_gas,
            access_list: match self.access_list {
                Some(ref l) => Some(access_list_view(l@)),
                None => None,
            },
        }
    }
}

/// A per-account override applied to the overlay cache before execution, and
/// also the shape of the delta one execution step commits.
#[derive(Debug)]
pub struct AccountChanges {
    pub balance: Option<u128>,
    pub nonce: Option<u64>,
    pub code: Option<Vec<u8>>,
    pub storage: Vec<(u128, u128)>,
}

/// Mathematical view of an account override or delta.
#[verifier::ext_equal]
pub struct AccountChangesV {
    pub balance: Option<u128>,
    pub nonce: Option<u64>,
    pub code: Option<Seq<u8>>,
    pub storage: Seq<(u128, u128)>,
}

impl View for AccountChanges {
    type V = AccountChangesV;

    open spec fn view(&self) -> AccountChangesV {
        AccountChangesV {
            balance: self.balance,
            nonce: self.nonce,
            code: match self.code {
                Some(ref c) => Some(c@),
                None => None,
            },
            storage: self.storage@,
        }
    }
}

/// The view of a sequence of per-account changes.
pub open spec fn changes_view(s: Seq<(Address, AccountChanges)>) -> Seq<(Seq<u8>, AccountChangesV)> {
    s.map_values(|p: (Address, AccountChanges)| (p.0@, p.1@))
}

/// Overrides applied uniformly to the block environment of every call in a
/// bundle.
#[derive(Clone, Copy, Debug)]
pub struct BlockOverride {
    pub number: Option<u64>,
    pub timestamp: Option<u64>,
    pub gas_limit: Option<u64>,
    pub base_fee: Option<u128>,
    pub coinbase: Option<Address>,
}

/// An ordered sequence of calls simulated against one shared overlay cache.
#[derive(Debug)]
pub struct Bundle {
    pub transactions: Vec<CallRequest>,
    pub block_override: Option<BlockOverride>,
}

/// Selects the block and the intra-block position a bundle runs at: the
/// replay cursor gives how many already-included transactions of the target
/// block are executed first.
#[derive(Clone, Copy, Debug)]
pub struct StateContext {
    pub transaction_index: Option<usize>,
}

/// One already-included transaction of the target block, replayed before a
/// bundle to reach the desired intra-block position. The sender is recovered
/// from the signature over `sig_hash`.
#[derive(Debug)]
pub struct ReplayTx {
    pub sig_r: [u8; 32],
    pub sig_s: [u8; 32],
    pub sig_v: u64,
    pub sig_hash: [u8; 32],
    pub to: Option<Address>,
    pub value: u128,
    pub input: Vec<u8>,
    pub gas_limit: u64,
    pub gas_price: u128,
}

/// The result of one bundled call: exactly one of `output` and `error` is
/// present.
#[derive(Debug)]
pub struct EthCallResponse {
    pub output: Option<Vec<u8>>,
    pub error: Option<String>,
}

/// Mathematical view of a bundled call's result.
#[verifier::ext_equal]
pub struct EthCallResponseV {
    pub output: Option<Seq<u8>>,
    pub error: Option<Seq<char>>,
}

impl View for EthCallResponse {
    type V = EthCallResponseV;

    open spec fn view(&self) -> EthCallResponseV {
        EthCallResponseV {
            output: match self.output {
                Some(ref o) => Some(o@),
                None => None,
            },
            error: match self.error {
                Some(ref e) => Some(e@),
                None => None,
            },
        }
    }
}

/// One log record a transaction emitted.
#[derive(Debug)]
pub struct Log {
    pub address: Address,
    pub topics: Vec<[u8; 32]>,
    pub data: Vec<u8>,
}

/// What one included transaction did: where it sat, what it consumed and
/// produced. Assembled by the caller from execution results; wire encoding
/// is the transport layer's concern.
#[derive(Debug)]
pub struct TransactionReceipt {
    /// Transaction hash.
    pub transaction_hash: Option<[u8; 32]>,
    /// Index within the block.
    pub transaction_index: u64,
    /// Hash of the block this transaction was included within.
    pub block_hash: Option<[u8; 32]>,
    /// Number of the block this transaction was included within.
    pub block_number: Option<u64>,
    /// Cumulative gas used within the block after this was executed.
    pub cumulative_gas_used: u128,
    /// Gas used by this transaction alone.
    pub gas_used: Option<u64>,
    /// The price actually paid per gas unit, known only post-execution.
    pub effective_gas_price: u128,
    /// Address of the sender.
    pub from: Address,
    /// Address of the receiver; absent for a contract creation.
    pub to: Option<Address>,
    /// Contract address created, absent if not a deployment.
    pub contract_address: Option<Address>,
    /// Logs emitted by this transaction.
    pub logs: Vec<Log>,
    /// The post-transaction state root, on chains that still report one.
    pub state_root: Option<[u8; 32]>,
    /// One for success, zero for failure, where the chain reports it.
    pub status_code: Option<u64>,
    /// The transaction envelope kind.
    pub transaction_type: u8,
}

/// Copies a byte vector.
pub fn copy_bytes(v: &Vec<u8>) -> (r: Vec<u8>)
    ensures
        r@ == v@,
{
    let mut r: Vec<u8> = Vec::new();
    let mut i: usize = 0;
    while i < v.len()
        invariant
            i <= v.len(),
            r@ == v@.take(i as int),
        decreases v.len() - i,
    {
        r.push(v[i]);
        proof {
            assert(v@.take(i + 1 as int) =~= v@.take(i as int).push(v@[i as int]));
        }
        i = i + 1;
    }
    proof {
        assert(v@.take(v@.len() as int) =~= v@);
    }
    r
}

/// Copies a vector of storage pairs.
pub fn copy_slots(v: &Vec<(u128, u128)>) -> (r: Vec<(u128, u128)>)
    ensures
        r@ == v@,
{
    let mut r: Vec<(u128, u128)> = Vec::new();
    let mut i: usize = 0;
    while i < v.len()
        invariant
            i <= v.len(),
            r@ == v@.take(i as int),
        decreases v.len() - i,
    {
        r.push(v[i]);
        proof {
            assert(v@.take(i + 1 as int) =~= v@.take(i as int).push(v@[i as int]));
        }
        i = i + 1;
    }
    proof {
        assert(v@.take(v@.len() as int) =~= v@);
    }
    r
}

} // verus!
