//! The overlay state cache: a copy-on-write delta layered over a read-only
//! snapshot. Reads consult the delta first and fall through to the snapshot;
//! writes land only in the delta. The snapshot is never mutated.

use vstd::prelude::*;

use crate::types::{
    accounts_map, addr_eq, copy_bytes, empty_account_v, slots_map, Account, AccountChanges,
    AccountChangesV, AccountV, Address, StateSnapshot, StateV,
};

verus! {

/// The balance the state gives an address, zero if the account is absent.
pub open spec fn state_balance(s: StateV, a: Seq<u8>) -> u128 {
    if s.dom().contains(a) {
        s[a].balance
    } else {
        0
    }
}

/// The nonce the state gives an address, zero if the account is absent.
pub open spec fn state_nonce(s: StateV, a: Seq<u8>) -> u64 {
    if s.dom().contains(a) {
        s[a].nonce
    } else {
        0
    }
}

/// Whether the state holds code at an address.
pub open spec fn state_has_code(s: StateV, a: Seq<u8>) -> bool {
    s.dom().contains(a) && s[a].code.len() > 0
}

/// The account the state gives an address, empty if absent.
pub open spec fn state_account(s: StateV, a: Seq<u8>) -> AccountV {
    if s.dom().contains(a) {
        s[a]
    } else {
        empty_account_v()
    }
}

/// One account with a step's changes folded in: fields that the change sets
/// are replaced, storage pairs are merged over the existing slots.
pub open spec fn apply_change_v(a: AccountV, c: AccountChangesV) -> AccountV {
    AccountV {
        balance: match c.balance {
            Some(b) => b,
            None => a.balance,
        },
        nonce: match c.nonce {
            Some(n) => n,
            None => a.nonce,
        },
        code: match c.code {
            Some(cd) => cd,
            None => a.code,
        },
        storage: a.storage.union_prefer_right(slots_map(c.storage)),
    }
}

/// A state with a sequence of per-account changes folded in, first to last.
pub open spec fn apply_changes_v(s: StateV, cs: Seq<(Seq<u8>, AccountChangesV)>) -> StateV
    decreases cs.len(),
{
    if cs.len() == 0 {
        s
    } else {
        let prev = apply_changes_v(s, cs.drop_last());
        let last = cs.last();
        prev.insert(last.0, apply_change_v(state_account(prev, last.0), last.1))
    }
}

/// Searches the first `n` entries of an account list for an address; a later
/// entry shadows an earlier one.
fn find_account<'b>(v: &'b Vec<(Address, Account)>, n: usize, a: &Address) -> (r: Option<
    &'b Account,
>)
    requires
        n <= v.len(),
    ensures
        match r {
            Some(acc) => accounts_map(v@.take(n as int)).dom().contains(a@) && acc@ == accounts_map(
                v@.take(n as int),
            )[a@],
            None => !accounts_map(v@.take(n as int)).dom().contains(a@),
        },
    decreases n,
{
    if n == 0 {
        None
    } else {
        proof {
            assert(v@.take(n as int).drop_last() =~= v@.take(n - 1));
            assert(v@.take(n as int).last() == v@[n - 1]);
        }
        let entry = &v[n - 1];
        if addr_eq(&entry.0, a) {
            Some(&entry.1)
        } else {
            find_account(v, n - 1, a)
        }
    }
}

/// A copy-on-write layer over a read-only snapshot; accumulates one query's
/// speculative writes for that query's lifetime and is never flushed.
pub struct OverlayCache<'a> {
    pub snapshot: &'a StateSnapshot,
    pub delta: Vec<(Address, Account)>,
}

impl<'a> OverlayCache<'a> {
    /// The state this cache shows: the snapshot with the delta laid over it.
    pub open spec fn state(&self) -> StateV {
        self.snapshot@.union_prefer_right(accounts_map(self.delta@))
    }

    /// A fresh cache over a snapshot, with an empty delta.
    pub fn new(snapshot: &'a StateSnapshot) -> (r: OverlayCache<'a>)
        ensures
            r.state() == snapshot@,
            r.snapshot == snapshot,
            r.delta@.len() == 0,
    {
        let c = OverlayCache { snapshot, delta: Vec::new() };
        proof {
            assert(accounts_map(c.delta@) =~= Map::<Seq<u8>, AccountV>::empty());
            assert(c.state() =~= snapshot@);
        }
        c
    }

    /// Reads one account: the delta first, the snapshot on a miss.
    pub fn read_account(&self, a: &Address) -> (r: Option<&Account>)
        ensures
            match r {
                Some(acc) => self.state().dom().contains(a@) && acc@ == self.state()[a@],
                None => !self.state().dom().contains(a@),
            },
    {
        proof {
            assert(self.delta@.take(self.delta@.len() as int) =~= self.delta@);
            assert(self.snapshot.accounts@.take(self.snapshot.accounts@.len() as int)
                =~= self.snapshot.accounts@);
        }
        match find_account(&self.delta, self.delta.len(), a) {
            Some(acc) => Some(acc),
            None => find_account(&self.snapshot.accounts, self.snapshot.accounts.len(), a),
        }
    }

    /// The balance of an address, zero if the account is absent.
    pub fn balance_of(&self, a: &Address) -> (r: u128)
        ensures
            r == state_balance(self.state(), a@),
    {
        match self.read_account(a) {
            Some(acc) => acc.balance,
            None => 0,
        }
    }

    /// The nonce of an address, zero if the account is absent.
    pub fn nonce_of(&self, a: &Address) -> (r: u64)
        ensures
            r == state_nonce(self.state(), a@),
    {
        match self.read_account(a) {
            Some(acc) => acc.nonce,
            None => 0,
        }
    }

    /// Whether an address currently holds code.
    pub fn has_code(&self, a: &Address) -> (r: bool)
        ensures
            r == state_has_code(self.state(), a@),
    {
        match self.read_account(a) {
            Some(acc) => acc.code.len() > 0,
            None => false,
        }
    }

    /// Merges one account's changes into the delta, so later steps of the
    /// same query observe them. The snapshot is untouched.
    pub fn commit_one(&mut self, a: &Address, c: &AccountChanges)
        ensures
            final(self).state() == old(self).state().insert(
                a@,
                apply_change_v(state_account(old(self).state(), a@), c@),
            ),
            final(self).snapshot == old(self).snapshot,
    {
        let ghost s0 = self.state();
        let cur_balance: u128;
        let cur_nonce: u64;
        let cur_code: Vec<u8>;
        let mut storage: Vec<(u128, u128)>;
        match self.read_account(a) {
            Some(acc) => {
                cur_balance = acc.balance;
                cur_nonce = acc.nonce;
                cur_code = copy_bytes(&acc.code);
                storage = crate::types::copy_slots(&acc.storage);
            },
            None => {
                cur_balance = 0;
                cur_nonce = 0;
                cur_code = Vec::new();
                storage = Vec::new();
                proof {
                    assert(cur_code@ =~= state_account(s0, a@).code);
                    assert(slots_map(storage@) =~= state_account(s0, a@).storage);
                }
            },
        }
        let ghost base = state_account(s0, a@);
        assert(slots_map(storage@) == base.storage);

        // merge the step's storage pairs over the existing slots
        let mut i: usize = 0;
        while i < c.storage.len()
            invariant
                i <= c.storage.len(),
                slots_map(storage@) == base.storage.union_prefer_right(
                    slots_map(c.storage@.take(i as int)),
                ),
            decreases c.storage.len() - i,
        {
            let ghost st_old = storage@;
            storage.push(c.storage[i]);
            proof {
                let p = c.storage@[i as int];
                assert(storage@.drop_last() =~= st_old);
                assert(storage@.last() == p);
                assert(slots_map(storage@) == slots_map(st_old).insert(p.0, p.1));
                assert(c.storage@.take(i + 1 as int).drop_last() =~= c.storage@.take(i as int));
                assert(c.storage@.take(i + 1 as int).last() == p);
                assert(slots_map(c.storage@.take(i + 1 as int)) == slots_map(
                    c.storage@.take(i as int),
                ).insert(p.0, p.1));
                assert(base.storage.union_prefer_right(
                    slots_map(c.storage@.take(i as int)),
                ).insert(p.0, p.1) =~= base.storage.union_prefer_right(
                    slots_map(c.storage@.take(i + 1 as int)),
                ));
            }
            i = i + 1;
        }
        proof {
            assert(c.storage@.take(c.storage@.len() as int) =~= c.storage@);
        }

        let new_account = Account {
            balance: match c.balance {
                Some(b) => b,
                None => cur_balance,
            },
            nonce: match c.nonce {
                Some(n) => n,
                None => cur_nonce,
            },
            code: match &c.code {
                Some(cd) => copy_bytes(cd),
                None => cur_code,
            },
            storage,
        };
        assert(new_account@ =~= apply_change_v(base, c@));
        let ghost d0 = self.delta@;
        self.delta.push((*a, new_account));
        proof {
            assert(self.delta@.drop_last() =~= d0);
            assert(accounts_map(self.delta@) == accounts_map(d0).insert(a@, new_account@));
            assert(self.state() =~= s0.insert(a@, apply_change_v(base, c@)));
        }
    }

    /// Merges one step's balance, nonce, code and storage deltas into the
    /// delta map, account by account, so later steps in the same query
    /// observe them. The snapshot is never mutated.
    pub fn commit(&mut self, changes: &Vec<(Address, AccountChanges)>)
        ensures
            final(self).state() == apply_changes_v(
                old(self).state(),
                crate::types::changes_view(changes@),
            ),
            final(self).snapshot == old(self).snapshot,
    {
        let ghost s0 = self.state();
        let ghost cv = crate::types::changes_view(changes@);
        let mut i: usize = 0;
        while i < changes.len()
            invariant
                i <= changes.len(),
                cv == crate::types::changes_view(changes@),
                self.state() == apply_changes_v(s0, cv.take(i as int)),
                self.snapshot == old(self).snapshot,
            decreases changes.len() - i,
        {
            proof {
                assert(cv.take(i + 1 as int).drop_last() =~= cv.take(i as int));
                assert(cv.take(i + 1 as int).last() == cv[i as int]);
                assert(cv[i as int] == (changes@[i as int].0@, changes@[i as int].1@));
            }
            let entry = &changes[i];
            self.commit_one(&entry.0, &entry.1);
            i = i + 1;
        }
        proof {
            assert(cv.take(cv.len() as int) =~= cv);
        }
    }
}

} // verus!
