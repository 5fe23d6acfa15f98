use std::collections::HashMap;
use vstd::prelude::*;

use crate::errors::LedgerError;

verus! {

broadcast use vstd::std_specs::hash::group_hash_axioms;

/// An in-memory currency ledger: per account a free balance and a reserved
/// balance, with absent accounts holding zero of both. It offers the
/// capability set the escrow protocol consumes: balance reads, `reserve`,
/// `unreserve` and `transfer`.
pub struct Ledger {
    pub free: HashMap<u64, u128>,
    pub reserved: HashMap<u64, u128>,
}

impl Ledger {
    /// The free balance of an account; zero when the account is absent.
    pub open spec fn free_of(self, a: u64) -> u128 {
        if self.free@.contains_key(a) {
            self.free@[a]
        } else {
            0
        }
    }

    /// The reserved balance of an account; zero when the account is absent.
    pub open spec fn reserved_of(self, a: u64) -> u128 {
        if self.reserved@.contains_key(a) {
            self.reserved@[a]
        } else {
            0
        }
    }

    /// Well-formedness: every account's total holding (free plus reserved)
    /// fits the balance type, so moving funds between the two sides of one
    /// account can never overflow.
    pub open spec fn wf(self) -> bool {
        forall|a: u64| #[trigger] self.free_of(a) + self.reserved_of(a) <= u128::MAX
    }

    /// An empty ledger: every account holds zero.
    pub fn new() -> (r: Ledger)
        ensures
            r.wf(),
            forall|a: u64| #[trigger] r.free_of(a) == 0 && r.reserved_of(a) == 0,
    {
        Ledger { free: HashMap::new(), reserved: HashMap::new() }
    }

    /// Endow an account: its free balance becomes `amount` and its
    /// reservation is cleared; every other account keeps its balances.
    pub fn set_balance(&mut self, a: u64, amount: u128)
        requires
            old(self).wf(),
        ensures
            final(self).wf(),
            final(self).free_of(a) == amount,
            final(self).reserved_of(a) == 0,
            forall|x: u64|
                x != a ==> #[trigger] final(self).free_of(x) == old(self).free_of(x)
                    && final(self).reserved_of(x) == old(self).reserved_of(x),
    {
        self.free.insert(a, amount);
        self.reserved.insert(a, 0);
        proof {
            assert forall|x: u64| #[trigger] self.free_of(x) + self.reserved_of(x)
                <= u128::MAX by {
                assert(old(self).free_of(x) + old(self).reserved_of(x) <= u128::MAX);
            };
        }
    }

    /// The free balance of an account.
    pub fn free_balance(&self, a: u64) -> (r: u128)
        ensures
            r == self.free_of(a),
    {
        match self.free.get(&a) {
            Some(v) => *v,
            None => 0,
        }
    }

    /// The reserved balance of an account.
    pub fn reserved_balance(&self, a: u64) -> (r: u128)
        ensures
            r == self.reserved_of(a),
    {
        match self.reserved.get(&a) {
            Some(v) => *v,
            None => 0,
        }
    }

    /// Move `amount` from an account's free balance into its reservation.
    /// Declines when the free balance is short; a decline changes nothing.
    pub fn reserve(&mut self, a: u64, amount: u128) -> (r: Result<(), LedgerError>)
        requires
            old(self).wf(),
        ensures
            final(self).wf(),
            (if old(self).free_of(a) < amount {
                r == Err::<(), LedgerError>(LedgerError::InsufficientBalance) && *final(self)
                    == *old(self)
            } else {
                r == Ok::<(), LedgerError>(()) && final(self).free_of(a) == old(self).free_of(a)
                    - amount && final(self).reserved_of(a) == old(self).reserved_of(a) + amount
                    && (forall|x: u64|
                    x != a ==> #[trigger] final(self).free_of(x) == old(self).free_of(x)
                        && final(self).reserved_of(x) == old(self).reserved_of(x))
            }),
    {
        let f = self.free_balance(a);
        if f < amount {
            return Err(LedgerError::InsufficientBalance);
        }
        let res = self.reserved_balance(a);
        proof {
            assert(old(self).free_of(a) + old(self).reserved_of(a) <= u128::MAX);
        }
        self.free.insert(a, f - amount);
        self.reserved.insert(a, res + amount);
        proof {
            assert forall|x: u64| #[trigger] self.free_of(x) + self.reserved_of(x)
                <= u128::MAX by {
                assert(old(self).free_of(x) + old(self).reserved_of(x) <= u128::MAX);
            };
        }
        Ok(())
    }

    /// Release up to `amount` from an account's reservation back into its
    /// free balance; when less is reserved, release just what is there.
    /// Never fails.
    pub fn unreserve(&mut self, a: u64, amount: u128)
        requires
            old(self).wf(),
        ensures
            final(self).wf(),
            ({
                let rel = if amount <= old(self).reserved_of(a) {
                    amount
                } else {
                    old(self).reserved_of(a)
                };
                final(self).free_of(a) == old(self).free_of(a) + rel && final(self).reserved_of(a)
                    == old(self).reserved_of(a) - rel
            }),
            forall|x: u64|
                x != a ==> #[trigger] final(self).free_of(x) == old(self).free_of(x)
                    && final(self).reserved_of(x) == old(self).reserved_of(x),
    {
        let res = self.reserved_balance(a);
        let rel = if amount <= res {
            amount
        } else {
            res
        };
        let f = self.free_balance(a);
        proof {
            assert(old(self).free_of(a) + old(self).reserved_of(a) <= u128::MAX);
        }
        self.reserved.insert(a, res - rel);
        self.free.insert(a, f + rel);
        proof {
            assert forall|x: u64| #[trigger] self.free_of(x) + self.reserved_of(x)
                <= u128::MAX by {
                assert(old(self).free_of(x) + old(self).reserved_of(x) <= u128::MAX);
            };
        }
    }

    /// Move `amount` of free balance from one account to another; the source
    /// may be emptied entirely. A transfer from an account to itself succeeds
    /// without touching anything. Declines when the source's free balance is
    /// short, or when the destination's holdings would overflow the balance
    /// type; a decline changes nothing.
    pub fn transfer(&mut self, from: u64, to: u64, amount: u128) -> (r: Result<(), LedgerError>)
        requires
            old(self).wf(),
        ensures
            final(self).wf(),
            (if from == to {
                r == Ok::<(), LedgerError>(()) && *final(self) == *old(self)
            } else if old(self).free_of(from) < amount {
                r == Err::<(), LedgerError>(LedgerError::InsufficientBalance) && *final(self)
                    == *old(self)
            } else if old(self).free_of(to) + old(self).reserved_of(to) + amount > u128::MAX {
                r == Err::<(), LedgerError>(LedgerError::Overflow) && *final(self) == *old(self)
            } else {
                r == Ok::<(), LedgerError>(()) && final(self).free_of(from) == old(self).free_of(
                    from,
                ) - amount && final(self).free_of(to) == old(self).free_of(to) + amount && (forall|
                    x: u64,
                |
                    x != from && x != to ==> #[trigger] final(self).free_of(x) == old(
                        self,
                    ).free_of(x)) && (forall|x: u64| #[trigger]
                    final(self).reserved_of(x) == old(self).reserved_of(x))
            }),
    {
        if from == to {
            return Ok(());
        }
        let f_from = self.free_balance(from);
        if f_from < amount {
            return Err(LedgerError::InsufficientBalance);
        }
        let f_to = self.free_balance(to);
        let res_to = self.reserved_balance(to);
        if amount > u128::MAX - f_to || f_to + amount > u128::MAX - res_to {
            return Err(LedgerError::Overflow);
        }
        self.free.insert(from, f_from - amount);
        self.free.insert(to, f_to + amount);
        proof {
            assert forall|x: u64| #[trigger] self.free_of(x) + self.reserved_of(x)
                <= u128::MAX by {
                assert(old(self).free_of(x) + old(self).reserved_of(x) <= u128::MAX);
            };
        }
        Ok(())
    }
}

} // verus!
