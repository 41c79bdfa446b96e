use vstd::prelude::*;
use vstd::hash_map::HashMapWithView;

verus! {

broadcast use vstd::std_specs::hash::group_hash_axioms;

/// Failures that the currency ledger reports.
#[derive(Clone, Copy, Debug, PartialEq, Eq, Structural)]
pub enum BalanceError {
    /// The payer holds less than the amount.
    InsufficientBalance,
    /// The payee's balance would pass the largest amount.
    Overflow,
}

/// The free balance of every account; an account never credited holds zero.
pub struct Balances {
    free: HashMapWithView<u64, u64>,
}

impl View for Balances {
    type V = Map<u64, u64>;

    closed spec fn view(&self) -> Map<u64, u64> {
        self.free@
    }
}

/// The balance of `who` in the ledger `m`.
pub open spec fn balance_in(m: Map<u64, u64>, who: u64) -> u64 {
    if m.contains_key(who) {
        m[who]
    } else {
        0
    }
}

/// Whether `amount` can move from `from` to `to` in `m`.
pub open spec fn can_pay(m: Map<u64, u64>, from: u64, to: u64, amount: u64) -> bool {
    from == to || (amount <= balance_in(m, from) && balance_in(m, to) + amount <= u64::MAX)
}

/// The ledger `m` after `amount` moved from `from` to `to`.
pub open spec fn paid(m: Map<u64, u64>, from: u64, to: u64, amount: u64) -> Map<u64, u64> {
    if from == to {
        m
    } else {
        m.insert(from, (balance_in(m, from) - amount) as u64).insert(
            to,
            (balance_in(m, to) + amount) as u64,
        )
    }
}

impl Balances {
    /// A ledger where every account holds zero.
    pub fn new() -> (r: Balances)
        ensures
            r@ == Map::<u64, u64>::empty(),
    {
        Balances { free: HashMapWithView::new() }
    }

    /// The free balance of `who`.
    pub fn free_balance(&self, who: u64) -> (r: u64)
        ensures
            r == balance_in(self@, who),
    {
        match self.free.get(&who) {
            Some(v) => *v,
            None => 0,
        }
    }

    /// Sets the balance of `who`, as a genesis allocation does.
    pub fn set_balance(&mut self, who: u64, amount: u64)
        ensures
            final(self)@ == old(self)@.insert(who, amount),
    {
        self.free.insert(who, amount);
    }

    /// Checks whether `amount` can move from `from` to `to`.
    pub fn check_transfer(&self, from: u64, to: u64, amount: u64) -> (r: Result<(), BalanceError>)
        ensures
            r == self.check_transfer_result(from, to, amount),
            r is Ok <==> can_pay(self@, from, to, amount),
    {
        if from == to {
            return Ok(());
        }
        let have = self.free_balance(from);
        let dest = self.free_balance(to);
        if amount > have {
            Err(BalanceError::InsufficientBalance)
        } else if dest > u64::MAX - amount {
            Err(BalanceError::Overflow)
        } else {
            Ok(())
        }
    }

    /// Moves `amount` from `from` to `to`. On failure nothing changes; a
    /// payment to oneself always succeeds and changes nothing.
    pub fn transfer(&mut self, from: u64, to: u64, amount: u64) -> (r: Result<(), BalanceError>)
        ensures
            r == old(self).check_transfer_result(from, to, amount),
            r is Ok <==> can_pay(old(self)@, from, to, amount),
            r is Ok ==> final(self)@ == paid(old(self)@, from, to, amount),
            r is Err ==> final(self)@ == old(self)@,
    {
        let c = self.check_transfer(from, to, amount);
        if c.is_err() || from == to {
            return c;
        }
        let have = self.free_balance(from);
        let dest = self.free_balance(to);
        self.free.insert(from, have - amount);
        self.free.insert(to, dest + amount);
        Ok(())
    }

    /// The outcome that `check_transfer` and `transfer` report.
    pub open spec fn check_transfer_result(&self, from: u64, to: u64, amount: u64) -> Result<(), BalanceError> {
        if from == to {
            Ok(())
        } else if amount > balance_in(self@, from) {
            Err(BalanceError::InsufficientBalance)
        } else if balance_in(self@, to) + amount > u64::MAX {
            Err(BalanceError::Overflow)
        } else {
            Ok(())
        }
    }
}

} // verus!
