//! A balance book for one token: the transfer contract that deposits rely on.
use crate::error::BridgeError;
use std::collections::BTreeMap;
use vstd::prelude::*;

verus! {

broadcast use vstd::std_specs::btree::group_btree_axioms;

/// Balances of one token, keyed by account id. An account without an entry
/// holds zero.
pub struct TokenLedger {
    token: u64,
    balances: BTreeMap<u64, i128>,
}

/// The balance of `account` in the balance map `m`.
pub open spec fn balance_in(m: Map<u64, i128>, account: u64) -> int {
    if m.contains_key(account) {
        m[account] as int
    } else {
        0
    }
}

/// Why a transfer of `amount` from `from` to `to` is refused, if it is.
pub open spec fn transfer_error(m: Map<u64, i128>, from: u64, to: u64, amount: i128) -> Option<
    BridgeError,
> {
    if amount < 0 {
        Some(BridgeError::InvalidAmount)
    } else if balance_in(m, from) < amount {
        Some(BridgeError::InsufficientFunds)
    } else if from != to && balance_in(m, to) + amount > i128::MAX {
        Some(BridgeError::BalanceOverflow)
    } else {
        None
    }
}

/// The balances after an admitted transfer.
pub open spec fn transferred(m: Map<u64, i128>, from: u64, to: u64, amount: i128) -> Map<
    u64,
    i128,
> {
    if from == to {
        m
    } else {
        m.insert(from, (balance_in(m, from) - amount) as i128).insert(
            to,
            (balance_in(m, to) + amount) as i128,
        )
    }
}

impl View for TokenLedger {
    type V = Map<u64, i128>;

    closed spec fn view(&self) -> Map<u64, i128> {
        self.balances@
    }
}

impl TokenLedger {
    /// The id of the token whose balances this ledger holds.
    pub closed spec fn token_id(&self) -> u64 {
        self.token
    }

    /// The id of the token whose balances this ledger holds.
    pub fn token(&self) -> (r: u64)
        ensures
            r == self.token_id(),
    {
        self.token
    }

    /// An empty ledger of the token `token`.
    pub fn new(token: u64) -> (r: Self)
        ensures
            r.token_id() == token,
            r@ == Map::<u64, i128>::empty(),
    {
        TokenLedger { token, balances: BTreeMap::new() }
    }

    /// The balance of `account`.
    pub fn balance(&self, account: u64) -> (r: i128)
        ensures
            r as int == balance_in(self@, account),
    {
        match self.balances.get(&account) {
            Some(b) => *b,
            None => 0,
        }
    }

    /// Credits `amount` new units to `to`.
    pub fn mint(&mut self, to: u64, amount: i128) -> (r: Result<(), BridgeError>)
        ensures
            final(self).token_id() == old(self).token_id(),
            amount < 0 ==> r == Err::<(), BridgeError>(BridgeError::InvalidAmount),
            amount >= 0 && balance_in(old(self)@, to) + amount > i128::MAX ==> r == Err::<
                (),
                BridgeError,
            >(BridgeError::BalanceOverflow),
            amount >= 0 && balance_in(old(self)@, to) + amount <= i128::MAX ==> r == Ok::<
                (),
                BridgeError,
            >(()),
            r is Ok ==> final(self)@ == old(self)@.insert(
                to,
                (balance_in(old(self)@, to) + amount) as i128,
            ),
            r is Err ==> final(self)@ == old(self)@,
    {
        if amount < 0 {
            return Err(BridgeError::InvalidAmount);
        }
        let held = self.balance(to);
        if held > i128::MAX - amount {
            return Err(BridgeError::BalanceOverflow);
        }
        self.balances.insert(to, held + amount);
        Ok(())
    }

    /// Moves `amount` from `from` to `to`, or refuses as `transfer_error`
    /// says and changes nothing.
    pub fn transfer(&mut self, from: u64, to: u64, amount: i128) -> (r: Result<(), BridgeError>)
        ensures
            final(self).token_id() == old(self).token_id(),
            match transfer_error(old(self)@, from, to, amount) {
                Some(e) => r == Err::<(), BridgeError>(e) && final(self)@ == old(self)@,
                None => r == Ok::<(), BridgeError>(()) && final(self)@ == transferred(
                    old(self)@,
                    from,
                    to,
                    amount,
                ),
            },
    {
        if amount < 0 {
            return Err(BridgeError::InvalidAmount);
        }
        let from_held = self.balance(from);
        if from_held < amount {
            return Err(BridgeError::InsufficientFunds);
        }
        if from == to {
            return Ok(());
        }
        let to_held = self.balance(to);
        if to_held > i128::MAX - amount {
            return Err(BridgeError::BalanceOverflow);
        }
        self.balances.insert(from, from_held - amount);
        self.balances.insert(to, to_held + amount);
        Ok(())
    }
}

} // verus!
