//! The balance ledger: one numeric balance per account, and the
//! dispatchable `transfer` operation with transactional semantics over the
//! pair of accounts it touches.

use vstd::prelude::*;

use crate::storage::StorageMap;
use crate::support::{Dispatch, DispatchError, DispatchResult};
use crate::system::AccountKey;
use crate::traits::{Amount, Identifier};

verus! {

/// What the balance ledger demands beyond the account/block ledger's types.
pub trait Config: crate::system::Config {
    /// The type measuring an account's balance.
    type Balance: Amount;
}

/// The balance ledger state.
pub struct Pallet<T: Config> {
    balances: StorageMap<T::AccountId, T::Balance>,
}

/// What a transfer of `a` from the account keyed `ck` to the account keyed
/// `tk` does: it succeeds, moving the amount, exactly when the sender can
/// cover it and the receiver's balance stays below the ceiling; on any
/// failure no balance changes. Underflow is reported before overflow. When
/// sender and receiver coincide, the receiver's update is the one that
/// lands, leaving the account richer by `a`.
pub open spec fn transfer_spec<T: Config>(
    pre: Pallet<T>,
    post: Pallet<T>,
    ck: AccountKey<T>,
    tk: AccountKey<T>,
    a: int,
    r: DispatchResult,
) -> bool {
    let cb = pre.balance_of(ck);
    let tb = pre.balance_of(tk);
    &&& (r is Ok <==> a <= cb && tb + a <= <T::Balance as Amount>::max_value())
    &&& (r == Err::<(), DispatchError>(DispatchError::InsufficientFunds) <==> a > cb)
    &&& (r == Err::<(), DispatchError>(DispatchError::BalanceOverflow) <==> a <= cb && tb + a
        > <T::Balance as Amount>::max_value())
    &&& (r is Ok ==> forall|k: AccountKey<T>|
        post.balance_of(k) == (if k == tk {
            tb + a
        } else if k == ck {
            cb - a
        } else {
            pre.balance_of(k)
        }))
    &&& (r is Err ==> forall|k: AccountKey<T>| post.balance_of(k) == pre.balance_of(k))
}

/// What dispatching `call` from the account keyed `ak` does to this pallet.
pub open spec fn dispatch_spec<T: Config>(
    pre: Pallet<T>,
    post: Pallet<T>,
    ak: AccountKey<T>,
    call: Call<T>,
    r: DispatchResult,
) -> bool {
    match call {
        Call::Transfer { to, amount } => transfer_spec(
            pre,
            post,
            ak,
            to.key(),
            amount.value(),
            r,
        ),
    }
}

impl<T: Config> Pallet<T> {
    /// The balance recorded for the account keyed `k`; zero while unseen.
    pub closed spec fn balance_of(&self, k: AccountKey<T>) -> int {
        if self.balances@.contains_key(k) {
            self.balances@[k].value()
        } else {
            0
        }
    }

    /// A fresh ledger: every balance zero.
    pub fn new() -> (r: Self)
        ensures
            forall|k: AccountKey<T>| r.balance_of(k) == 0,
    {
        Pallet { balances: StorageMap::new() }
    }

    /// Administrative overwrite of one account's balance, for seeding state
    /// before block execution begins. Not reachable through dispatch.
    pub fn set_balance(&mut self, who: &T::AccountId, amount: T::Balance)
        ensures
            final(self).balance_of(who.key()) == amount.value(),
            forall|k: AccountKey<T>|
                k != who.key() ==> final(self).balance_of(k) == old(self).balance_of(k),
    {
        self.balances.insert(who.dup(), amount);
    }

    /// Read the balance recorded for `who`; zero while unseen.
    pub fn balance(&self, who: &T::AccountId) -> (r: T::Balance)
        ensures
            r.value() == self.balance_of(who.key()),
    {
        match self.balances.get(who) {
            Some(b) => *b,
            None => T::Balance::zero(),
        }
    }

    /// Move `amount` from `caller` to `to`; see [`transfer_spec`].
    pub fn transfer(&mut self, caller: T::AccountId, to: T::AccountId, amount: T::Balance) -> (r:
        DispatchResult)
        ensures
            transfer_spec(*old(self), *final(self), caller.key(), to.key(), amount.value(), r),
    {
        let caller_balance = self.balance(&caller);
        let to_balance = self.balance(&to);
        let new_caller_balance = match caller_balance.checked_sub(amount) {
            Some(v) => v,
            None => {
                return Err(DispatchError::InsufficientFunds);
            },
        };
        let new_to_balance = match to_balance.checked_add(amount) {
            Some(v) => v,
            None => {
                return Err(DispatchError::BalanceOverflow);
            },
        };
        self.balances.insert(caller, new_caller_balance);
        self.balances.insert(to, new_to_balance);
        Ok(())
    }
}

/// The dispatchable calls of the balance ledger.
pub enum Call<T: Config> {
    Transfer { to: T::AccountId, amount: T::Balance },
}

impl<T: Config> Dispatch for Pallet<T> {
    type Caller = T::AccountId;

    type Call = Call<T>;

    /// Route `call` to the operation it names; see [`dispatch_spec`].
    fn dispatch(&mut self, caller: T::AccountId, call: Call<T>) -> (r: DispatchResult)
        ensures
            dispatch_spec(*old(self), *final(self), caller.key(), call, r),
    {
        match call {
            Call::Transfer { to, amount } => self.transfer(caller, to, amount),
        }
    }
}

} // verus!
