//! The account/block ledger: the current block number, and one monotonically
//! increasing counter ("nonce") per account. All operations are total on the
//! inputs they admit; this module has no dispatchable calls of its own.

use vstd::prelude::*;

use crate::storage::StorageMap;
use crate::traits::{Counter, Identifier};

verus! {

/// What the account/block ledger demands of its instantiation types.
pub trait Config {
    /// The type identifying an account.
    type AccountId: Identifier;

    /// The type counting blocks.
    type BlockNumber: Counter;

    /// The type counting a single account's extrinsics.
    type Nonce: Counter;
}

/// The mathematical key of a configuration's account identifiers.
pub type AccountKey<T> = <<T as Config>::AccountId as Identifier>::Key;

/// The account/block ledger state.
pub struct Pallet<T: Config> {
    block_number: T::BlockNumber,
    nonce: StorageMap<T::AccountId, T::Nonce>,
}

impl<T: Config> Pallet<T> {
    /// The current block number.
    pub closed spec fn current_block(&self) -> int {
        self.block_number.value()
    }

    /// The nonce recorded for the account keyed `k`; zero while unseen.
    pub closed spec fn nonce_of(&self, k: AccountKey<T>) -> int {
        if self.nonce@.contains_key(k) {
            self.nonce@[k].value()
        } else {
            0
        }
    }

    /// A fresh ledger: block number zero, every nonce zero.
    pub fn new() -> (r: Self)
        ensures
            r.current_block() == 0,
            forall|k: AccountKey<T>| r.nonce_of(k) == 0,
    {
        Pallet { block_number: T::BlockNumber::zero(), nonce: StorageMap::new() }
    }

    /// Read the current block number.
    pub fn block_number(&self) -> (r: T::BlockNumber)
        ensures
            r.value() == self.current_block(),
    {
        self.block_number
    }

    /// Advance the block counter by one. Nothing else changes.
    pub fn inc_block_number(&mut self)
        requires
            old(self).current_block() < T::BlockNumber::max_value(),
        ensures
            final(self).current_block() == old(self).current_block() + 1,
            forall|k: AccountKey<T>| final(self).nonce_of(k) == old(self).nonce_of(k),
    {
        self.block_number = self.block_number.incr();
    }

    /// Record one more extrinsic from `who`, creating the counter at zero
    /// first if `who` was never seen. Nothing else changes.
    pub fn inc_nonce(&mut self, who: &T::AccountId)
        requires
            old(self).nonce_of(who.key()) < T::Nonce::max_value(),
        ensures
            final(self).nonce_of(who.key()) == old(self).nonce_of(who.key()) + 1,
            forall|k: AccountKey<T>|
                k != who.key() ==> final(self).nonce_of(k) == old(self).nonce_of(k),
            final(self).current_block() == old(self).current_block(),
    {
        let nonce = match self.nonce.get(who) {
            Some(n) => *n,
            None => T::Nonce::zero(),
        };
        let new_nonce = nonce.incr();
        self.nonce.insert(who.dup(), new_nonce);
    }

    /// Read the nonce recorded for `who`; zero while unseen.
    pub fn nonce(&self, who: &T::AccountId) -> (r: T::Nonce)
        ensures
            r.value() == self.nonce_of(who.key()),
    {
        match self.nonce.get(who) {
            Some(n) => *n,
            None => T::Nonce::zero(),
        }
    }
}

} // verus!
