//! The claim registry: accounts claim ownership of opaque content keys.
//! Each content key has at most one owner at any time; only the recorded
//! owner may revoke, and revocation frees the key for any future claimant.

use vstd::prelude::*;

use crate::storage::StorageMap;
use crate::support::{Dispatch, DispatchError, DispatchResult};
use crate::system::AccountKey;
use crate::traits::Identifier;

verus! {

/// What the claim registry demands beyond the account/block ledger's types.
pub trait Config: crate::system::Config {
    /// The type identifying the content that can be claimed: the content
    /// itself, or better a digest of it — the choice is left to the host.
    type Content: Identifier;
}

/// The mathematical key of a configuration's content identifiers.
pub type ContentKey<T> = <<T as Config>::Content as Identifier>::Key;

/// The claim registry state.
pub struct Pallet<T: Config> {
    claims: StorageMap<T::Content, T::AccountId>,
}

/// What claiming the content keyed `ck` for the account keyed `ak` does: it
/// succeeds exactly when the content has no owner yet, whoever calls; on
/// failure nothing changes.
pub open spec fn create_claim_spec<T: Config>(
    pre: Pallet<T>,
    post: Pallet<T>,
    ak: AccountKey<T>,
    ck: ContentKey<T>,
    r: DispatchResult,
) -> bool {
    &&& (r is Ok <==> pre.owner_of(ck) is None)
    &&& (r == Err::<(), DispatchError>(DispatchError::ClaimAlreadyExists) <==> pre.owner_of(ck)
        is Some)
    &&& (r is Ok ==> forall|c: ContentKey<T>|
        post.owner_of(c) == (if c == ck {
            Some(ak)
        } else {
            pre.owner_of(c)
        }))
    &&& (r is Err ==> forall|c: ContentKey<T>| post.owner_of(c) == pre.owner_of(c))
}

/// What revoking the claim on the content keyed `ck` by the account keyed
/// `ak` does: it succeeds exactly when `ak` is the recorded owner, freeing
/// the key; an unclaimed key and a foreign owner are told apart; on failure
/// nothing changes.
pub open spec fn revoke_claim_spec<T: Config>(
    pre: Pallet<T>,
    post: Pallet<T>,
    ak: AccountKey<T>,
    ck: ContentKey<T>,
    r: DispatchResult,
) -> bool {
    &&& (r is Ok <==> pre.owner_of(ck) == Some(ak))
    &&& (r == Err::<(), DispatchError>(DispatchError::ClaimNotFound) <==> pre.owner_of(ck)
        is None)
    &&& (r == Err::<(), DispatchError>(DispatchError::NotClaimOwner) <==> pre.owner_of(ck)
        is Some && pre.owner_of(ck) != Some(ak))
    &&& (r is Ok ==> forall|c: ContentKey<T>|
        post.owner_of(c) == (if c == ck {
            None::<AccountKey<T>>
        } else {
            pre.owner_of(c)
        }))
    &&& (r is Err ==> forall|c: ContentKey<T>| post.owner_of(c) == pre.owner_of(c))
}

/// What dispatching `call` from the account keyed `ak` does to this pallet.
pub open spec fn dispatch_spec<T: Config>(
    pre: Pallet<T>,
    post: Pallet<T>,
    ak: AccountKey<T>,
    call: Call<T>,
    r: DispatchResult,
) -> bool {
    match call {
        Call::CreateClaim { claim } => create_claim_spec(pre, post, ak, claim.key(), r),
        Call::RevokeClaim { claim } => revoke_claim_spec(pre, post, ak, claim.key(), r),
    }
}

impl<T: Config> Pallet<T> {
    /// The owner key recorded for the content keyed `c`, if claimed.
    pub closed spec fn owner_of(&self, c: ContentKey<T>) -> Option<AccountKey<T>> {
        if self.claims@.contains_key(c) {
            Some(self.claims@[c].key())
        } else {
            None
        }
    }

    /// A fresh registry: nothing is claimed.
    pub fn new() -> (r: Self)
        ensures
            forall|c: ContentKey<T>| r.owner_of(c) is None,
    {
        Pallet { claims: StorageMap::new() }
    }

    /// Look up who owns the content of `content`, if anyone.
    pub fn get_claim(&self, content: &T::Content) -> (r: Option<&T::AccountId>)
        ensures
            match r {
                Some(a) => self.owner_of(content.key()) == Some(a.key()),
                None => self.owner_of(content.key()) is None,
            },
    {
        self.claims.get(content)
    }

    /// Record `caller` as the owner of `claim`; see [`create_claim_spec`].
    pub fn create_claim(&mut self, caller: T::AccountId, claim: T::Content) -> (r: DispatchResult)
        ensures
            create_claim_spec(*old(self), *final(self), caller.key(), claim.key(), r),
    {
        if self.claims.contains_key(&claim) {
            return Err(DispatchError::ClaimAlreadyExists);
        }
        self.claims.insert(claim, caller);
        Ok(())
    }

    /// Free `claim`, if `caller` is its recorded owner; see
    /// [`revoke_claim_spec`].
    pub fn revoke_claim(&mut self, caller: T::AccountId, claim: T::Content) -> (r: DispatchResult)
        ensures
            revoke_claim_spec(*old(self), *final(self), caller.key(), claim.key(), r),
    {
        let owner = match self.claims.get(&claim) {
            Some(o) => o,
            None => {
                return Err(DispatchError::ClaimNotFound);
            },
        };
        if !caller.id_eq(owner) {
            return Err(DispatchError::NotClaimOwner);
        }
        self.claims.remove(&claim);
        Ok(())
    }
}

/// The dispatchable calls of the claim registry.
pub enum Call<T: Config> {
    CreateClaim { claim: T::Content },
    RevokeClaim { claim: T::Content },
}

impl<T: Config> Dispatch for Pallet<T> {
    type Caller = T::AccountId;

    type Call = Call<T>;

    /// Route `call` to the operation it names; see [`dispatch_spec`].
    fn dispatch(&mut self, caller: T::AccountId, call: Call<T>) -> (r: DispatchResult)
        ensures
            dispatch_spec(*old(self), *final(self), caller.key(), call, r),
    {
        match call {
            Call::CreateClaim { claim } => self.create_claim(caller, claim),
            Call::RevokeClaim { claim } => self.revoke_claim(caller, claim),
        }
    }
}

} // verus!
