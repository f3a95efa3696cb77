//! The runtime aggregator and the block executor.
//!
//! The runtime owns one instance of each pallet, instantiated with concrete
//! types, unions their call types into [`RuntimeCall`], and routes each
//! incoming call to the pallet that owns it. The block executor consumes
//! whole blocks: it advances the block counter, validates the header, and
//! applies the extrinsics in order, isolating each one's failure.
//!
//! Everything the runtime does is specified against [`StateModel`], the
//! mathematical state, through the transition functions below; the exported
//! laws at the bottom are proved purely about those transitions.

use vstd::prelude::*;

use crate::balances;
use crate::proof_of_existence;
use crate::support::{
    Block, Dispatch, DispatchError, DispatchResult, Extrinsic, ExtrinsicFailure, Header,
};
use crate::system;

verus! {

/// The account identifier the reference runtime uses.
pub type AccountId = String;

/// The balance type the reference runtime uses.
pub type Balance = u128;

/// The nonce type the reference runtime uses.
pub type Nonce = u32;

/// The block number type the reference runtime uses.
pub type BlockNumber = u32;

/// The content identifier the reference runtime uses.
pub type Content = String;

/// The runtime's instantiation of every pallet configuration.
pub struct RuntimeConfig;

impl system::Config for RuntimeConfig {
    type AccountId = AccountId;

    type BlockNumber = BlockNumber;

    type Nonce = Nonce;
}

impl balances::Config for RuntimeConfig {
    type Balance = Balance;
}

impl proof_of_existence::Config for RuntimeConfig {
    type Content = Content;
}

/// The union of every pallet's dispatchable calls, one variant per pallet.
/// Adding a pallet means adding one variant here and one forwarding arm to
/// the runtime's dispatch — nothing else changes.
pub enum RuntimeCall {
    Balances(balances::Call<RuntimeConfig>),
    ProofOfExistence(proof_of_existence::Call<RuntimeConfig>),
}

/// An extrinsic addressed to the reference runtime.
pub type RuntimeExtrinsic = Extrinsic<AccountId, RuntimeCall>;

/// A block header for the reference runtime.
pub type RuntimeHeader = Header<BlockNumber>;

/// A block addressed to the reference runtime.
pub type RuntimeBlock = Block<RuntimeHeader, RuntimeExtrinsic>;

/// The mathematical state of the runtime. Accounts and content are named by
/// their mathematical keys; the nonce and balance maps are total, reading
/// zero for every unseen account, while the claim map holds exactly the
/// content keys that currently have an owner.
#[verifier::ext_equal]
pub struct StateModel {
    /// The current block number.
    pub block_number: int,
    /// Every account's extrinsic counter.
    pub nonces: Map<Seq<char>, int>,
    /// Every account's balance.
    pub balances: Map<Seq<char>, int>,
    /// The owner of each claimed content key.
    pub claims: Map<Seq<char>, Seq<char>>,
}

/// The state a fresh runtime starts in: block zero, every counter and
/// balance zero, nothing claimed.
pub open spec fn initial_state() -> StateModel {
    StateModel {
        block_number: 0,
        nonces: Map::total(|k: Seq<char>| 0),
        balances: Map::total(|k: Seq<char>| 0),
        claims: Map::empty(),
    }
}

/// The transition a transfer of `a` from the account keyed `ck` to the
/// account keyed `tk` makes, with its outcome. Underflow is reported before
/// overflow; on failure the state is untouched. The sender's debit is
/// written before the receiver's credit, so a self-transfer leaves the
/// credit as the surviving write.
pub open spec fn transfer_transition(s: StateModel, ck: Seq<char>, tk: Seq<char>, a: int) -> (
    StateModel,
    DispatchResult,
) {
    if a > s.balances[ck] {
        (s, Err(DispatchError::InsufficientFunds))
    } else if s.balances[tk] + a > Balance::MAX as int {
        (s, Err(DispatchError::BalanceOverflow))
    } else {
        (
            StateModel {
                balances: s.balances.insert(ck, s.balances[ck] - a).insert(tk, s.balances[tk] + a),
                ..s
            },
            Ok(()),
        )
    }
}

/// The transition claiming the content keyed `ck` for the account keyed
/// `ak` makes, with its outcome.
pub open spec fn create_claim_transition(s: StateModel, ak: Seq<char>, ck: Seq<char>) -> (
    StateModel,
    DispatchResult,
) {
    if s.claims.contains_key(ck) {
        (s, Err(DispatchError::ClaimAlreadyExists))
    } else {
        (StateModel { claims: s.claims.insert(ck, ak), ..s }, Ok(()))
    }
}

/// The transition revoking the claim on the content keyed `ck` by the
/// account keyed `ak` makes, with its outcome.
pub open spec fn revoke_claim_transition(s: StateModel, ak: Seq<char>, ck: Seq<char>) -> (
    StateModel,
    DispatchResult,
) {
    if !s.claims.contains_key(ck) {
        (s, Err(DispatchError::ClaimNotFound))
    } else if s.claims[ck] != ak {
        (s, Err(DispatchError::NotClaimOwner))
    } else {
        (StateModel { claims: s.claims.remove(ck), ..s }, Ok(()))
    }
}

/// The transition one dispatched call makes from `s`, with its outcome:
/// the union of the pallets' transitions.
pub open spec fn apply_call(s: StateModel, caller: Seq<char>, call: RuntimeCall) -> (
    StateModel,
    DispatchResult,
) {
    match call {
        RuntimeCall::Balances(balances::Call::Transfer { to, amount }) => transfer_transition(
            s,
            caller,
            to@,
            amount as int,
        ),
        RuntimeCall::ProofOfExistence(
            proof_of_existence::Call::CreateClaim { claim },
        ) => create_claim_transition(s, caller, claim@),
        RuntimeCall::ProofOfExistence(
            proof_of_existence::Call::RevokeClaim { claim },
        ) => revoke_claim_transition(s, caller, claim@),
    }
}

/// The transition one extrinsic makes: the caller's nonce is bumped
/// unconditionally, then its call is dispatched; the call's failure does
/// not undo the bump.
pub open spec fn apply_extrinsic(s: StateModel, ext: RuntimeExtrinsic) -> (
    StateModel,
    DispatchResult,
) {
    let bumped = StateModel {
        nonces: s.nonces.insert(ext.caller@, s.nonces[ext.caller@] + 1),
        ..s
    };
    apply_call(bumped, ext.caller@, ext.call)
}

/// The state after the first `n` extrinsics of `exts`, applied in order
/// from `s`.
pub open spec fn apply_extrinsics(s: StateModel, exts: Seq<RuntimeExtrinsic>, n: int) -> StateModel
    decreases n,
{
    if n <= 0 {
        s
    } else {
        apply_extrinsic(apply_extrinsics(s, exts, n - 1), exts[n - 1]).0
    }
}

/// The diagnostics recorded while applying the first `n` extrinsics of
/// `exts` from `s` in the block numbered `bn`, in extrinsic order.
pub open spec fn failures_upto(
    s: StateModel,
    exts: Seq<RuntimeExtrinsic>,
    n: int,
    bn: BlockNumber,
) -> Seq<ExtrinsicFailure<BlockNumber>>
    decreases n,
{
    if n <= 0 {
        Seq::empty()
    } else {
        let prev = failures_upto(s, exts, n - 1, bn);
        match apply_extrinsic(apply_extrinsics(s, exts, n - 1), exts[n - 1]).1 {
            Ok(_) => prev,
            Err(e) => prev.push(
                ExtrinsicFailure {
                    block_number: bn,
                    extrinsic_index: (n - 1) as usize,
                    error: e,
                },
            ),
        }
    }
}

/// What executing one block does to the runtime's state. The block counter
/// advances unconditionally, before validation. A header asserting anything
/// but the advanced block number rejects the whole block, applying no
/// extrinsic; otherwise every extrinsic is applied in order and the call
/// succeeds, reporting the recorded per-extrinsic diagnostics.
pub open spec fn execute_block_spec(
    s0: StateModel,
    header_number: BlockNumber,
    exts: Seq<RuntimeExtrinsic>,
    s1: StateModel,
    r: Result<Vec<ExtrinsicFailure<BlockNumber>>, DispatchError>,
) -> bool {
    let advanced = StateModel { block_number: s0.block_number + 1, ..s0 };
    if header_number as int != s0.block_number + 1 {
        &&& r == Err::<Vec<ExtrinsicFailure<BlockNumber>>, DispatchError>(
            DispatchError::BlockNumberMismatch,
        )
        &&& s1 == advanced
    } else {
        &&& r matches Ok(fails) && fails@ == failures_upto(
            advanced,
            exts,
            exts.len() as int,
            header_number,
        )
        &&& s1 == apply_extrinsics(advanced, exts, exts.len() as int)
    }
}

/// Dispatched calls only touch balances or claims: they never change a
/// nonce or the block number.
pub proof fn lemma_apply_call_frame(s: StateModel, caller: Seq<char>, call: RuntimeCall)
    ensures
        apply_call(s, caller, call).0.nonces == s.nonces,
        apply_call(s, caller, call).0.block_number == s.block_number,
{
    match call {
        RuntimeCall::Balances(balances::Call::Transfer { to, amount }) => {
        },
        RuntimeCall::ProofOfExistence(proof_of_existence::Call::CreateClaim { claim }) => {
        },
        RuntimeCall::ProofOfExistence(proof_of_existence::Call::RevokeClaim { claim }) => {
        },
    }
}

/// The runtime: one instance of each pallet's state, and nothing else.
pub struct Runtime {
    system: system::Pallet<RuntimeConfig>,
    balances: balances::Pallet<RuntimeConfig>,
    proof_of_existence: proof_of_existence::Pallet<RuntimeConfig>,
}

impl Runtime {
    /// The mathematical state this runtime is in.
    pub closed spec fn model(&self) -> StateModel {
        StateModel {
            block_number: self.system.current_block(),
            nonces: Map::total(|k: Seq<char>| self.system.nonce_of(k)),
            balances: Map::total(|k: Seq<char>| self.balances.balance_of(k)),
            claims: Map::new(
                |c: Seq<char>| self.proof_of_existence.owner_of(c) is Some,
                |c: Seq<char>| self.proof_of_existence.owner_of(c)->Some_0,
            ),
        }
    }

    /// A fresh runtime in [`initial_state`]: every pallet empty.
    pub fn new() -> (r: Self)
        ensures
            r.model() == initial_state(),
    {
        let r = Runtime {
            system: system::Pallet::new(),
            balances: balances::Pallet::new(),
            proof_of_existence: proof_of_existence::Pallet::new(),
        };
        proof {
            assert(r.model().nonces =~= initial_state().nonces);
            assert(r.model().balances =~= initial_state().balances);
            assert(r.model().claims =~= initial_state().claims);
        }
        r
    }

    /// Administrative overwrite of one account's balance, for seeding state
    /// before any block is executed. Not reachable through dispatch.
    pub fn set_balance(&mut self, who: &AccountId, amount: Balance)
        ensures
            final(self).model() == (StateModel {
                balances: old(self).model().balances.insert(who@, amount as int),
                ..old(self).model()
            }),
    {
        self.balances.set_balance(who, amount);
        proof {
            assert(self.model().balances =~= old(self).model().balances.insert(
                who@,
                amount as int,
            ));
            assert(self.model().nonces =~= old(self).model().nonces);
            assert(self.model().claims =~= old(self).model().claims);
        }
    }

    /// Read an account's balance; zero while unseen.
    pub fn balance(&self, who: &AccountId) -> (r: Balance)
        ensures
            r as int == self.model().balances[who@],
    {
        self.balances.balance(who)
    }

    /// Read an account's nonce; zero while unseen.
    pub fn nonce(&self, who: &AccountId) -> (r: Nonce)
        ensures
            r as int == self.model().nonces[who@],
    {
        self.system.nonce(who)
    }

    /// Read the current block number.
    pub fn block_number(&self) -> (r: BlockNumber)
        ensures
            r as int == self.model().block_number,
    {
        self.system.block_number()
    }

    /// Execute one block; see [`execute_block_spec`] for what it does. The
    /// preconditions give the counters room: the block counter is below its
    /// ceiling, and no caller's nonce can reach its ceiling within this
    /// block.
    pub fn execute_block(&mut self, block: RuntimeBlock) -> (r: Result<
        Vec<ExtrinsicFailure<BlockNumber>>,
        DispatchError,
    >)
        requires
            old(self).model().block_number < BlockNumber::MAX as int,
            forall|j: int|
                0 <= j < block.extrinsics@.len() ==> old(self).model().nonces[(
                #[trigger] block.extrinsics@[j]).caller@] + block.extrinsics@.len()
                    <= Nonce::MAX as int,
        ensures
            execute_block_spec(
                old(self).model(),
                block.header.block_number,
                block.extrinsics@,
                final(self).model(),
                r,
            ),
    {
        let ghost s0 = self.model();
        self.system.inc_block_number();
        proof {
            assert(self.model().nonces =~= s0.nonces);
            assert(self.model().balances =~= s0.balances);
            assert(self.model().claims =~= s0.claims);
            assert(self.model() == (StateModel { block_number: s0.block_number + 1, ..s0 }));
        }
        let ghost s_adv = self.model();
        let current = self.system.block_number();
        if block.header.block_number != current {
            return Err(DispatchError::BlockNumberMismatch);
        }
        let header_number = block.header.block_number;
        let ghost exts = block.extrinsics@;
        let mut extrinsics = block.extrinsics;
        let n = extrinsics.len();
        let mut failures: Vec<ExtrinsicFailure<BlockNumber>> = Vec::new();
        let mut i: usize = 0;
        while i < n
            invariant
                i <= n,
                n == exts.len(),
                extrinsics@ == exts.subrange(i as int, n as int),
                self.model() == apply_extrinsics(s_adv, exts, i as int),
                failures@ == failures_upto(s_adv, exts, i as int, header_number),
                forall|j: int|
                    0 <= j < n ==> s_adv.nonces[(#[trigger] exts[j]).caller@] + n
                        <= Nonce::MAX as int,
                forall|k: Seq<char>| self.model().nonces[k] <= s_adv.nonces[k] + i,
            decreases n - i,
        {
            let ghost s_i = apply_extrinsics(s_adv, exts, i as int);
            let ext = extrinsics.remove(0);
            let ghost ext0 = ext;
            proof {
                assert(exts.subrange(i as int, n as int)[0] == exts[i as int]);
                assert(ext0 == exts[i as int]);
                assert(extrinsics@ =~= exts.subrange(i as int + 1, n as int));
                assert(self.model().nonces[ext0.caller@] <= s_adv.nonces[ext0.caller@] + i);
            }
            self.system.inc_nonce(&ext.caller);
            proof {
                assert(self.model().nonces =~= s_i.nonces.insert(
                    ext0.caller@,
                    s_i.nonces[ext0.caller@] + 1,
                ));
                assert(self.model().balances =~= s_i.balances);
                assert(self.model().claims =~= s_i.claims);
            }
            let ghost s_mid = self.model();
            let res = self.dispatch(ext.caller, ext.call);
            proof {
                let bumped = StateModel {
                    nonces: s_i.nonces.insert(ext0.caller@, s_i.nonces[ext0.caller@] + 1),
                    ..s_i
                };
                assert(s_mid == bumped);
                assert(self.model() == apply_call(bumped, ext0.caller@, ext0.call).0);
                assert(apply_extrinsic(s_i, ext0).0 == self.model());
                assert(apply_extrinsics(s_adv, exts, i as int + 1) == self.model());
                assert(res == apply_extrinsic(s_i, ext0).1);
                lemma_apply_call_frame(bumped, ext0.caller@, ext0.call);
                assert forall|k: Seq<char>|
                    self.model().nonces[k] <= s_adv.nonces[k] + (i + 1) by {
                    assert(self.model().nonces[k] == bumped.nonces[k]);
                    assert(s_i.nonces[k] <= s_adv.nonces[k] + i);
                }
            }
            match res {
                Ok(_) => {
                },
                Err(e) => {
                    failures.push(
                        ExtrinsicFailure {
                            block_number: header_number,
                            extrinsic_index: i,
                            error: e,
                        },
                    );
                },
            }
            proof {
                assert(failures@ =~= failures_upto(s_adv, exts, i as int + 1, header_number));
            }
            i = i + 1;
        }
        Ok(failures)
    }

    /// Look up who owns a piece of content, if anyone.
    pub fn get_claim(&self, content: &Content) -> (r: Option<&AccountId>)
        ensures
            match r {
                Some(a) => self.model().claims.contains_key(content@)
                    && self.model().claims[content@] == a@,
                None => !self.model().claims.contains_key(content@),
            },
    {
        self.proof_of_existence.get_claim(content)
    }
}

impl Dispatch for Runtime {
    type Caller = AccountId;

    type Call = RuntimeCall;

    /// Route a call to the pallet that owns it: the runtime's transition is
    /// exactly [`apply_call`] on its model.
    fn dispatch(&mut self, caller: AccountId, call: RuntimeCall) -> (r: DispatchResult)
        ensures
            final(self).model() == apply_call(old(self).model(), caller@, call).0,
            r == apply_call(old(self).model(), caller@, call).1,
    {
        let ghost s0 = self.model();
        let ghost caller_key = caller@;
        let ghost call0 = call;
        match call {
            RuntimeCall::Balances(pallet_call) => {
                let r = self.balances.dispatch(caller, pallet_call);
                proof {
                    let s1 = self.model();
                    match call0 {
                        RuntimeCall::Balances(balances::Call::Transfer { to, amount }) => {
                            let step = transfer_transition(s0, caller_key, to@, amount as int);
                            if r is Ok {
                                assert(s1.balances =~= step.0.balances);
                            } else {
                                assert(s1.balances =~= s0.balances);
                            }
                            assert(s1.nonces =~= s0.nonces);
                            assert(s1.claims =~= s0.claims);
                            assert(s1 == step.0);
                            if amount as int > s0.balances[caller_key] {
                                assert(r == Err::<(), DispatchError>(
                                    DispatchError::InsufficientFunds,
                                ));
                            } else if s0.balances[to@] + amount as int > Balance::MAX as int {
                                assert(r == Err::<(), DispatchError>(
                                    DispatchError::BalanceOverflow,
                                ));
                            } else {
                                assert(r->Ok_0 == ());
                                assert(r == Ok::<(), DispatchError>(()));
                            }
                            assert(r == step.1);
                        },
                        _ => {
                            assert(false);
                        },
                    }
                }
                r
            },
            RuntimeCall::ProofOfExistence(pallet_call) => {
                let r = self.proof_of_existence.dispatch(caller, pallet_call);
                proof {
                    let s1 = self.model();
                    match call0 {
                        RuntimeCall::ProofOfExistence(inner) => {
                            let step = apply_call(s0, caller_key, call0);
                            if r is Ok {
                                assert(s1.claims =~= step.0.claims);
                            } else {
                                assert(s1.claims =~= s0.claims);
                            }
                            assert(s1.nonces =~= s0.nonces);
                            assert(s1.balances =~= s0.balances);
                            assert(s1 == step.0);
                            match inner {
                                proof_of_existence::Call::CreateClaim { claim } => {
                                    if s0.claims.contains_key(claim@) {
                                        assert(r == Err::<(), DispatchError>(
                                            DispatchError::ClaimAlreadyExists,
                                        ));
                                    } else {
                                        assert(r->Ok_0 == ());
                                        assert(r == Ok::<(), DispatchError>(()));
                                    }
                                },
                                proof_of_existence::Call::RevokeClaim { claim } => {
                                    if !s0.claims.contains_key(claim@) {
                                        assert(r == Err::<(), DispatchError>(
                                            DispatchError::ClaimNotFound,
                                        ));
                                    } else if s0.claims[claim@] != caller_key {
                                        assert(r == Err::<(), DispatchError>(
                                            DispatchError::NotClaimOwner,
                                        ));
                                    } else {
                                        assert(r->Ok_0 == ());
                                        assert(r == Ok::<(), DispatchError>(()));
                                    }
                                },
                            }
                            assert(r == step.1);
                        },
                        _ => {
                            assert(false);
                        },
                    }
                }
                r
            },
        }
    }
}

/// The number of the first `n` extrinsics of `exts` whose caller is the
/// account keyed `who`.
pub open spec fn extrinsics_from(exts: Seq<RuntimeExtrinsic>, who: Seq<char>, n: int) -> int
    decreases n,
{
    if n <= 0 {
        0
    } else {
        extrinsics_from(exts, who, n - 1) + (if exts[n - 1].caller@ == who {
            1int
        } else {
            0int
        })
    }
}

/// Law: executing extrinsics raises an account's nonce by exactly the
/// number of extrinsics naming it as caller — whatever mix of successes and
/// failures their calls produce, since the bump precedes dispatch and no
/// dispatched call touches a nonce.
pub proof fn lemma_nonce_counts_extrinsics(
    s: StateModel,
    exts: Seq<RuntimeExtrinsic>,
    who: Seq<char>,
    n: int,
)
    requires
        0 <= n <= exts.len(),
    ensures
        apply_extrinsics(s, exts, n).nonces[who] == s.nonces[who] + extrinsics_from(exts, who, n),
    decreases n,
{
    if n > 0 {
        lemma_nonce_counts_extrinsics(s, exts, who, n - 1);
        let sp = apply_extrinsics(s, exts, n - 1);
        let ext = exts[n - 1];
        let bumped = StateModel {
            nonces: sp.nonces.insert(ext.caller@, sp.nonces[ext.caller@] + 1),
            ..sp
        };
        lemma_apply_call_frame(bumped, ext.caller@, ext.call);
    }
}

/// Law: an account that none of the first `n` extrinsics names — neither as
/// caller nor as the receiver of a transfer — keeps its nonce and balance
/// unchanged; in particular an account the history never saw reads zero.
pub proof fn lemma_unseen_account_unchanged(
    s: StateModel,
    exts: Seq<RuntimeExtrinsic>,
    who: Seq<char>,
    n: int,
)
    requires
        0 <= n <= exts.len(),
        forall|j: int| 0 <= j < n ==> (#[trigger] exts[j]).caller@ != who,
        forall|j: int|
            0 <= j < n ==> !((#[trigger] exts[j]).call matches RuntimeCall::Balances(
                balances::Call::Transfer { to, amount },
            ) && to@ == who),
    ensures
        apply_extrinsics(s, exts, n).nonces[who] == s.nonces[who],
        apply_extrinsics(s, exts, n).balances[who] == s.balances[who],
    decreases n,
{
    if n > 0 {
        lemma_unseen_account_unchanged(s, exts, who, n - 1);
        let sp = apply_extrinsics(s, exts, n - 1);
        let ext = exts[n - 1];
        let bumped = StateModel {
            nonces: sp.nonces.insert(ext.caller@, sp.nonces[ext.caller@] + 1),
            ..sp
        };
        lemma_apply_call_frame(bumped, ext.caller@, ext.call);
        match ext.call {
            RuntimeCall::Balances(balances::Call::Transfer { to, amount }) => {
                assert(to@ != who);
                assert(ext.caller@ != who);
            },
            RuntimeCall::ProofOfExistence(proof_of_existence::Call::CreateClaim { claim }) => {
            },
            RuntimeCall::ProofOfExistence(proof_of_existence::Call::RevokeClaim { claim }) => {
            },
        }
    }
}

/// Law: a successful revocation frees the content key — immediately after
/// it, a claim on the same content succeeds for any claimant whatever.
pub proof fn lemma_revoked_claim_reclaimable(
    s: StateModel,
    owner: Seq<char>,
    claimant: Seq<char>,
    content: Seq<char>,
)
    requires
        revoke_claim_transition(s, owner, content).1 is Ok,
    ensures
        create_claim_transition(revoke_claim_transition(s, owner, content).0, claimant, content).1
            is Ok,
{
}

} // verus!
