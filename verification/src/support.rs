//! The shared vocabulary of the engine: blocks, extrinsics, the dispatch
//! protocol, and the failure taxonomy.

use vstd::prelude::*;

verus! {

/// Why a dispatched call, or a whole block, was rejected. Every variant is
/// an expected domain outcome, never a programming fault.
#[derive(Clone, Copy, Debug, PartialEq, Eq, Structural)]
pub enum DispatchError {
    /// A transfer would pull the sender below zero.
    InsufficientFunds,
    /// A transfer would push the receiver over the amount ceiling.
    BalanceOverflow,
    /// The claimed content already has an owner.
    ClaimAlreadyExists,
    /// The content to revoke was never claimed.
    ClaimNotFound,
    /// Only the recorded owner may revoke a claim.
    NotClaimOwner,
    /// The block header did not assert the expected block number.
    BlockNumberMismatch,
}

/// The outcome of dispatching one call.
pub type DispatchResult = Result<(), DispatchError>;

/// The most primitive representation of a block: a header asserting the
/// expected block number, and the ordered extrinsics to execute in it.
pub struct Block<Header, Extrinsic> {
    /// Metadata about the block.
    pub header: Header,
    /// The state transitions to execute in this block, in order.
    pub extrinsics: Vec<Extrinsic>,
}

/// A simplified block header carrying only the block number it asserts.
pub struct Header<BlockNumber> {
    pub block_number: BlockNumber,
}

/// An externally submitted instruction: who makes the call, and which call.
pub struct Extrinsic<Caller, Call> {
    pub caller: Caller,
    pub call: Call,
}

/// A diagnostic recorded when an extrinsic's dispatch fails: in which block
/// and at which position it stood, and why it was rejected. Such a failure
/// is local to the extrinsic and never aborts its block.
#[derive(Clone, Copy, Debug, PartialEq, Eq, Structural)]
pub struct ExtrinsicFailure<BlockNumber> {
    pub block_number: BlockNumber,
    pub extrinsic_index: usize,
    pub error: DispatchError,
}

/// The uniform dispatch protocol: each module routes an incoming call, with
/// the identity of its caller, to the operation that executes it. The
/// runtime aggregator implements the same protocol over the union of its
/// modules' call types.
pub trait Dispatch {
    /// The type identifying the caller of an operation.
    type Caller;

    /// The calls this dispatcher routes.
    type Call;

    /// Execute `call` on behalf of `caller`.
    fn dispatch(&mut self, caller: Self::Caller, call: Self::Call) -> DispatchResult;
}

} // verus!
