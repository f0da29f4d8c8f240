use vstd::prelude::*;

verus! {

/// The ways a single invocation of the transfer handler can fail. Every error
/// is terminal for the invocation: nothing is retried or recovered locally,
/// and the host runtime is expected to reject the enclosing transaction.
#[derive(Clone, Copy, Debug, PartialEq, Eq, Structural)]
pub enum TransferError {
    /// Fewer than three accounts were supplied with the instruction.
    MissingAccount,
    /// The payload is not the binary encoding of a transfer request.
    MalformedInstruction,
    /// The source account holds fewer lamports than the requested amount.
    InsufficientFunds,
    /// The host's native transfer primitive itself reported a failure.
    DelegatedTransferFailed,
}

} // verus!
