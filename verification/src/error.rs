//! Typed faults. Every operation rejects synchronously with one of these;
//! nothing is retried and no fault is downgraded.

use vstd::prelude::*;

verus! {

/// The faults an operation can report. Each is fatal and is raised before
/// any state mutation becomes visible to the caller.
#[derive(Clone, Copy, Debug, PartialEq, Eq, Structural)]
pub enum MultisigError {
    /// The leading instruction of the call is a durable-nonce advance,
    /// a replay-risk primitive that quorum-gated operations refuse.
    DurableNonceDetected,
    /// Two members of a member list share an address.
    DuplicateMember,
    /// A member list is empty.
    EmptyMembers,
    /// A member list holds more than 65,535 members.
    TooManyMembers,
    /// The threshold is zero or exceeds the number of members.
    InvalidThreshold,
    /// The threshold exceeds the fixed cap of 2.
    ThresholdTooHigh,
    /// The staged transaction message is malformed.
    InvalidTransactionMessage,
    /// Fewer signers with the voting capability than the threshold demands.
    NotEnoughSigners,
    /// The number of supplied accounts does not match what the message declares.
    InvalidNumberOfAccounts,
    /// A supplied account does not match the expected address or privileges.
    InvalidAccount,
    /// A required account is absent.
    MissingAccount,
    /// An account that must belong to this program is owned by another.
    IllegalAccountOwner,
    /// An outstanding escrow locks the wallet against this operation.
    MultisigIsCurrentlyLocked,
    /// The escrow is not among the wallet's pending offers.
    EscrowDoesNotExist,
    /// A single-owner wallet cannot trade control of itself.
    MissingOwner,
    /// The acting party does not match the escrow's recorded proposer.
    InvalidEscrowProposer,
    /// The supplied recipient does not match the escrow's recorded recipient.
    InvalidEscrowRecipient,
    /// No signer holds the execute capability the operation needs.
    InsufficientSignerWithExecutePermission,
    /// No signer holds the initiate capability the operation needs.
    InsufficientSignerWithInitiatePermission,
    /// Fewer members with the voting capability than the threshold demands.
    InsufficientSignersWithVotePermission,
    /// The caller may not accept this escrow offer.
    UnauthorisedToAcceptEscrowOffer,
    /// Only the creator of a transaction buffer may modify or close it.
    UnauthorisedToModifyBuffer,
    /// The sealed buffer's content hash differs from the declared final hash.
    FinalBufferHashMismatch,
    /// An append would push the buffer past its declared final size,
    /// or the declared final size exceeds the fixed maximum.
    FinalBufferSizeExceeded,
    /// The buffer's accumulated length differs from its declared final size.
    FinalBufferSizeMismatch,
}

} // verus!
