//! Events. Every successful mutating operation returns one; it is the
//! durable audit record and mirrors the committed post-state exactly.

use vstd::prelude::*;

use crate::pubkey::{opt_key_view, Pubkey};
use crate::state::escrow::{Recipient, RecipientV};
use crate::state::multi_wallet::{Member, MemberV};

verus! {

/// Snapshot of the wallet configuration after a creation or a
/// configuration change.
pub struct ConfigEvent {
    pub create_key: Pubkey,
    pub members: Vec<Member>,
    pub threshold: u8,
    pub metadata: Option<Pubkey>,
}

/// Snapshot of an escrow transition: the escrow's identity, whether it is
/// still pending and whether it was rejected, the parties, the payment
/// leg, and the configuration it installs.
pub struct EscrowEvent {
    pub create_key: Pubkey,
    pub identifier: u64,
    pub is_pending: bool,
    pub is_rejected: bool,
    pub proposer: Option<Pubkey>,
    pub approver: Option<Pubkey>,
    pub recipient: Recipient,
    pub new_members: Option<Vec<Member>>,
    pub threshold: Option<u8>,
}

/// Abstract value of an [`EscrowEvent`].
pub struct EscrowEventV {
    pub create_key: Seq<u8>,
    pub identifier: u64,
    pub is_pending: bool,
    pub is_rejected: bool,
    pub proposer: Option<Seq<u8>>,
    pub approver: Option<Seq<u8>>,
    pub recipient: RecipientV,
    pub new_members: Option<Seq<MemberV>>,
    pub threshold: Option<u8>,
}

impl View for EscrowEvent {
    type V = EscrowEventV;

    open spec fn view(&self) -> EscrowEventV {
        EscrowEventV {
            create_key: self.create_key@,
            identifier: self.identifier,
            is_pending: self.is_pending,
            is_rejected: self.is_rejected,
            proposer: opt_key_view(self.proposer),
            approver: opt_key_view(self.approver),
            recipient: self.recipient@,
            new_members: match self.new_members {
                Some(ref v) => Some(v.deep_view()),
                None => None,
            },
            threshold: self.threshold,
        }
    }
}

} // verus!
