//! The escrow state machine: a pending wallet-control trade is opened by
//! one of two mirrored initiation roles, and closed by exactly one of
//! execute or cancel. Opening records the escrow among the wallet's
//! pending offers, which locks ordinary configuration and vault execution;
//! closing removes it (execute clears every offer, cancel only this one)
//! and plans the movement of the escrowed payment to the correct party.

use vstd::prelude::*;

use crate::error::MultisigError;
use crate::pubkey::{dup_opt_key, opt_key_view, Pubkey};
use crate::state::escrow::{
    dup_opt_members, dup_recipient, opt_plan_view, opt_token_view, spec_transfer_error,
    spec_transfer_plan, Escrow, EscrowV, Recipient, RecipientV, TokenAccountInfo,
    TokenAccountInfoV, TransferPlan,
};
use crate::state::events::{EscrowEvent, EscrowEventV};
use crate::state::multi_wallet::{
    count_key_with, count_members_with, count_members_with_key, count_with, dup_members, key_in,
    retain_offers, signer_members, spec_config_error, spec_is_durable_nonce, spec_valid_config,
    IntrospectedInstruction, Member, MultiWallet, MultiWalletV, Permission,
};

verus! {

/// Why opening an escrow as the owner is rejected, or `None` when it
/// succeeds: the replay-risk check first, then the single-owner guard,
/// then the full escrow-class quorum of the signers.
pub open spec fn spec_initiate_escrow_as_owner_error(
    wallet: MultiWalletV,
    signers: Seq<Seq<u8>>,
    ix: IntrospectedInstruction,
) -> Option<MultisigError> {
    let signed = signer_members(wallet.members, signers);
    if spec_is_durable_nonce(ix) {
        Some(MultisigError::DurableNonceDetected)
    } else if wallet.threshold <= 1 {
        Some(MultisigError::MissingOwner)
    } else if count_with(signed, Permission::InitiateEscrow) < 1 {
        Some(MultisigError::InsufficientSignerWithInitiatePermission)
    } else if wallet.threshold > count_with(signed, Permission::VoteEscrow) {
        Some(MultisigError::NotEnoughSigners)
    } else if count_with(signed, Permission::ExecuteEscrow) < 1 {
        Some(MultisigError::InsufficientSignerWithExecutePermission)
    } else {
        None
    }
}

/// Opens an escrow on behalf of the wallet's owners: the full escrow-class
/// quorum already approved at creation, and the escrow waits for the fixed
/// counterparty to claim it. A single-owner wallet cannot put itself up
/// for trade. The escrow's address joins the pending offers atomically
/// with its creation.
pub fn initiate_escrow_as_owner(
    wallet: &mut MultiWallet,
    escrow_address: &Pubkey,
    bump: u8,
    signer_keys: &Vec<Pubkey>,
    first_instruction: &IntrospectedInstruction,
    identifier: u64,
    recipient: Pubkey,
    amount: u64,
    mint: Option<Pubkey>,
) -> (r: Result<(Escrow, EscrowEvent), MultisigError>)
    ensures
        match r {
            Ok((escrow, event)) => {
                &&& spec_initiate_escrow_as_owner_error(
                    old(wallet)@,
                    signer_keys.deep_view(),
                    *first_instruction,
                ) is None
                &&& final(wallet)@.pending_offers == old(wallet)@.pending_offers.push(
                    escrow_address@,
                )
                &&& final(wallet)@.create_key == old(wallet)@.create_key
                &&& final(wallet)@.threshold == old(wallet)@.threshold
                &&& final(wallet)@.bump == old(wallet)@.bump
                &&& final(wallet)@.members == old(wallet)@.members
                &&& final(wallet)@.metadata == old(wallet)@.metadata
                &&& (old(wallet).spec_valid() ==> final(wallet).spec_valid())
                &&& escrow@ == (EscrowV {
                    create_key: old(wallet)@.create_key,
                    identifier,
                    bump,
                    proposer: None,
                    vault_bump: None,
                    recipient: RecipientV {
                        amount,
                        pubkey: Some(recipient@),
                        mint: opt_key_view(mint),
                    },
                    new_members: None,
                    threshold: None,
                })
                &&& escrow.spec_shape()
                &&& event@ == (EscrowEventV {
                    create_key: old(wallet)@.create_key,
                    identifier,
                    is_pending: true,
                    is_rejected: false,
                    proposer: None,
                    approver: None,
                    recipient: escrow@.recipient,
                    new_members: None,
                    threshold: None,
                })
            },
            Err(e) => {
                &&& *final(wallet) == *old(wallet)
                &&& Some(e) == spec_initiate_escrow_as_owner_error(
                    old(wallet)@,
                    signer_keys.deep_view(),
                    *first_instruction,
                )
            },
        },
{
    match MultiWallet::durable_nonce_check(first_instruction) {
        Ok(()) => {}
        Err(e) => {
            return Err(e);
        },
    }
    if wallet.threshold <= 1 {
        return Err(MultisigError::MissingOwner);
    }
    let signed = wallet.get_unique_signers(signer_keys);
    if count_members_with(&signed, Permission::InitiateEscrow) < 1 {
        return Err(MultisigError::InsufficientSignerWithInitiatePermission);
    }
    if (wallet.threshold as usize) > count_members_with(&signed, Permission::VoteEscrow) {
        return Err(MultisigError::NotEnoughSigners);
    }
    if count_members_with(&signed, Permission::ExecuteEscrow) < 1 {
        return Err(MultisigError::InsufficientSignerWithExecutePermission);
    }
    let escrow = Escrow {
        create_key: wallet.create_key.dup(),
        identifier,
        bump,
        proposer: None,
        vault_bump: None,
        recipient: Recipient { amount, pubkey: Some(recipient), mint },
        new_members: None,
        threshold: None,
    };
    wallet.add_offer(escrow_address.dup());
    let event = EscrowEvent {
        create_key: escrow.create_key.dup(),
        identifier: escrow.identifier,
        is_pending: true,
        is_rejected: false,
        proposer: None,
        approver: None,
        recipient: dup_recipient(&escrow.recipient),
        new_members: None,
        threshold: None,
    };
    Ok((escrow, event))
}

/// Why opening an escrow as an outside proposer is rejected, or `None`
/// when it succeeds: the acting member must hold the initiate-escrow
/// capability, a single-owner wallet cannot be traded, the offered
/// replacement configuration must satisfy the wallet invariant, and the
/// deposit must be plannable.
pub open spec fn spec_initiate_escrow_as_non_owner_error(
    wallet: MultiWalletV,
    member: Seq<u8>,
    new_members: Seq<crate::state::multi_wallet::MemberV>,
    new_threshold: u8,
    amount: u64,
    mint: Option<Seq<u8>>,
    from: Option<TokenAccountInfoV>,
    to: Option<TokenAccountInfoV>,
    proposer: Seq<u8>,
    escrow_vault: Seq<u8>,
    token_program: bool,
) -> Option<MultisigError> {
    if count_key_with(wallet.members, member, Permission::InitiateEscrow) != 1 {
        Some(MultisigError::InsufficientSignerWithInitiatePermission)
    } else if wallet.threshold <= 1 {
        Some(MultisigError::MissingOwner)
    } else if !spec_valid_config(new_threshold, new_members) {
        Some(spec_config_error(new_threshold, new_members))
    } else {
        spec_transfer_error(
            RecipientV { amount, pubkey: None, mint },
            mint,
            from,
            to,
            Some(proposer),
            Some(escrow_vault),
            token_program,
        )
    }
}

/// Opens an escrow as an outside proposer: the caller must be a member
/// holding the initiate-escrow capability, deposits `amount` (native or
/// token) into the escrow's own vault, and declares the replacement
/// members and threshold they offer to install. The escrow's address joins
/// the pending offers atomically with its creation.
pub fn initiate_escrow_as_non_owner(
    wallet: &mut MultiWallet,
    escrow_address: &Pubkey,
    bump: u8,
    vault_bump: u8,
    member: &Pubkey,
    proposer: &Pubkey,
    identifier: u64,
    new_members: Vec<Member>,
    amount: u64,
    threshold: u8,
    mint: Option<Pubkey>,
    proposer_token_account: &Option<TokenAccountInfo>,
    escrow_token_vault: &Option<TokenAccountInfo>,
    escrow_vault: &Pubkey,
    token_program: bool,
) -> (r: Result<(Escrow, Option<TransferPlan>, EscrowEvent), MultisigError>)
    ensures
        match r {
            Ok((escrow, plan, event)) => {
                &&& spec_initiate_escrow_as_non_owner_error(
                    old(wallet)@,
                    member@,
                    new_members.deep_view(),
                    threshold,
                    amount,
                    opt_key_view(mint),
                    opt_token_view(*proposer_token_account),
                    opt_token_view(*escrow_token_vault),
                    proposer@,
                    escrow_vault@,
                    token_program,
                ) is None
                &&& final(wallet)@.pending_offers == old(wallet)@.pending_offers.push(
                    escrow_address@,
                )
                &&& final(wallet)@.create_key == old(wallet)@.create_key
                &&& final(wallet)@.threshold == old(wallet)@.threshold
                &&& final(wallet)@.bump == old(wallet)@.bump
                &&& final(wallet)@.members == old(wallet)@.members
                &&& final(wallet)@.metadata == old(wallet)@.metadata
                &&& (old(wallet).spec_valid() ==> final(wallet).spec_valid())
                &&& escrow@ == (EscrowV {
                    create_key: old(wallet)@.create_key,
                    identifier,
                    bump,
                    proposer: Some(proposer@),
                    vault_bump: Some(vault_bump),
                    recipient: RecipientV { amount, pubkey: None, mint: opt_key_view(mint) },
                    new_members: Some(new_members.deep_view()),
                    threshold: Some(threshold),
                })
                &&& escrow.spec_shape()
                &&& opt_plan_view(plan) == spec_transfer_plan(
                    escrow@.recipient,
                    opt_token_view(*proposer_token_account),
                    opt_token_view(*escrow_token_vault),
                    Some(proposer@),
                    Some(escrow_vault@),
                    false,
                )
                &&& event@ == (EscrowEventV {
                    create_key: old(wallet)@.create_key,
                    identifier,
                    is_pending: true,
                    is_rejected: false,
                    proposer: Some(proposer@),
                    approver: None,
                    recipient: escrow@.recipient,
                    new_members: Some(new_members.deep_view()),
                    threshold: Some(threshold),
                })
            },
            Err(e) => {
                &&& *final(wallet) == *old(wallet)
                &&& Some(e) == spec_initiate_escrow_as_non_owner_error(
                    old(wallet)@,
                    member@,
                    new_members.deep_view(),
                    threshold,
                    amount,
                    opt_key_view(mint),
                    opt_token_view(*proposer_token_account),
                    opt_token_view(*escrow_token_vault),
                    proposer@,
                    escrow_vault@,
                    token_program,
                )
            },
        },
{
    if count_members_with_key(&wallet.members, member, Permission::InitiateEscrow) != 1 {
        return Err(MultisigError::InsufficientSignerWithInitiatePermission);
    }
    if wallet.threshold <= 1 {
        return Err(MultisigError::MissingOwner);
    }
    match MultiWallet::check_state_validity(&threshold, &new_members) {
        Ok(()) => {}
        Err(e) => {
            return Err(e);
        },
    }
    let escrow = Escrow {
        create_key: wallet.create_key.dup(),
        identifier,
        bump,
        proposer: Some(proposer.dup()),
        vault_bump: Some(vault_bump),
        recipient: Recipient { amount, pubkey: None, mint: dup_opt_key(&mint) },
        new_members: Some(new_members),
        threshold: Some(threshold),
    };
    let plan = match escrow.escrow_transfer(
        &mint,
        proposer_token_account,
        escrow_token_vault,
        &Some(proposer.dup()),
        &Some(escrow_vault.dup()),
        &None,
        proposer,
        token_program,
    ) {
        Ok(p) => p,
        Err(e) => {
            return Err(e);
        },
    };
    wallet.add_offer(escrow_address.dup());
    let event = EscrowEvent {
        create_key: escrow.create_key.dup(),
        identifier: escrow.identifier,
        is_pending: true,
        is_rejected: false,
        proposer: dup_opt_key(&escrow.proposer),
        approver: None,
        recipient: dup_recipient(&escrow.recipient),
        new_members: dup_opt_members(&escrow.new_members),
        threshold: escrow.threshold,
    };
    Ok((escrow, plan, event))
}

/// Why accepting an escrow as the owners is rejected, or `None` when it
/// succeeds: the replay-risk check and the escrow-class quorum first, then
/// the escrow must be an outstanding, non-owner-initiated offer, its
/// deposit must be plannable, and the offered configuration must satisfy
/// the wallet invariant.
pub open spec fn spec_execute_escrow_as_owner_error(
    wallet: MultiWalletV,
    escrow: EscrowV,
    escrow_address: Seq<u8>,
    signers: Seq<Seq<u8>>,
    ix: IntrospectedInstruction,
    mint: Option<Seq<u8>>,
    from: Option<TokenAccountInfoV>,
    to: Option<TokenAccountInfoV>,
    escrow_vault: Seq<u8>,
    recipient_key: Seq<u8>,
    token_program: bool,
) -> Option<MultisigError> {
    let signed = signer_members(wallet.members, signers);
    if spec_is_durable_nonce(ix) {
        Some(MultisigError::DurableNonceDetected)
    } else if wallet.threshold > count_with(signed, Permission::VoteEscrow) {
        Some(MultisigError::NotEnoughSigners)
    } else if count_with(signed, Permission::ExecuteEscrow) < 1 {
        Some(MultisigError::InsufficientSignerWithExecutePermission)
    } else if !key_in(wallet.pending_offers, escrow_address) {
        Some(MultisigError::EscrowDoesNotExist)
    } else if escrow.proposer is None {
        Some(MultisigError::UnauthorisedToAcceptEscrowOffer)
    } else {
        match spec_transfer_error(
            escrow.recipient,
            mint,
            from,
            to,
            Some(escrow_vault),
            Some(recipient_key),
            token_program,
        ) {
            Some(e) => Some(e),
            None => if !spec_valid_config(escrow.threshold->Some_0, escrow.new_members->Some_0) {
                Some(spec_config_error(escrow.threshold->Some_0, escrow.new_members->Some_0))
            } else {
                None
            },
        }
    }
}

/// Accepts a non-owner-initiated escrow on behalf of the wallet's owners:
/// the escrowed deposit moves from the escrow's vault to the accepting
/// party, the proposer's replacement members and threshold are installed
/// and re-validated, and every pending offer is cleared — accepting any
/// offer invalidates all others.
pub fn execute_escrow_as_owner(
    wallet: &mut MultiWallet,
    escrow: &Escrow,
    escrow_address: &Pubkey,
    signer_keys: &Vec<Pubkey>,
    first_instruction: &IntrospectedInstruction,
    recipient_account: &Pubkey,
    mint: &Option<Pubkey>,
    escrow_token_vault: &Option<TokenAccountInfo>,
    recipient_token_account: &Option<TokenAccountInfo>,
    escrow_vault: &Pubkey,
    token_program: bool,
) -> (r: Result<(Option<TransferPlan>, EscrowEvent), MultisigError>)
    requires
        escrow.spec_shape(),
    ensures
        match r {
            Ok((plan, event)) => {
                &&& spec_execute_escrow_as_owner_error(
                    old(wallet)@,
                    escrow@,
                    escrow_address@,
                    signer_keys.deep_view(),
                    *first_instruction,
                    opt_key_view(*mint),
                    opt_token_view(*escrow_token_vault),
                    opt_token_view(*recipient_token_account),
                    escrow_vault@,
                    recipient_account@,
                    token_program,
                ) is None
                &&& final(wallet)@.members == escrow@.new_members->Some_0
                &&& final(wallet)@.threshold == escrow@.threshold->Some_0
                &&& final(wallet)@.pending_offers.len() == 0
                &&& final(wallet)@.create_key == old(wallet)@.create_key
                &&& final(wallet)@.bump == old(wallet)@.bump
                &&& final(wallet)@.metadata == old(wallet)@.metadata
                &&& final(wallet).spec_valid()
                &&& opt_plan_view(plan) == spec_transfer_plan(
                    escrow@.recipient,
                    opt_token_view(*escrow_token_vault),
                    opt_token_view(*recipient_token_account),
                    Some(escrow_vault@),
                    Some(recipient_account@),
                    true,
                )
                &&& event@ == (EscrowEventV {
                    create_key: old(wallet)@.create_key,
                    identifier: escrow@.identifier,
                    is_pending: false,
                    is_rejected: false,
                    proposer: escrow@.proposer,
                    approver: Some(recipient_account@),
                    recipient: RecipientV {
                        amount: escrow@.recipient.amount,
                        pubkey: Some(recipient_account@),
                        mint: escrow@.recipient.mint,
                    },
                    new_members: escrow@.new_members,
                    threshold: escrow@.threshold,
                })
            },
            Err(e) => {
                &&& *final(wallet) == *old(wallet)
                &&& Some(e) == spec_execute_escrow_as_owner_error(
                    old(wallet)@,
                    escrow@,
                    escrow_address@,
                    signer_keys.deep_view(),
                    *first_instruction,
                    opt_key_view(*mint),
                    opt_token_view(*escrow_token_vault),
                    opt_token_view(*recipient_token_account),
                    escrow_vault@,
                    recipient_account@,
                    token_program,
                )
            },
        },
{
    match MultiWallet::durable_nonce_check(first_instruction) {
        Ok(()) => {}
        Err(e) => {
            return Err(e);
        },
    }
    let signed = wallet.get_unique_signers(signer_keys);
    if (wallet.threshold as usize) > count_members_with(&signed, Permission::VoteEscrow) {
        return Err(MultisigError::NotEnoughSigners);
    }
    if count_members_with(&signed, Permission::ExecuteEscrow) < 1 {
        return Err(MultisigError::InsufficientSignerWithExecutePermission);
    }
    if !crate::state::multi_wallet::contains_key(&wallet.pending_offers, escrow_address) {
        return Err(MultisigError::EscrowDoesNotExist);
    }
    if escrow.proposer.is_none() {
        return Err(MultisigError::UnauthorisedToAcceptEscrowOffer);
    }
    let plan = match escrow.escrow_transfer(
        mint,
        escrow_token_vault,
        recipient_token_account,
        &Some(escrow_vault.dup()),
        &Some(recipient_account.dup()),
        &Some(escrow_vault.dup()),
        recipient_account,
        token_program,
    ) {
        Ok(p) => p,
        Err(e) => {
            return Err(e);
        },
    };
    let new_members = match &escrow.new_members {
        Some(v) => dup_members(v),
        None => {
            // A proposer-initiated escrow always carries its offered members.
            assert(false);
            Vec::new()
        },
    };
    let new_threshold = match escrow.threshold {
        Some(t) => t,
        None => {
            // A proposer-initiated escrow always carries its offered threshold.
            assert(false);
            0
        },
    };
    match MultiWallet::check_state_validity(&new_threshold, &new_members) {
        Ok(()) => {}
        Err(e) => {
            return Err(e);
        },
    }
    wallet.set_members(new_members);
    wallet.set_threshold(new_threshold);
    wallet.clear_pending_offers();
    let event = EscrowEvent {
        create_key: wallet.create_key.dup(),
        identifier: escrow.identifier,
        is_pending: false,
        is_rejected: false,
        proposer: dup_opt_key(&escrow.proposer),
        approver: Some(recipient_account.dup()),
        recipient: Recipient {
            amount: escrow.recipient.amount,
            pubkey: Some(recipient_account.dup()),
            mint: dup_opt_key(&escrow.recipient.mint),
        },
        new_members: dup_opt_members(&escrow.new_members),
        threshold: escrow.threshold,
    };
    Ok((plan, event))
}

/// Why claiming an escrow as the fixed counterparty is rejected, or `None`
/// when it succeeds: the escrow must be an outstanding, owner-initiated
/// offer, the supplied recipient must be its recorded one, the payment
/// must be plannable, and the caller's replacement configuration must
/// satisfy the wallet invariant.
pub open spec fn spec_execute_escrow_as_non_owner_error(
    wallet: MultiWalletV,
    escrow: EscrowV,
    escrow_address: Seq<u8>,
    recipient_key: Seq<u8>,
    new_members: Seq<crate::state::multi_wallet::MemberV>,
    new_threshold: u8,
    mint: Option<Seq<u8>>,
    from: Option<TokenAccountInfoV>,
    to: Option<TokenAccountInfoV>,
    payer: Seq<u8>,
    token_program: bool,
) -> Option<MultisigError> {
    if !key_in(wallet.pending_offers, escrow_address) {
        Some(MultisigError::EscrowDoesNotExist)
    } else if escrow.proposer is Some {
        Some(MultisigError::UnauthorisedToAcceptEscrowOffer)
    } else if !(escrow.recipient.pubkey is Some && recipient_key == escrow.recipient.pubkey->Some_0) {
        Some(MultisigError::InvalidEscrowRecipient)
    } else {
        match spec_transfer_error(
            escrow.recipient,
            mint,
            from,
            to,
            Some(payer),
            Some(recipient_key),
            token_program,
        ) {
            Some(e) => Some(e),
            None => if !spec_valid_config(new_threshold, new_members) {
                Some(spec_config_error(new_threshold, new_members))
            } else {
                None
            },
        }
    }
}

/// Claims an owner-initiated escrow: the caller pays the declared amount
/// directly to the escrow's recorded recipient, installs the members and
/// threshold they supply (the owner-initiated path does not pre-declare
/// them), which are re-validated, and every pending offer is cleared.
pub fn execute_escrow_as_non_owner(
    wallet: &mut MultiWallet,
    escrow: &Escrow,
    escrow_address: &Pubkey,
    payer: &Pubkey,
    recipient_account: &Pubkey,
    new_members: Vec<Member>,
    threshold: u8,
    mint: &Option<Pubkey>,
    payer_token_account: &Option<TokenAccountInfo>,
    recipient_token_account: &Option<TokenAccountInfo>,
    token_program: bool,
) -> (r: Result<(Option<TransferPlan>, EscrowEvent), MultisigError>)
    ensures
        match r {
            Ok((plan, event)) => {
                &&& spec_execute_escrow_as_non_owner_error(
                    old(wallet)@,
                    escrow@,
                    escrow_address@,
                    recipient_account@,
                    new_members.deep_view(),
                    threshold,
                    opt_key_view(*mint),
                    opt_token_view(*payer_token_account),
                    opt_token_view(*recipient_token_account),
                    payer@,
                    token_program,
                ) is None
                &&& final(wallet)@.members == new_members.deep_view()
                &&& final(wallet)@.threshold == threshold
                &&& final(wallet)@.pending_offers.len() == 0
                &&& final(wallet)@.create_key == old(wallet)@.create_key
                &&& final(wallet)@.bump == old(wallet)@.bump
                &&& final(wallet)@.metadata == old(wallet)@.metadata
                &&& final(wallet).spec_valid()
                &&& opt_plan_view(plan) == spec_transfer_plan(
                    escrow@.recipient,
                    opt_token_view(*payer_token_account),
                    opt_token_view(*recipient_token_account),
                    Some(payer@),
                    Some(recipient_account@),
                    false,
                )
                &&& event@ == (EscrowEventV {
                    create_key: old(wallet)@.create_key,
                    identifier: escrow@.identifier,
                    is_pending: false,
                    is_rejected: false,
                    proposer: escrow@.proposer,
                    approver: Some(payer@),
                    recipient: escrow@.recipient,
                    new_members: Some(new_members.deep_view()),
                    threshold: Some(threshold),
                })
            },
            Err(e) => {
                &&& *final(wallet) == *old(wallet)
                &&& Some(e) == spec_execute_escrow_as_non_owner_error(
                    old(wallet)@,
                    escrow@,
                    escrow_address@,
                    recipient_account@,
                    new_members.deep_view(),
                    threshold,
                    opt_key_view(*mint),
                    opt_token_view(*payer_token_account),
                    opt_token_view(*recipient_token_account),
                    payer@,
                    token_program,
                )
            },
        },
{
    if !crate::state::multi_wallet::contains_key(&wallet.pending_offers, escrow_address) {
        return Err(MultisigError::EscrowDoesNotExist);
    }
    if escrow.proposer.is_some() {
        return Err(MultisigError::UnauthorisedToAcceptEscrowOffer);
    }
    let recipient_matches = match &escrow.recipient.pubkey {
        Some(k) => recipient_account.eq_key(k),
        None => false,
    };
    if !recipient_matches {
        return Err(MultisigError::InvalidEscrowRecipient);
    }
    let plan = match escrow.escrow_transfer(
        mint,
        payer_token_account,
        recipient_token_account,
        &Some(payer.dup()),
        &Some(recipient_account.dup()),
        &None,
        payer,
        token_program,
    ) {
        Ok(p) => p,
        Err(e) => {
            return Err(e);
        },
    };
    match MultiWallet::check_state_validity(&threshold, &new_members) {
        Ok(()) => {}
        Err(e) => {
            return Err(e);
        },
    }
    let event_members = dup_members(&new_members);
    wallet.set_members(new_members);
    wallet.set_threshold(threshold);
    wallet.clear_pending_offers();
    let event = EscrowEvent {
        create_key: wallet.create_key.dup(),
        identifier: escrow.identifier,
        is_pending: false,
        is_rejected: false,
        proposer: dup_opt_key(&escrow.proposer),
        approver: Some(payer.dup()),
        recipient: dup_recipient(&escrow.recipient),
        new_members: Some(event_members),
        threshold: Some(threshold),
    };
    Ok((plan, event))
}

/// Why cancelling an escrow as the owners is rejected, or `None` when it
/// succeeds: the replay-risk check and the escrow-class voting and
/// execute quorum first; a non-owner-initiated escrow additionally needs
/// the recorded proposer as refund target, and its refund must be
/// plannable.
pub open spec fn spec_cancel_escrow_as_owner_error(
    wallet: MultiWalletV,
    escrow: EscrowV,
    signers: Seq<Seq<u8>>,
    ix: IntrospectedInstruction,
    proposer_key: Seq<u8>,
    mint: Option<Seq<u8>>,
    from: Option<TokenAccountInfoV>,
    to: Option<TokenAccountInfoV>,
    escrow_vault: Option<Seq<u8>>,
    token_program: bool,
) -> Option<MultisigError> {
    let signed = signer_members(wallet.members, signers);
    if spec_is_durable_nonce(ix) {
        Some(MultisigError::DurableNonceDetected)
    } else if wallet.threshold > count_with(signed, Permission::VoteEscrow) {
        Some(MultisigError::NotEnoughSigners)
    } else if count_with(signed, Permission::ExecuteEscrow) < 1 {
        Some(MultisigError::InsufficientSignerWithExecutePermission)
    } else {
        match escrow.proposer {
            Some(p) => if p != proposer_key {
                Some(MultisigError::InvalidEscrowProposer)
            } else {
                spec_transfer_error(
                    escrow.recipient,
                    mint,
                    from,
                    to,
                    escrow_vault,
                    Some(proposer_key),
                    token_program,
                )
            },
            None => None,
        }
    }
}

/// Cancels an escrow on behalf of the wallet's owners, before it is
/// executed: a deposit held for a non-owner proposer is refunded to that
/// proposer, only this escrow leaves the pending offers, and the
/// membership is unchanged.
pub fn cancel_escrow_as_owner(
    wallet: &mut MultiWallet,
    escrow: &Escrow,
    escrow_address: &Pubkey,
    signer_keys: &Vec<Pubkey>,
    first_instruction: &IntrospectedInstruction,
    proposer_account: &Pubkey,
    mint: &Option<Pubkey>,
    escrow_token_vault: &Option<TokenAccountInfo>,
    proposer_token_account: &Option<TokenAccountInfo>,
    escrow_vault: &Option<Pubkey>,
    token_program: bool,
) -> (r: Result<(Option<TransferPlan>, EscrowEvent), MultisigError>)
    ensures
        match r {
            Ok((plan, event)) => {
                &&& spec_cancel_escrow_as_owner_error(
                    old(wallet)@,
                    escrow@,
                    signer_keys.deep_view(),
                    *first_instruction,
                    proposer_account@,
                    opt_key_view(*mint),
                    opt_token_view(*escrow_token_vault),
                    opt_token_view(*proposer_token_account),
                    opt_key_view(*escrow_vault),
                    token_program,
                ) is None
                &&& final(wallet)@.pending_offers == retain_offers(
                    old(wallet)@.pending_offers,
                    escrow_address@,
                )
                &&& final(wallet)@.create_key == old(wallet)@.create_key
                &&& final(wallet)@.threshold == old(wallet)@.threshold
                &&& final(wallet)@.bump == old(wallet)@.bump
                &&& final(wallet)@.members == old(wallet)@.members
                &&& final(wallet)@.metadata == old(wallet)@.metadata
                &&& (old(wallet).spec_valid() ==> final(wallet).spec_valid())
                &&& (match escrow@.proposer {
                    Some(_) => opt_plan_view(plan) == spec_transfer_plan(
                        escrow@.recipient,
                        opt_token_view(*escrow_token_vault),
                        opt_token_view(*proposer_token_account),
                        opt_key_view(*escrow_vault),
                        Some(proposer_account@),
                        escrow_vault is Some,
                    ),
                    None => plan is None,
                })
                &&& event@ == (EscrowEventV {
                    create_key: escrow@.create_key,
                    identifier: escrow@.identifier,
                    is_pending: false,
                    is_rejected: escrow@.proposer is Some,
                    proposer: escrow@.proposer,
                    approver: None,
                    recipient: escrow@.recipient,
                    new_members: escrow@.new_members,
                    threshold: escrow@.threshold,
                })
            },
            Err(e) => {
                &&& *final(wallet) == *old(wallet)
                &&& Some(e) == spec_cancel_escrow_as_owner_error(
                    old(wallet)@,
                    escrow@,
                    signer_keys.deep_view(),
                    *first_instruction,
                    proposer_account@,
                    opt_key_view(*mint),
                    opt_token_view(*escrow_token_vault),
                    opt_token_view(*proposer_token_account),
                    opt_key_view(*escrow_vault),
                    token_program,
                )
            },
        },
{
    match MultiWallet::durable_nonce_check(first_instruction) {
        Ok(()) => {}
        Err(e) => {
            return Err(e);
        },
    }
    let signed = wallet.get_unique_signers(signer_keys);
    if (wallet.threshold as usize) > count_members_with(&signed, Permission::VoteEscrow) {
        return Err(MultisigError::NotEnoughSigners);
    }
    if count_members_with(&signed, Permission::ExecuteEscrow) < 1 {
        return Err(MultisigError::InsufficientSignerWithExecutePermission);
    }
    let plan = match &escrow.proposer {
        Some(recorded) => {
            if !recorded.eq_key(proposer_account) {
                return Err(MultisigError::InvalidEscrowProposer);
            }
            match escrow.escrow_transfer(
                mint,
                escrow_token_vault,
                proposer_token_account,
                escrow_vault,
                &Some(proposer_account.dup()),
                escrow_vault,
                proposer_account,
                token_program,
            ) {
                Ok(p) => p,
                Err(e) => {
                    return Err(e);
                },
            }
        },
        None => None,
    };
    wallet.remove_offer(escrow_address.dup());
    let event = EscrowEvent {
        create_key: escrow.create_key.dup(),
        identifier: escrow.identifier,
        is_pending: false,
        is_rejected: escrow.proposer.is_some(),
        proposer: dup_opt_key(&escrow.proposer),
        approver: None,
        recipient: dup_recipient(&escrow.recipient),
        new_members: dup_opt_members(&escrow.new_members),
        threshold: escrow.threshold,
    };
    Ok((plan, event))
}

/// Why cancelling an escrow as its proposer is rejected, or `None` when it
/// succeeds: only the recorded proposer of a non-owner-initiated escrow
/// may cancel it, and the refund must be plannable.
pub open spec fn spec_cancel_escrow_as_non_owner_error(
    escrow: EscrowV,
    proposer_key: Seq<u8>,
    mint: Option<Seq<u8>>,
    from: Option<TokenAccountInfoV>,
    to: Option<TokenAccountInfoV>,
    escrow_vault: Seq<u8>,
    token_program: bool,
) -> Option<MultisigError> {
    if escrow.proposer is None {
        Some(MultisigError::UnauthorisedToAcceptEscrowOffer)
    } else if escrow.proposer->Some_0 != proposer_key {
        Some(MultisigError::InvalidEscrowProposer)
    } else {
        spec_transfer_error(
            escrow.recipient,
            mint,
            from,
            to,
            Some(escrow_vault),
            Some(proposer_key),
            token_program,
        )
    }
}

/// Cancels an escrow as its proposer, before it is executed: the deposit
/// returns from the escrow's vault to the proposer, only this escrow
/// leaves the pending offers, and the membership is unchanged.
pub fn cancel_escrow_as_non_owner(
    wallet: &mut MultiWallet,
    escrow: &Escrow,
    escrow_address: &Pubkey,
    proposer: &Pubkey,
    mint: &Option<Pubkey>,
    escrow_token_vault: &Option<TokenAccountInfo>,
    proposer_token_account: &Option<TokenAccountInfo>,
    escrow_vault: &Pubkey,
    token_program: bool,
) -> (r: Result<(Option<TransferPlan>, EscrowEvent), MultisigError>)
    ensures
        match r {
            Ok((plan, event)) => {
                &&& spec_cancel_escrow_as_non_owner_error(
                    escrow@,
                    proposer@,
                    opt_key_view(*mint),
                    opt_token_view(*escrow_token_vault),
                    opt_token_view(*proposer_token_account),
                    escrow_vault@,
                    token_program,
                ) is None
                &&& final(wallet)@.pending_offers == retain_offers(
                    old(wallet)@.pending_offers,
                    escrow_address@,
                )
                &&& final(wallet)@.create_key == old(wallet)@.create_key
                &&& final(wallet)@.threshold == old(wallet)@.threshold
                &&& final(wallet)@.bump == old(wallet)@.bump
                &&& final(wallet)@.members == old(wallet)@.members
                &&& final(wallet)@.metadata == old(wallet)@.metadata
                &&& (old(wallet).spec_valid() ==> final(wallet).spec_valid())
                &&& opt_plan_view(plan) == spec_transfer_plan(
                    escrow@.recipient,
                    opt_token_view(*escrow_token_vault),
                    opt_token_view(*proposer_token_account),
                    Some(escrow_vault@),
                    Some(proposer@),
                    true,
                )
                &&& event@ == (EscrowEventV {
                    create_key: escrow@.create_key,
                    identifier: escrow@.identifier,
                    is_pending: false,
                    is_rejected: false,
                    proposer: escrow@.proposer,
                    approver: None,
                    recipient: escrow@.recipient,
                    new_members: escrow@.new_members,
                    threshold: escrow@.threshold,
                })
            },
            Err(e) => {
                &&& *final(wallet) == *old(wallet)
                &&& Some(e) == spec_cancel_escrow_as_non_owner_error(
                    escrow@,
                    proposer@,
                    opt_key_view(*mint),
                    opt_token_view(*escrow_token_vault),
                    opt_token_view(*proposer_token_account),
                    escrow_vault@,
                    token_program,
                )
            },
        },
{
    let recorded = match &escrow.proposer {
        Some(p) => p,
        None => {
            return Err(MultisigError::UnauthorisedToAcceptEscrowOffer);
        },
    };
    if !recorded.eq_key(proposer) {
        return Err(MultisigError::InvalidEscrowProposer);
    }
    let plan = match escrow.escrow_transfer(
        mint,
        escrow_token_vault,
        proposer_token_account,
        &Some(escrow_vault.dup()),
        &Some(proposer.dup()),
        &Some(escrow_vault.dup()),
        proposer,
        token_program,
    ) {
        Ok(p) => p,
        Err(e) => {
            return Err(e);
        },
    };
    wallet.remove_offer(escrow_address.dup());
    let event = EscrowEvent {
        create_key: escrow.create_key.dup(),
        identifier: escrow.identifier,
        is_pending: false,
        is_rejected: false,
        proposer: dup_opt_key(&escrow.proposer),
        approver: None,
        recipient: dup_recipient(&escrow.recipient),
        new_members: dup_opt_members(&escrow.new_members),
        threshold: escrow.threshold,
    };
    Ok((plan, event))
}

} // verus!
