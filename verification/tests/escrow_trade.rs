//! The escrow state machine: the two initiation roles, the two terminal
//! executes, the two cancels, the mutual-exclusion lock, and the payment
//! plans that conserve the escrowed funds.

use multi_wallet::{
    cancel_escrow_as_non_owner, cancel_escrow_as_owner, change_config,
    execute_escrow_as_non_owner, execute_escrow_as_owner, initiate_escrow_as_non_owner,
    initiate_escrow_as_owner, ConfigAction, Escrow, IntrospectedInstruction, Member, MultiWallet,
    MultisigError, Permissions, Pubkey, Recipient, TokenAccountInfo, TransferPlan,
};

fn key(tag: u8) -> Pubkey {
    let mut bytes = vec![0u8; 32];
    bytes[31] = tag;
    Pubkey::new(bytes)
}

fn member(tag: u8, mask: u8) -> Member {
    Member { pubkey: key(tag), permissions: Some(Permissions { mask }) }
}

fn two_owner_wallet() -> MultiWallet {
    MultiWallet {
        create_key: key(1),
        threshold: 2,
        bump: 254,
        members: vec![member(1, 0x3f), member(2, 0x3f)],
        pending_offers: Vec::new(),
        metadata: None,
    }
}

fn benign_instruction() -> IntrospectedInstruction {
    IntrospectedInstruction { program_id: key(99), data: vec![1] }
}

const ESCROW_ADDR: u8 = 40;
const ESCROW_VAULT: u8 = 41;

#[test]
fn single_owner_wallet_cannot_trade_itself() {
    // Scenario: a wallet with one member and threshold 1 cannot open an
    // owner escrow.
    let mut w = MultiWallet {
        create_key: key(1),
        threshold: 1,
        bump: 254,
        members: vec![member(1, 0x3f)],
        pending_offers: Vec::new(),
        metadata: None,
    };
    let r = initiate_escrow_as_owner(
        &mut w,
        &key(ESCROW_ADDR),
        200,
        &vec![key(1)],
        &benign_instruction(),
        7,
        key(30),
        100,
        None,
    );
    assert_eq!(r.err().unwrap(), MultisigError::MissingOwner);
    assert_eq!(w.pending_offers.len(), 0);
}

#[test]
fn owner_initiated_trade_executed_by_counterparty() {
    // Scenario: the owners open an escrow for 100 native units; the fixed
    // counterparty claims it, pays the recipient, and installs a new
    // 3-member configuration with threshold 2.
    let mut w = two_owner_wallet();
    let ix = benign_instruction();
    let recipient = key(30);
    let (escrow, event) = initiate_escrow_as_owner(
        &mut w,
        &key(ESCROW_ADDR),
        200,
        &vec![key(1), key(2)],
        &ix,
        7,
        key(30),
        100,
        None,
    )
    .unwrap();
    assert!(event.is_pending);
    assert!(!event.is_rejected);
    assert!(escrow.proposer.is_none());
    assert_eq!(escrow.recipient.amount, 100);
    assert_eq!(escrow.recipient.pubkey.as_ref().unwrap().bytes, key(30).bytes);
    assert_eq!(w.pending_offers.len(), 1);
    assert_eq!(w.pending_offers[0].bytes, key(ESCROW_ADDR).bytes);

    // While the offer is outstanding, configuration changes are locked out.
    let r = change_config(
        &mut w,
        vec![ConfigAction::SetThreshold(2)],
        &vec![key(1), key(2)],
        &ix,
    );
    assert_eq!(r.err().unwrap(), MultisigError::MultisigIsCurrentlyLocked);

    // The counterparty executes with a fresh 3-member configuration.
    let payer = key(31);
    let new_members = vec![member(10, 0x3f), member(11, 0x3f), member(12, 0x3f)];
    let (plan, event) = execute_escrow_as_non_owner(
        &mut w,
        &escrow,
        &key(ESCROW_ADDR),
        &payer,
        &recipient,
        new_members,
        2,
        &None,
        &None,
        &None,
        false,
    )
    .unwrap();
    match plan.unwrap() {
        TransferPlan::Native { from, to, amount, vault_authority } => {
            assert_eq!(from.bytes, key(31).bytes);
            assert_eq!(to.bytes, key(30).bytes);
            assert_eq!(amount, 100);
            assert!(!vault_authority);
        },
        TransferPlan::Token { .. } => panic!("native plan expected"),
    }
    assert_eq!(w.members.len(), 3);
    assert_eq!(w.threshold, 2);
    assert_eq!(w.pending_offers.len(), 0);
    assert!(!event.is_pending);
    assert_eq!(event.approver.as_ref().unwrap().bytes, key(31).bytes);
    assert_eq!(event.new_members.as_ref().unwrap().len(), 3);
    assert_eq!(event.threshold, Some(2));

    // With no offer outstanding the wallet is unlocked again.
    let r = change_config(
        &mut w,
        vec![ConfigAction::SetThreshold(2)],
        &vec![key(10), key(11)],
        &ix,
    );
    assert!(r.is_ok());
}

#[test]
fn owner_escrow_rejects_durable_nonce_lead() {
    let mut w = two_owner_wallet();
    let nonce_ix = IntrospectedInstruction {
        program_id: Pubkey::new(vec![0u8; 32]),
        data: vec![4],
    };
    let r = initiate_escrow_as_owner(
        &mut w,
        &key(ESCROW_ADDR),
        200,
        &vec![key(1), key(2)],
        &nonce_ix,
        7,
        key(30),
        100,
        None,
    );
    assert_eq!(r.err().unwrap(), MultisigError::DurableNonceDetected);

    // A system-program instruction with another discriminant is fine.
    let other_ix = IntrospectedInstruction {
        program_id: Pubkey::new(vec![0u8; 32]),
        data: vec![2],
    };
    let r = initiate_escrow_as_owner(
        &mut w,
        &key(ESCROW_ADDR),
        200,
        &vec![key(1), key(2)],
        &other_ix,
        7,
        key(30),
        100,
        None,
    );
    assert!(r.is_ok());
}

#[test]
fn owner_escrow_requires_full_quorum() {
    let mut w = two_owner_wallet();
    let r = initiate_escrow_as_owner(
        &mut w,
        &key(ESCROW_ADDR),
        200,
        &vec![key(1)],
        &benign_instruction(),
        7,
        key(30),
        100,
        None,
    );
    assert_eq!(r.err().unwrap(), MultisigError::NotEnoughSigners);
}

#[test]
fn non_owner_escrow_deposit_and_proposer_cancel() {
    // A member proposes a takeover, depositing 50 native units into the
    // escrow vault, then cancels: the deposit returns to the proposer and
    // only this escrow leaves the offer list.
    let mut w = two_owner_wallet();
    let proposer = key(2);
    let offered = vec![member(20, 0x3f), member(21, 0x3f)];
    let (escrow, plan, event) = initiate_escrow_as_non_owner(
        &mut w,
        &key(ESCROW_ADDR),
        200,
        190,
        &key(2),
        &proposer,
        9,
        offered,
        50,
        2,
        None,
        &None,
        &None,
        &key(ESCROW_VAULT),
        false,
    )
    .unwrap();
    match plan.unwrap() {
        TransferPlan::Native { from, to, amount, vault_authority } => {
            assert_eq!(from.bytes, key(2).bytes);
            assert_eq!(to.bytes, key(ESCROW_VAULT).bytes);
            assert_eq!(amount, 50);
            assert!(!vault_authority);
        },
        TransferPlan::Token { .. } => panic!("native plan expected"),
    }
    assert!(event.is_pending);
    assert_eq!(escrow.proposer.as_ref().unwrap().bytes, key(2).bytes);
    assert_eq!(escrow.threshold, Some(2));
    assert_eq!(w.pending_offers.len(), 1);

    // A stranger cannot cancel it.
    let r = cancel_escrow_as_non_owner(
        &mut w,
        &escrow,
        &key(ESCROW_ADDR),
        &key(5),
        &None,
        &None,
        &None,
        &key(ESCROW_VAULT),
        false,
    );
    assert_eq!(r.err().unwrap(), MultisigError::InvalidEscrowProposer);

    // The proposer cancels: the vault refunds them under its own authority.
    let (plan, event) = cancel_escrow_as_non_owner(
        &mut w,
        &escrow,
        &key(ESCROW_ADDR),
        &proposer,
        &None,
        &None,
        &None,
        &key(ESCROW_VAULT),
        false,
    )
    .unwrap();
    match plan.unwrap() {
        TransferPlan::Native { from, to, amount, vault_authority } => {
            assert_eq!(from.bytes, key(ESCROW_VAULT).bytes);
            assert_eq!(to.bytes, key(2).bytes);
            assert_eq!(amount, 50);
            assert!(vault_authority);
        },
        TransferPlan::Token { .. } => panic!("native plan expected"),
    }
    assert_eq!(w.pending_offers.len(), 0);
    assert!(!event.is_pending);
    assert!(!event.is_rejected);
    // The wallet's configuration is untouched by a cancel.
    assert_eq!(w.members.len(), 2);
    assert_eq!(w.threshold, 2);
}

#[test]
fn owners_accept_proposed_takeover() {
    // A member proposes a takeover with a deposit; the owners accept: the
    // deposit moves from the escrow vault to the accepting party, the
    // proposed configuration is installed, and every offer is cleared.
    let mut w = two_owner_wallet();
    let ix = benign_instruction();
    let offered = vec![member(20, 0x3f), member(21, 0x3f)];
    let (escrow, _plan, _event) = initiate_escrow_as_non_owner(
        &mut w,
        &key(ESCROW_ADDR),
        200,
        190,
        &key(2),
        &key(2),
        9,
        offered,
        50,
        2,
        None,
        &None,
        &None,
        &key(ESCROW_VAULT),
        false,
    )
    .unwrap();

    let accepting = key(33);
    let (plan, event) = execute_escrow_as_owner(
        &mut w,
        &escrow,
        &key(ESCROW_ADDR),
        &vec![key(1), key(2)],
        &ix,
        &accepting,
        &None,
        &None,
        &None,
        &key(ESCROW_VAULT),
        false,
    )
    .unwrap();
    match plan.unwrap() {
        TransferPlan::Native { from, to, amount, vault_authority } => {
            assert_eq!(from.bytes, key(ESCROW_VAULT).bytes);
            assert_eq!(to.bytes, key(33).bytes);
            assert_eq!(amount, 50);
            assert!(vault_authority);
        },
        TransferPlan::Token { .. } => panic!("native plan expected"),
    }
    assert_eq!(w.members.len(), 2);
    assert_eq!(w.members[0].pubkey.bytes, key(20).bytes);
    assert_eq!(w.members[1].pubkey.bytes, key(21).bytes);
    assert_eq!(w.threshold, 2);
    assert_eq!(w.pending_offers.len(), 0);
    assert_eq!(event.approver.as_ref().unwrap().bytes, key(33).bytes);
}

#[test]
fn owners_cannot_accept_their_own_offer() {
    let mut w = two_owner_wallet();
    let ix = benign_instruction();
    let (escrow, _event) = initiate_escrow_as_owner(
        &mut w,
        &key(ESCROW_ADDR),
        200,
        &vec![key(1), key(2)],
        &ix,
        7,
        key(30),
        100,
        None,
    )
    .unwrap();
    // An owner-initiated escrow has no proposer; the owner-side execute is
    // for proposed takeovers only.
    let r = execute_escrow_as_owner(
        &mut w,
        &escrow,
        &key(ESCROW_ADDR),
        &vec![key(1), key(2)],
        &ix,
        &key(33),
        &None,
        &None,
        &None,
        &key(ESCROW_VAULT),
        false,
    );
    assert_eq!(r.err().unwrap(), MultisigError::UnauthorisedToAcceptEscrowOffer);
}

#[test]
fn unknown_escrow_is_rejected() {
    let mut w = two_owner_wallet();
    let escrow = Escrow {
        create_key: key(1),
        identifier: 7,
        bump: 200,
        proposer: Some(key(2)),
        vault_bump: Some(190),
        recipient: Recipient { amount: 10, pubkey: None, mint: None },
        new_members: Some(vec![member(20, 0x3f), member(21, 0x3f)]),
        threshold: Some(2),
    };
    // Its address is not among the pending offers.
    let r = execute_escrow_as_owner(
        &mut w,
        &escrow,
        &key(ESCROW_ADDR),
        &vec![key(1), key(2)],
        &benign_instruction(),
        &key(33),
        &None,
        &None,
        &None,
        &key(ESCROW_VAULT),
        false,
    );
    assert_eq!(r.err().unwrap(), MultisigError::EscrowDoesNotExist);
}

#[test]
fn wrong_recipient_cannot_claim() {
    let mut w = two_owner_wallet();
    let ix = benign_instruction();
    let (escrow, _event) = initiate_escrow_as_owner(
        &mut w,
        &key(ESCROW_ADDR),
        200,
        &vec![key(1), key(2)],
        &ix,
        7,
        key(30),
        100,
        None,
    )
    .unwrap();
    let r = execute_escrow_as_non_owner(
        &mut w,
        &escrow,
        &key(ESCROW_ADDR),
        &key(31),
        &key(90),
        vec![member(10, 0x3f), member(11, 0x3f)],
        2,
        &None,
        &None,
        &None,
        false,
    );
    assert_eq!(r.err().unwrap(), MultisigError::InvalidEscrowRecipient);
    assert_eq!(w.pending_offers.len(), 1);
}

#[test]
fn owner_cancel_refunds_proposer_and_keeps_other_offers() {
    let mut w = two_owner_wallet();
    let ix = benign_instruction();
    w.pending_offers.push(key(60));
    let offered = vec![member(20, 0x3f), member(21, 0x3f)];
    let (escrow, _plan, _event) = initiate_escrow_as_non_owner(
        &mut w,
        &key(ESCROW_ADDR),
        200,
        190,
        &key(2),
        &key(2),
        9,
        offered,
        50,
        2,
        None,
        &None,
        &None,
        &key(ESCROW_VAULT),
        false,
    )
    .unwrap();
    assert_eq!(w.pending_offers.len(), 2);

    // A wrong refund target is refused.
    let r = cancel_escrow_as_owner(
        &mut w,
        &escrow,
        &key(ESCROW_ADDR),
        &vec![key(1), key(2)],
        &ix,
        &key(8),
        &None,
        &None,
        &None,
        &Some(key(ESCROW_VAULT)),
        false,
    );
    assert_eq!(r.err().unwrap(), MultisigError::InvalidEscrowProposer);

    let (plan, event) = cancel_escrow_as_owner(
        &mut w,
        &escrow,
        &key(ESCROW_ADDR),
        &vec![key(1), key(2)],
        &ix,
        &key(2),
        &None,
        &None,
        &None,
        &Some(key(ESCROW_VAULT)),
        false,
    )
    .unwrap();
    match plan.unwrap() {
        TransferPlan::Native { from, to, amount, vault_authority } => {
            assert_eq!(from.bytes, key(ESCROW_VAULT).bytes);
            assert_eq!(to.bytes, key(2).bytes);
            assert_eq!(amount, 50);
            assert!(vault_authority);
        },
        TransferPlan::Token { .. } => panic!("native plan expected"),
    }
    // Cancelling a proposed takeover marks the offer rejected.
    assert!(event.is_rejected);
    // Only this escrow left the offer list.
    assert_eq!(w.pending_offers.len(), 1);
    assert_eq!(w.pending_offers[0].bytes, key(60).bytes);
}

#[test]
fn owner_cancel_of_own_offer_moves_nothing() {
    let mut w = two_owner_wallet();
    let ix = benign_instruction();
    let (escrow, _event) = initiate_escrow_as_owner(
        &mut w,
        &key(ESCROW_ADDR),
        200,
        &vec![key(1), key(2)],
        &ix,
        7,
        key(30),
        100,
        None,
    )
    .unwrap();
    let (plan, event) = cancel_escrow_as_owner(
        &mut w,
        &escrow,
        &key(ESCROW_ADDR),
        &vec![key(1), key(2)],
        &ix,
        &key(2),
        &None,
        &None,
        &None,
        &None,
        false,
    )
    .unwrap();
    // No deposit was held: nothing moves, and the offer is simply gone.
    assert!(plan.is_none());
    assert!(!event.is_rejected);
    assert_eq!(w.pending_offers.len(), 0);
}

#[test]
fn token_escrow_requires_token_accounts() {
    let escrow = Escrow {
        create_key: key(1),
        identifier: 7,
        bump: 200,
        proposer: Some(key(2)),
        vault_bump: Some(190),
        recipient: Recipient { amount: 10, pubkey: None, mint: Some(key(80)) },
        new_members: Some(vec![member(20, 0x3f), member(21, 0x3f)]),
        threshold: Some(2),
    };
    // A declared mint makes the token accounts contractually required.
    let r = escrow.escrow_transfer(&None, &None, &None, &None, &None, &None, &key(2), false);
    assert_eq!(r.err().unwrap(), MultisigError::MissingAccount);

    // A different supplied mint is refused.
    let from = TokenAccountInfo { key: key(81), amount: 10 };
    let to = TokenAccountInfo { key: key(82), amount: 0 };
    let r = escrow.escrow_transfer(
        &Some(key(79)),
        &Some(from),
        &Some(to),
        &None,
        &None,
        &None,
        &key(2),
        true,
    );
    assert_eq!(r.err().unwrap(), MultisigError::MissingAccount);

    // The matching mint with both token accounts yields a checked token
    // transfer; the source reports a zero balance, so it is closed.
    let from = TokenAccountInfo { key: key(81), amount: 0 };
    let to = TokenAccountInfo { key: key(82), amount: 0 };
    let plan = escrow
        .escrow_transfer(
            &Some(key(80)),
            &Some(from),
            &Some(to),
            &None,
            &None,
            &Some(key(ESCROW_VAULT)),
            &key(2),
            true,
        )
        .unwrap()
        .unwrap();
    match plan {
        TransferPlan::Token { mint, from, to, amount, vault_authority, close_source } => {
            assert_eq!(mint.bytes, key(80).bytes);
            assert_eq!(from.bytes, key(81).bytes);
            assert_eq!(to.bytes, key(82).bytes);
            assert_eq!(amount, 10);
            assert!(vault_authority);
            assert!(close_source);
        },
        TransferPlan::Native { .. } => panic!("token plan expected"),
    }
}

#[test]
fn zero_amount_escrow_moves_nothing() {
    let escrow = Escrow {
        create_key: key(1),
        identifier: 7,
        bump: 200,
        proposer: None,
        vault_bump: None,
        recipient: Recipient { amount: 0, pubkey: Some(key(30)), mint: None },
        new_members: None,
        threshold: None,
    };
    let r = escrow.escrow_transfer(&None, &None, &None, &None, &None, &None, &key(2), false);
    assert!(r.unwrap().is_none());
}

#[test]
fn non_owner_initiation_validates_offered_configuration() {
    let mut w = two_owner_wallet();
    // The offered configuration has a duplicate member.
    let offered = vec![member(20, 0x3f), member(20, 0x3f)];
    let r = initiate_escrow_as_non_owner(
        &mut w,
        &key(ESCROW_ADDR),
        200,
        190,
        &key(2),
        &key(2),
        9,
        offered,
        50,
        2,
        None,
        &None,
        &None,
        &key(ESCROW_VAULT),
        false,
    );
    assert_eq!(r.err().unwrap(), MultisigError::DuplicateMember);
    assert_eq!(w.pending_offers.len(), 0);
}

#[test]
fn non_owner_initiation_requires_member_with_capability() {
    let mut w = two_owner_wallet();
    let offered = vec![member(20, 0x3f), member(21, 0x3f)];
    let r = initiate_escrow_as_non_owner(
        &mut w,
        &key(ESCROW_ADDR),
        200,
        190,
        &key(9),
        &key(9),
        9,
        offered,
        50,
        2,
        None,
        &None,
        &None,
        &key(ESCROW_VAULT),
        false,
    );
    assert_eq!(r.err().unwrap(), MultisigError::InsufficientSignerWithInitiatePermission);
}

#[test]
fn escrow_size_formula() {
    assert_eq!(Escrow::size(0), 170);
    assert_eq!(Escrow::size(3), 170 + 3 * 34);
}
