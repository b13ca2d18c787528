//! End-to-end vault execution: a staged, sealed buffer is decoded,
//! validated, cross-checked against the supplied accounts, and turned into
//! the instruction batch signed by the wallet's derived vault.

use multi_wallet::{
    vault_transaction_execute, AccountMeta, IntrospectedInstruction, Member, MultiWallet,
    MultisigError, Permissions, Pubkey, TransactionBuffer,
};

fn key(tag: u8) -> Pubkey {
    let mut bytes = vec![0u8; 32];
    bytes[31] = tag;
    Pubkey::new(bytes)
}

fn member(tag: u8, mask: u8) -> Member {
    Member { pubkey: key(tag), permissions: Some(Permissions { mask }) }
}

fn wallet() -> MultiWallet {
    MultiWallet {
        create_key: key(1),
        threshold: 2,
        bump: 254,
        members: vec![member(1, 0x3f), member(2, 0x3f)],
        pending_offers: Vec::new(),
        metadata: None,
    }
}

fn benign_instruction() -> IntrospectedInstruction {
    IntrospectedInstruction { program_id: key(99), data: vec![1] }
}

fn sha256(bytes: &[u8]) -> Vec<u8> {
    anchor_lang::solana_program::hash::hash(bytes).to_bytes().to_vec()
}

fn push_u32(out: &mut Vec<u8>, x: u32) {
    out.extend_from_slice(&x.to_le_bytes());
}

/// One-instruction message over the given raw 32-byte keys, no lookups.
fn encode_message(
    counts: (u8, u8, u8),
    keys: &[&[u8]],
    program_id_index: u8,
    account_indexes: &[u8],
    data: &[u8],
) -> Vec<u8> {
    let mut out = Vec::new();
    out.push(counts.0);
    out.push(counts.1);
    out.push(counts.2);
    push_u32(&mut out, keys.len() as u32);
    for k in keys {
        out.extend_from_slice(k);
    }
    push_u32(&mut out, 1);
    out.push(program_id_index);
    push_u32(&mut out, account_indexes.len() as u32);
    out.extend_from_slice(account_indexes);
    push_u32(&mut out, data.len() as u32);
    out.extend_from_slice(data);
    push_u32(&mut out, 0);
    out
}

fn sealed_buffer(content: &[u8]) -> TransactionBuffer {
    TransactionBuffer {
        multi_wallet: key(50),
        creator: key(1),
        rent_payer: key(9),
        vault_index: 3,
        buffer_index: 0,
        final_buffer_hash: sha256(content),
        final_buffer_size: content.len() as u16,
        buffer: content.to_vec(),
        bump: 253,
    }
}

fn derived_vault(wallet_address: &Pubkey, program_id: &Pubkey, vault_index: u16) -> (Vec<u8>, u8) {
    let program = anchor_lang::solana_program::pubkey::Pubkey::new_from_array(
        program_id.bytes.as_slice().try_into().unwrap(),
    );
    let (pk, bump) = anchor_lang::solana_program::pubkey::Pubkey::find_program_address(
        &[
            b"multi_wallet",
            wallet_address.bytes.as_slice(),
            b"vault",
            &vault_index.to_le_bytes(),
        ],
        &program,
    );
    (pk.to_bytes().to_vec(), bump)
}

fn meta(bytes: Vec<u8>, is_signer: bool, is_writable: bool) -> AccountMeta {
    AccountMeta { pubkey: Pubkey::new(bytes), is_signer, is_writable }
}

#[test]
fn sealed_batch_executes_with_vault_authority() {
    let w = wallet();
    let wallet_address = key(50);
    let program_id = key(51);
    let (vault_bytes, expected_bump) = derived_vault(&wallet_address, &program_id, 3);

    // Keys: [vault (writable signer), destination (writable), program].
    let dest = key(30);
    let target_program = key(31);
    let content = encode_message(
        (1, 1, 1),
        &[&vault_bytes, &dest.bytes, &target_program.bytes],
        2,
        &[0, 1],
        &[42, 1],
    );
    let buffer = sealed_buffer(&content);
    let accounts = vec![
        meta(vault_bytes.clone(), false, true),
        meta(dest.bytes.clone(), false, true),
        meta(target_program.bytes.clone(), false, false),
    ];
    let plan = vault_transaction_execute(
        &w,
        &wallet_address,
        &program_id,
        &buffer,
        3,
        &vec![key(1), key(2)],
        &benign_instruction(),
        &Vec::new(),
        &accounts,
    )
    .unwrap();

    // The vault derivation matches the ledger SDK's own.
    assert_eq!(plan.vault_pubkey.bytes, vault_bytes);
    assert_eq!(plan.vault_bump, expected_bump);

    assert_eq!(plan.instructions.len(), 1);
    let ins = &plan.instructions[0];
    assert_eq!(ins.program_id.bytes, target_program.bytes);
    assert_eq!(ins.data, vec![42, 1]);
    assert_eq!(ins.accounts.len(), 2);
    // The vault signs through its derived authority, without an external
    // signature.
    assert_eq!(ins.accounts[0].pubkey.bytes, vault_bytes);
    assert!(ins.accounts[0].is_signer);
    assert!(ins.accounts[0].is_writable);
    assert_eq!(ins.accounts[1].pubkey.bytes, dest.bytes);
    assert!(!ins.accounts[1].is_signer);
    assert!(ins.accounts[1].is_writable);
}

#[test]
fn one_mutated_byte_breaks_the_seal() {
    let w = wallet();
    let wallet_address = key(50);
    let program_id = key(51);
    let (vault_bytes, _bump) = derived_vault(&wallet_address, &program_id, 3);
    let content = encode_message((1, 1, 0), &[&vault_bytes, &key(31).bytes], 1, &[0], &[]);
    let mut buffer = sealed_buffer(&content);
    buffer.buffer[0] ^= 1;
    let accounts = vec![
        meta(vault_bytes.clone(), false, true),
        meta(key(31).bytes.clone(), false, false),
    ];
    let r = vault_transaction_execute(
        &w,
        &wallet_address,
        &program_id,
        &buffer,
        3,
        &vec![key(1), key(2)],
        &benign_instruction(),
        &Vec::new(),
        &accounts,
    );
    assert_eq!(r.err().unwrap(), MultisigError::FinalBufferHashMismatch);
}

#[test]
fn partial_buffer_does_not_execute() {
    let w = wallet();
    let content = encode_message((1, 1, 0), &[&key(30).bytes], 0, &[], &[]);
    let mut buffer = sealed_buffer(&content);
    // Declared one byte longer than what accumulated.
    buffer.final_buffer_size += 1;
    buffer.final_buffer_hash = sha256(&buffer.buffer);
    let r = vault_transaction_execute(
        &w,
        &key(50),
        &key(51),
        &buffer,
        3,
        &vec![key(1), key(2)],
        &benign_instruction(),
        &Vec::new(),
        &Vec::new(),
    );
    assert_eq!(r.err().unwrap(), MultisigError::FinalBufferSizeMismatch);
}

#[test]
fn garbage_content_is_a_malformed_message() {
    let w = wallet();
    let buffer = sealed_buffer(&[1, 2, 3]);
    let r = vault_transaction_execute(
        &w,
        &key(50),
        &key(51),
        &buffer,
        3,
        &vec![key(1), key(2)],
        &benign_instruction(),
        &Vec::new(),
        &Vec::new(),
    );
    assert_eq!(r.err().unwrap(), MultisigError::InvalidTransactionMessage);
}

#[test]
fn execution_requires_quorum_and_unlocked_wallet() {
    let mut w = wallet();
    let content = encode_message((1, 1, 0), &[&key(30).bytes], 0, &[], &[]);
    let buffer = sealed_buffer(&content);
    let accounts = vec![meta(key(30).bytes.clone(), false, true)];

    // One voter is below the threshold of two.
    let r = vault_transaction_execute(
        &w,
        &key(50),
        &key(51),
        &buffer,
        3,
        &vec![key(1)],
        &benign_instruction(),
        &Vec::new(),
        &accounts,
    );
    assert_eq!(r.err().unwrap(), MultisigError::NotEnoughSigners);

    // An outstanding escrow offer locks execution out.
    w.pending_offers.push(key(77));
    let r = vault_transaction_execute(
        &w,
        &key(50),
        &key(51),
        &buffer,
        3,
        &vec![key(1), key(2)],
        &benign_instruction(),
        &Vec::new(),
        &accounts,
    );
    assert_eq!(r.err().unwrap(), MultisigError::MultisigIsCurrentlyLocked);
}

#[test]
fn wrong_account_count_is_rejected() {
    let w = wallet();
    let content = encode_message((1, 1, 0), &[&key(30).bytes], 0, &[], &[]);
    let buffer = sealed_buffer(&content);
    let r = vault_transaction_execute(
        &w,
        &key(50),
        &key(51),
        &buffer,
        3,
        &vec![key(1), key(2)],
        &benign_instruction(),
        &Vec::new(),
        &Vec::new(),
    );
    assert_eq!(r.err().unwrap(), MultisigError::InvalidNumberOfAccounts);
}
