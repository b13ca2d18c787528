//! The transaction buffer: chunked upload under the declared final size,
//! and the hash/size seal that gates execution.

use multi_wallet::{
    transaction_buffer_close, transaction_buffer_create, transaction_buffer_extend, Member,
    MultiWallet, MultisigError, Permissions, Pubkey, TransactionBuffer,
    TransactionBufferCreateArgs, TransactionBufferExtendArgs,
};

fn key(tag: u8) -> Pubkey {
    let mut bytes = vec![0u8; 32];
    bytes[31] = tag;
    Pubkey::new(bytes)
}

fn member(tag: u8, mask: u8) -> Member {
    Member { pubkey: key(tag), permissions: Some(Permissions { mask }) }
}

fn wallet() -> MultiWallet {
    MultiWallet {
        create_key: key(1),
        threshold: 2,
        bump: 254,
        members: vec![member(1, 0x3f), member(2, 0x3f)],
        pending_offers: Vec::new(),
        metadata: None,
    }
}

fn sha256(bytes: &[u8]) -> Vec<u8> {
    anchor_lang::solana_program::hash::hash(bytes).to_bytes().to_vec()
}

fn create_args(final_size: u16, initial: Vec<u8>, final_content: &[u8]) -> TransactionBufferCreateArgs {
    TransactionBufferCreateArgs {
        buffer_index: 0,
        vault_index: 0,
        final_buffer_hash: sha256(final_content),
        final_buffer_size: final_size,
        buffer: initial,
    }
}

#[test]
fn buffer_create_and_extend_to_final_size() {
    let w = wallet();
    let args = create_args(10, vec![1, 2, 3, 4], &[1, 2, 3, 4, 5, 6, 7, 8, 9, 10]);
    let mut buffer =
        transaction_buffer_create(&w, &key(50), &key(1), &key(9), 253, args).unwrap();
    assert_eq!(buffer.buffer, vec![1, 2, 3, 4]);
    assert_eq!(buffer.final_buffer_size, 10);
    assert_eq!(buffer.creator.bytes, key(1).bytes);
    assert_eq!(buffer.rent_payer.bytes, key(9).bytes);
    assert_eq!(buffer.multi_wallet.bytes, key(50).bytes);

    let r = transaction_buffer_extend(
        &mut buffer,
        &key(1),
        TransactionBufferExtendArgs { buffer: vec![5, 6, 7, 8, 9, 10] },
    );
    assert!(r.is_ok());
    assert_eq!(buffer.buffer.len(), 10);

    // Already full: one more byte must be rejected before any write.
    let r = transaction_buffer_extend(
        &mut buffer,
        &key(1),
        TransactionBufferExtendArgs { buffer: vec![11] },
    );
    assert_eq!(r.err().unwrap(), MultisigError::FinalBufferSizeExceeded);
    assert_eq!(buffer.buffer, vec![1, 2, 3, 4, 5, 6, 7, 8, 9, 10]);
}

#[test]
fn buffer_create_requires_initiating_member() {
    let w = wallet();
    // key(7) is no member of the wallet.
    let args = create_args(10, Vec::new(), &[]);
    let r = transaction_buffer_create(&w, &key(50), &key(7), &key(9), 253, args);
    assert_eq!(r.err().unwrap(), MultisigError::InsufficientSignerWithInitiatePermission);
}

#[test]
fn buffer_create_rejects_size_over_maximum() {
    let w = wallet();
    let args = create_args(4001, Vec::new(), &[]);
    let r = transaction_buffer_create(&w, &key(50), &key(1), &key(9), 253, args);
    assert_eq!(r.err().unwrap(), MultisigError::FinalBufferSizeExceeded);
}

#[test]
fn buffer_create_rejects_oversized_initial_chunk() {
    let w = wallet();
    let args = create_args(2, vec![1, 2, 3], &[1, 2]);
    let r = transaction_buffer_create(&w, &key(50), &key(1), &key(9), 253, args);
    assert_eq!(r.err().unwrap(), MultisigError::FinalBufferSizeExceeded);
}

#[test]
fn extend_past_final_size_rejected_before_any_byte() {
    // A buffer declared at the maximum size, pushed past it in total.
    let w = wallet();
    let args = create_args(4000, vec![0u8; 3000], &[]);
    let mut buffer =
        transaction_buffer_create(&w, &key(50), &key(1), &key(9), 253, args).unwrap();
    let r = transaction_buffer_extend(
        &mut buffer,
        &key(1),
        TransactionBufferExtendArgs { buffer: vec![0u8; 1001] },
    );
    assert_eq!(r.err().unwrap(), MultisigError::FinalBufferSizeExceeded);
    assert_eq!(buffer.buffer.len(), 3000);
}

#[test]
fn only_creator_extends() {
    let w = wallet();
    let args = create_args(10, vec![1], &[]);
    let mut buffer =
        transaction_buffer_create(&w, &key(50), &key(1), &key(9), 253, args).unwrap();
    let r = transaction_buffer_extend(
        &mut buffer,
        &key(2),
        TransactionBufferExtendArgs { buffer: vec![2] },
    );
    assert_eq!(r.err().unwrap(), MultisigError::UnauthorisedToModifyBuffer);
    assert_eq!(buffer.buffer, vec![1]);
}

#[test]
fn validate_hash_accepts_exact_content_and_rejects_mutation() {
    let content = vec![10u8, 20, 30, 40, 50];
    let w = wallet();
    let args = create_args(5, content.clone(), &content);
    let buffer = transaction_buffer_create(&w, &key(50), &key(1), &key(9), 253, args).unwrap();
    assert!(buffer.validate_hash().is_ok());
    assert!(buffer.validate_size().is_ok());

    // A single mutated byte must make the seal check fail.
    let mut mutated = buffer;
    mutated.buffer[2] ^= 1;
    assert_eq!(mutated.validate_hash().err().unwrap(), MultisigError::FinalBufferHashMismatch);
}

#[test]
fn validate_size_rejects_partial_buffer() {
    let content = vec![10u8, 20, 30, 40, 50];
    let w = wallet();
    let args = create_args(5, vec![10u8, 20, 30], &content);
    let buffer = transaction_buffer_create(&w, &key(50), &key(1), &key(9), 253, args).unwrap();
    assert_eq!(buffer.validate_size().err().unwrap(), MultisigError::FinalBufferSizeMismatch);
}

#[test]
fn close_is_gated_on_creator_and_rent_payer() {
    let w = wallet();
    let args = create_args(5, Vec::new(), &[]);
    let buffer = transaction_buffer_create(&w, &key(50), &key(1), &key(9), 253, args).unwrap();
    assert_eq!(
        transaction_buffer_close(&buffer, &key(2), &key(9)).err().unwrap(),
        MultisigError::UnauthorisedToModifyBuffer
    );
    assert_eq!(
        transaction_buffer_close(&buffer, &key(1), &key(2)).err().unwrap(),
        MultisigError::InvalidAccount
    );
    assert!(transaction_buffer_close(&buffer, &key(1), &key(9)).is_ok());
}

#[test]
fn buffer_size_formula() {
    assert_eq!(TransactionBuffer::size(100).unwrap(), 245);
    assert_eq!(TransactionBuffer::size(4000).unwrap(), 4145);
    assert_eq!(
        TransactionBuffer::size(4001).err().unwrap(),
        MultisigError::FinalBufferSizeExceeded
    );
}
