//! Fixed derivation salts. Every account class of the engine lives at an
//! address derived from one of these salts and the owning entity's keys.

use vstd::prelude::*;

verus! {

/// The salt of wallet accounts: the bytes of `"multi_wallet"`.
pub open spec fn spec_seed_multisig() -> Seq<u8> {
    seq![109u8, 117u8, 108u8, 116u8, 105u8, 95u8, 119u8, 97u8, 108u8, 108u8, 101u8, 116u8]
}

/// Builds the wallet salt.
pub fn seed_multisig() -> (r: Vec<u8>)
    ensures
        r@ == spec_seed_multisig(),
{
    let mut v: Vec<u8> = Vec::new();
    v.push(109);
    v.push(117);
    v.push(108);
    v.push(116);
    v.push(105);
    v.push(95);
    v.push(119);
    v.push(97);
    v.push(108);
    v.push(108);
    v.push(101);
    v.push(116);
    proof {
        assert(v@ =~= spec_seed_multisig());
    }
    v
}

/// The salt of vault addresses: the bytes of `"vault"`.
pub open spec fn spec_seed_vault() -> Seq<u8> {
    seq![118u8, 97u8, 117u8, 108u8, 116u8]
}

/// Builds the vault salt.
pub fn seed_vault() -> (r: Vec<u8>)
    ensures
        r@ == spec_seed_vault(),
{
    let mut v: Vec<u8> = Vec::new();
    v.push(118);
    v.push(97);
    v.push(117);
    v.push(108);
    v.push(116);
    proof {
        assert(v@ =~= spec_seed_vault());
    }
    v
}

/// The salt of escrow accounts: the bytes of `"escrow"`.
pub open spec fn spec_seed_escrow() -> Seq<u8> {
    seq![101u8, 115u8, 99u8, 114u8, 111u8, 119u8]
}

/// Builds the escrow salt.
pub fn seed_escrow() -> (r: Vec<u8>)
    ensures
        r@ == spec_seed_escrow(),
{
    let mut v: Vec<u8> = Vec::new();
    v.push(101);
    v.push(115);
    v.push(99);
    v.push(114);
    v.push(111);
    v.push(119);
    proof {
        assert(v@ =~= spec_seed_escrow());
    }
    v
}

/// The salt of transaction buffer accounts: the bytes of `"buffer"`.
pub open spec fn spec_seed_transaction_buffer() -> Seq<u8> {
    seq![98u8, 117u8, 102u8, 102u8, 101u8, 114u8]
}

/// Builds the transaction buffer salt.
pub fn seed_transaction_buffer() -> (r: Vec<u8>)
    ensures
        r@ == spec_seed_transaction_buffer(),
{
    let mut v: Vec<u8> = Vec::new();
    v.push(98);
    v.push(117);
    v.push(102);
    v.push(102);
    v.push(101);
    v.push(114);
    proof {
        assert(v@ =~= spec_seed_transaction_buffer());
    }
    v
}

} // verus!
