//! Addresses. The ledger identifies every account by a 32-byte public key;
//! the engine only ever reads a key's bytes and compares keys for equality,
//! so a key is modeled as exactly those bytes.

use vstd::prelude::*;

verus! {

/// Number of bytes in a public key.
pub const PUBKEY_BYTES: usize = 32;

/// A 32-byte account address.
pub struct Pubkey {
    pub bytes: Vec<u8>,
}

impl View for Pubkey {
    type V = Seq<u8>;

    open spec fn view(&self) -> Seq<u8> {
        self.bytes@
    }
}

impl DeepView for Pubkey {
    type V = Seq<u8>;

    open spec fn deep_view(&self) -> Seq<u8> {
        self.bytes@
    }
}

impl Pubkey {
    /// A structurally sound key: exactly 32 bytes.
    pub open spec fn wf(&self) -> bool {
        self.bytes@.len() == PUBKEY_BYTES
    }

    /// Builds a key from its bytes.
    pub fn new(bytes: Vec<u8>) -> (r: Pubkey)
        requires
            bytes@.len() == PUBKEY_BYTES,
        ensures
            r@ == bytes@,
            r.wf(),
    {
        Pubkey { bytes }
    }

    /// Byte-for-byte equality of two keys.
    pub fn eq_key(&self, other: &Pubkey) -> (r: bool)
        ensures
            r == (self@ == other@),
    {
        if self.bytes.len() != other.bytes.len() {
            assert(self@ != other@);
            return false;
        }
        let n = self.bytes.len();
        let mut i: usize = 0;
        while i < n
            invariant
                n == self.bytes@.len(),
                n == other.bytes@.len(),
                0 <= i <= n,
                forall|j: int| 0 <= j < i ==> self.bytes@[j] == other.bytes@[j],
            decreases n - i,
        {
            if self.bytes[i] != other.bytes[i] {
                assert(self@[i as int] != other@[i as int]);
                return false;
            }
            i = i + 1;
        }
        assert(self@ =~= other@);
        true
    }

    /// An owned copy of the key.
    pub fn dup(&self) -> (r: Pubkey)
        ensures
            r@ == self@,
    {
        let n = self.bytes.len();
        let mut out: Vec<u8> = Vec::new();
        let mut i: usize = 0;
        while i < n
            invariant
                n == self.bytes@.len(),
                0 <= i <= n,
                out@ =~= self.bytes@.subrange(0, i as int),
            decreases n - i,
        {
            out.push(self.bytes[i]);
            i = i + 1;
        }
        assert(out@ =~= self.bytes@);
        Pubkey { bytes: out }
    }
}

/// Byte-for-byte equality of two byte strings.
pub fn eq_bytes(a: &Vec<u8>, b: &Vec<u8>) -> (r: bool)
    ensures
        r == (a@ == b@),
{
    if a.len() != b.len() {
        assert(a@ != b@);
        return false;
    }
    let n = a.len();
    let mut i: usize = 0;
    while i < n
        invariant
            n == a@.len(),
            n == b@.len(),
            0 <= i <= n,
            forall|j: int| 0 <= j < i ==> a@[j] == b@[j],
        decreases n - i,
    {
        if a[i] != b[i] {
            assert(a@[i as int] != b@[i as int]);
            return false;
        }
        i = i + 1;
    }
    assert(a@ =~= b@);
    true
}

/// View of an optional key as optional bytes.
pub open spec fn opt_key_view(k: Option<Pubkey>) -> Option<Seq<u8>> {
    match k {
        Some(p) => Some(p@),
        None => None,
    }
}

/// An owned copy of an optional key.
pub fn dup_opt_key(k: &Option<Pubkey>) -> (r: Option<Pubkey>)
    ensures
        opt_key_view(r) == opt_key_view(*k),
{
    match k {
        Some(p) => Some(p.dup()),
        None => None,
    }
}

/// The address of the system (native transfer) program: 32 zero bytes.
pub open spec fn spec_system_program_id() -> Seq<u8> {
    Seq::new(PUBKEY_BYTES as nat, |i: int| 0u8)
}

/// Builds the system program's address.
pub fn system_program_id() -> (r: Pubkey)
    ensures
        r@ == spec_system_program_id(),
        r.wf(),
{
    let mut bytes: Vec<u8> = Vec::new();
    let mut i: usize = 0;
    while i < PUBKEY_BYTES
        invariant
            0 <= i <= PUBKEY_BYTES,
            bytes@.len() == i,
            forall|j: int| 0 <= j < i ==> bytes@[j] == 0u8,
        decreases PUBKEY_BYTES - i,
    {
        bytes.push(0u8);
        i = i + 1;
    }
    assert(bytes@ =~= spec_system_program_id());
    Pubkey { bytes }
}

} // verus!
