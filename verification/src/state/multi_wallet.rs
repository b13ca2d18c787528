//! The wallet: its members with their capability masks, its threshold, its
//! pending escrow offers, and the structural and policy invariant that every
//! mutation must re-establish.

use vstd::prelude::*;

use crate::error::MultisigError;
use crate::pubkey::{spec_system_program_id, system_program_id, Pubkey};

verus! {

/// The threshold may never exceed this cap.
pub const MAX_THRESHOLD: u8 = 2;

/// The member count may never exceed this cap.
pub const MAX_MEMBERS: usize = 65535;

/// One edit of a configuration batch; a batch applies its edits in order.
pub enum ConfigAction {
    /// Replace the member list.
    SetMembers(Vec<Member>),
    /// Append members to the list.
    AddMembers(Vec<Member>),
    /// Remove every member whose address is listed.
    RemoveMembers(Vec<Pubkey>),
    /// Replace the threshold.
    SetThreshold(u8),
    /// Replace the metadata reference.
    SetMetadata(Option<Pubkey>),
}

/// A member: an address plus its optional capability mask. A member without
/// a mask participates in nothing.
pub struct Member {
    pub pubkey: Pubkey,
    pub permissions: Option<Permissions>,
}

/// Abstract value of a [`Member`].
pub struct MemberV {
    pub pubkey: Seq<u8>,
    pub permissions: Option<Permissions>,
}

impl View for Member {
    type V = MemberV;

    open spec fn view(&self) -> MemberV {
        MemberV { pubkey: self.pubkey@, permissions: self.permissions }
    }
}

impl DeepView for Member {
    type V = MemberV;

    open spec fn deep_view(&self) -> MemberV {
        self@
    }
}

/// The six capabilities a member can hold.
#[derive(Clone, Copy, Debug, PartialEq, Eq, Structural)]
pub enum Permission {
    InitiateTransaction,
    VoteTransaction,
    ExecuteTransaction,
    InitiateEscrow,
    VoteEscrow,
    ExecuteEscrow,
}

/// The bit a capability occupies in a mask.
pub open spec fn perm_bit(p: Permission) -> u8 {
    match p {
        Permission::InitiateTransaction => 0x01,
        Permission::VoteTransaction => 0x02,
        Permission::ExecuteTransaction => 0x04,
        Permission::InitiateEscrow => 0x08,
        Permission::VoteEscrow => 0x10,
        Permission::ExecuteEscrow => 0x20,
    }
}

impl Permission {
    /// The bit this capability occupies in a mask.
    pub fn bit(self) -> (r: u8)
        ensures
            r == perm_bit(self),
    {
        match self {
            Permission::InitiateTransaction => 0x01,
            Permission::VoteTransaction => 0x02,
            Permission::ExecuteTransaction => 0x04,
            Permission::InitiateEscrow => 0x08,
            Permission::VoteEscrow => 0x10,
            Permission::ExecuteEscrow => 0x20,
        }
    }
}

/// A capability set, stored as a bitmask.
#[derive(Clone, Copy, Debug, PartialEq, Eq, Structural)]
pub struct Permissions {
    pub mask: u8,
}

/// The mask that grants exactly the capabilities of `perms`.
pub open spec fn fold_perm_bits(perms: Seq<Permission>) -> u8
    decreases perms.len(),
{
    if perms.len() == 0 {
        0u8
    } else {
        fold_perm_bits(perms.drop_last()) | perm_bit(perms.last())
    }
}

impl Permissions {
    /// Whether this set grants the capability.
    pub open spec fn spec_has(self, permission: Permission) -> bool {
        self.mask & perm_bit(permission) != 0
    }

    /// Builds the set that grants exactly the listed capabilities.
    pub fn from_vec(permissions: &[Permission]) -> (r: Self)
        ensures
            r.mask == fold_perm_bits(permissions@),
    {
        let mut mask: u8 = 0;
        let n = permissions.len();
        let mut i: usize = 0;
        while i < n
            invariant
                n == permissions@.len(),
                0 <= i <= n,
                mask == fold_perm_bits(permissions@.subrange(0, i as int)),
            decreases n - i,
        {
            proof {
                assert(permissions@.subrange(0, i + 1 as int).drop_last() =~= permissions@
                    .subrange(0, i as int));
                assert(permissions@.subrange(0, i + 1 as int).last() == permissions@[i as int]);
            }
            mask = mask | permissions[i].bit();
            i = i + 1;
        }
        proof {
            assert(permissions@.subrange(0, n as int) =~= permissions@);
        }
        Self { mask }
    }

    /// Whether this set grants the capability.
    pub fn has(&self, permission: Permission) -> (r: bool)
        ensures
            r == self.spec_has(permission),
    {
        self.mask & permission.bit() != 0
    }
}

/// Whether the member holds the capability.
pub open spec fn member_has(m: MemberV, p: Permission) -> bool {
    match m.permissions {
        Some(perms) => perms.spec_has(p),
        None => false,
    }
}

/// How many members of the list hold the capability.
pub open spec fn count_with(members: Seq<MemberV>, p: Permission) -> nat
    decreases members.len(),
{
    if members.len() == 0 {
        0
    } else {
        count_with(members.drop_last(), p) + if member_has(members.last(), p) {
            1nat
        } else {
            0nat
        }
    }
}

/// Counts the members of the list that hold the capability.
pub fn count_members_with(members: &Vec<Member>, p: Permission) -> (n: usize)
    ensures
        n == count_with(members.deep_view(), p),
{
    let len = members.len();
    let mut n: usize = 0;
    let mut i: usize = 0;
    while i < len
        invariant
            len == members@.len(),
            0 <= i <= len,
            n == count_with(members.deep_view().subrange(0, i as int), p),
            n <= i,
        decreases len - i,
    {
        proof {
            assert(members.deep_view().subrange(0, i + 1 as int).drop_last() =~= members
                .deep_view()
                .subrange(0, i as int));
            assert(members.deep_view().subrange(0, i + 1 as int).last() == members@[i as int]@);
        }
        let has = match &members[i].permissions {
            Some(perms) => perms.has(p),
            None => false,
        };
        if has {
            n = n + 1;
        }
        i = i + 1;
    }
    proof {
        assert(members.deep_view().subrange(0, len as int) =~= members.deep_view());
    }
    n
}

/// How many members of the list have the given address and hold the
/// capability. With pairwise distinct addresses this is 0 or 1.
pub open spec fn count_key_with(members: Seq<MemberV>, key: Seq<u8>, p: Permission) -> nat
    decreases members.len(),
{
    if members.len() == 0 {
        0
    } else {
        count_key_with(members.drop_last(), key, p) + if members.last().pubkey == key
            && member_has(members.last(), p) {
            1nat
        } else {
            0nat
        }
    }
}

/// Counts the members of the list with the given address that hold the
/// capability.
pub fn count_members_with_key(members: &Vec<Member>, key: &Pubkey, p: Permission) -> (n: usize)
    ensures
        n == count_key_with(members.deep_view(), key@, p),
{
    let len = members.len();
    let mut n: usize = 0;
    let mut i: usize = 0;
    while i < len
        invariant
            len == members@.len(),
            0 <= i <= len,
            n == count_key_with(members.deep_view().subrange(0, i as int), key@, p),
            n <= i,
        decreases len - i,
    {
        proof {
            assert(members.deep_view().subrange(0, i + 1 as int).drop_last() =~= members
                .deep_view()
                .subrange(0, i as int));
            assert(members.deep_view().subrange(0, i + 1 as int).last() == members@[i as int]@);
        }
        let has = members[i].pubkey.eq_key(key) && (match &members[i].permissions {
            Some(perms) => perms.has(p),
            None => false,
        });
        if has {
            n = n + 1;
        }
        i = i + 1;
    }
    proof {
        assert(members.deep_view().subrange(0, len as int) =~= members.deep_view());
    }
    n
}

/// Whether `key` is one of the listed addresses.
pub open spec fn key_in(keys: Seq<Seq<u8>>, key: Seq<u8>) -> bool {
    exists|i: int| 0 <= i < keys.len() && keys[i] == key
}

/// Whether `key` is one of the listed addresses.
pub fn contains_key(keys: &Vec<Pubkey>, key: &Pubkey) -> (r: bool)
    ensures
        r == key_in(keys.deep_view(), key@),
{
    let len = keys.len();
    let mut i: usize = 0;
    while i < len
        invariant
            len == keys@.len(),
            0 <= i <= len,
            forall|j: int| 0 <= j < i ==> keys.deep_view()[j] != key@,
        decreases len - i,
    {
        if keys[i].eq_key(key) {
            assert(keys.deep_view()[i as int] == key@);
            return true;
        }
        i = i + 1;
    }
    false
}

/// No two members of the list share an address.
pub open spec fn unique_keys(members: Seq<MemberV>) -> bool {
    forall|i: int, j: int| 0 <= i < j < members.len() ==> members[i].pubkey != members[j].pubkey
}

/// The structural and policy invariant of a wallet configuration: a
/// non-empty member list of at most [`MAX_MEMBERS`] members with pairwise
/// distinct addresses; a threshold between 1 and the member count, capped at
/// [`MAX_THRESHOLD`] and covered by the voters of both action classes; and
/// at least one holder of each initiate and execute capability.
pub open spec fn spec_valid_config(threshold: u8, members: Seq<MemberV>) -> bool {
    &&& members.len() >= 1
    &&& members.len() <= MAX_MEMBERS
    &&& threshold >= 1
    &&& threshold <= members.len()
    &&& unique_keys(members)
    &&& threshold <= MAX_THRESHOLD
    &&& threshold <= count_with(members, Permission::VoteTransaction)
    &&& threshold <= count_with(members, Permission::VoteEscrow)
    &&& count_with(members, Permission::InitiateTransaction) >= 1
    &&& count_with(members, Permission::InitiateEscrow) >= 1
    &&& count_with(members, Permission::ExecuteTransaction) >= 1
    &&& count_with(members, Permission::ExecuteEscrow) >= 1
}

/// The fault a configuration is rejected with, checking the clauses of
/// [`spec_valid_config`] in the order the checker tests them. Meaningful
/// only when the configuration is invalid.
pub open spec fn spec_config_error(threshold: u8, members: Seq<MemberV>) -> MultisigError
    recommends
        !spec_valid_config(threshold, members),
{
    if members.len() == 0 {
        MultisigError::EmptyMembers
    } else if members.len() > MAX_MEMBERS {
        MultisigError::TooManyMembers
    } else if threshold == 0 || threshold > members.len() {
        MultisigError::InvalidThreshold
    } else if !unique_keys(members) {
        MultisigError::DuplicateMember
    } else if threshold > MAX_THRESHOLD {
        MultisigError::ThresholdTooHigh
    } else if threshold > count_with(members, Permission::VoteTransaction) || threshold
        > count_with(members, Permission::VoteEscrow) {
        MultisigError::InsufficientSignersWithVotePermission
    } else if count_with(members, Permission::InitiateTransaction) < 1 || count_with(
        members,
        Permission::InitiateEscrow,
    ) < 1 {
        MultisigError::InsufficientSignerWithInitiatePermission
    } else {
        MultisigError::InsufficientSignerWithExecutePermission
    }
}

/// What the host must do to the wallet account's storage after a
/// configuration change: nothing, or grow it to `new_size` bytes and
/// transfer `top_up` lamports to it from the rent payer.
pub enum ReallocPlan {
    Unchanged,
    Grow { new_size: usize, top_up: u64 },
}

/// Lamports the account still needs to reach the rent-exempt minimum
/// (at least 1).
pub open spec fn spec_top_up(current_lamports: u64, rent_minimum: u64) -> u64 {
    let rent_exempt = if rent_minimum > 1 {
        rent_minimum
    } else {
        1u64
    };
    if rent_exempt > current_lamports {
        (rent_exempt - current_lamports) as u64
    } else {
        0u64
    }
}

/// The wallet: the sole mutable root of the system. All other entities
/// reference it and are only mutated through operations that re-validate
/// its invariant.
pub struct MultiWallet {
    /// Immutable identity seed of the wallet.
    pub create_key: Pubkey,
    /// How many voters each action class needs.
    pub threshold: u8,
    /// Storage bump of the wallet's derived address.
    pub bump: u8,
    /// The members. Order is irrelevant to the semantics.
    pub members: Vec<Member>,
    /// Addresses of the escrows currently outstanding.
    pub pending_offers: Vec<Pubkey>,
    /// Optional opaque metadata reference.
    pub metadata: Option<Pubkey>,
}

/// Abstract value of a [`MultiWallet`].
pub struct MultiWalletV {
    pub create_key: Seq<u8>,
    pub threshold: u8,
    pub bump: u8,
    pub members: Seq<MemberV>,
    pub pending_offers: Seq<Seq<u8>>,
    pub metadata: Option<Seq<u8>>,
}

impl View for MultiWallet {
    type V = MultiWalletV;

    open spec fn view(&self) -> MultiWalletV {
        MultiWalletV {
            create_key: self.create_key@,
            threshold: self.threshold,
            bump: self.bump,
            members: self.members.deep_view(),
            pending_offers: self.pending_offers.deep_view(),
            metadata: match self.metadata {
                Some(ref k) => Some(k@),
                None => None,
            },
        }
    }
}

/// The leading instruction of the current call, as the ledger's instruction
/// introspection reports it: the program it targets and its raw data.
pub struct IntrospectedInstruction {
    pub program_id: Pubkey,
    pub data: Vec<u8>,
}

/// Whether the instruction is a durable-nonce advance: an instruction of the
/// system program whose first data byte is 4.
pub open spec fn spec_is_durable_nonce(ix: IntrospectedInstruction) -> bool {
    &&& ix.program_id@ == spec_system_program_id()
    &&& ix.data@.len() > 0
    &&& ix.data@[0] == 4u8
}

impl MultiWallet {
    /// Structurally sound wallet: every stored address has 32 bytes.
    pub open spec fn wf(&self) -> bool {
        &&& self.create_key.wf()
        &&& forall|i: int| 0 <= i < self.members@.len() ==> (#[trigger] self.members@[i]).pubkey.wf()
        &&& forall|i: int|
            0 <= i < self.pending_offers@.len() ==> (#[trigger] self.pending_offers@[i]).wf()
        &&& match self.metadata {
            Some(ref k) => k.wf(),
            None => true,
        }
    }

    /// Whether the wallet's configuration satisfies the invariant.
    pub open spec fn spec_valid(&self) -> bool {
        spec_valid_config(self.threshold, self.members.deep_view())
    }

    /// Bytes of storage a wallet account with the given member and offer
    /// counts occupies.
    pub fn size(members_length: usize, num_offers: usize) -> (r: usize)
        requires
            members_length * 34 + num_offers * 32 + 83 <= usize::MAX,
        ensures
            r == 83 + members_length * 34 + num_offers * 32,
    {
        8  // account discriminator
         + 32  // create_key
         + 1  // threshold
         + 1  // bump
         + 4  // members vector length
         + members_length * 34  // members
         + 4  // offers vector length
         + num_offers * 32  // pending offers
         + 1  // metadata option tag
         + 32  // metadata
    }

    /// Decides whether the wallet account's storage must grow to hold the
    /// given member and offer counts, and how many lamports the account then
    /// still needs to stay rent-exempt. The host performs the growth and the
    /// top-up transfer; it may only do so for an account this program owns.
    pub fn realloc_if_needed(
        owner: &Pubkey,
        program_id: &Pubkey,
        current_size: usize,
        current_lamports: u64,
        rent_minimum: u64,
        members_length: usize,
        num_offers: usize,
    ) -> (r: Result<ReallocPlan, MultisigError>)
        requires
            members_length * 34 + num_offers * 32 + 83 <= usize::MAX,
        ensures
            match r {
                Err(e) => owner@ != program_id@ && e == MultisigError::IllegalAccountOwner,
                Ok(plan) => owner@ == program_id@ && match plan {
                    ReallocPlan::Unchanged => current_size >= 83 + members_length * 34 + num_offers
                        * 32,
                    ReallocPlan::Grow { new_size, top_up } => {
                        &&& current_size < 83 + members_length * 34 + num_offers * 32
                        &&& new_size == 83 + members_length * 34 + num_offers * 32
                        &&& top_up == spec_top_up(current_lamports, rent_minimum)
                    },
                },
            },
    {
        if !owner.eq_key(program_id) {
            return Err(MultisigError::IllegalAccountOwner);
        }
        let new_size = Self::size(members_length, num_offers);
        if current_size >= new_size {
            return Ok(ReallocPlan::Unchanged);
        }
        let rent_exempt = if rent_minimum > 1 {
            rent_minimum
        } else {
            1
        };
        let top_up = if rent_exempt > current_lamports {
            rent_exempt - current_lamports
        } else {
            0
        };
        Ok(ReallocPlan::Grow { new_size, top_up })
    }

    /// Rejects a call whose leading instruction is a durable-nonce advance.
    pub fn durable_nonce_check(instruction: &IntrospectedInstruction) -> (r: Result<
        (),
        MultisigError,
    >)
        ensures
            r is Ok <==> !spec_is_durable_nonce(*instruction),
            r is Err ==> r->Err_0 == MultisigError::DurableNonceDetected,
    {
        let system_id = system_program_id();
        let is_nonce = instruction.program_id.eq_key(&system_id) && instruction.data.len() > 0
            && instruction.data[0] == 4;
        if is_nonce {
            Err(MultisigError::DurableNonceDetected)
        } else {
            Ok(())
        }
    }

    /// The wallet members, in list order, whose address is among the signers
    /// of the current call. With a valid wallet the result has no duplicate,
    /// since the member list has none.
    pub fn get_unique_signers(&self, signer_keys: &Vec<Pubkey>) -> (r: Vec<Member>)
        ensures
            r.deep_view() == signer_members(self.members.deep_view(), signer_keys.deep_view()),
    {
        let len = self.members.len();
        let mut out: Vec<Member> = Vec::new();
        let mut i: usize = 0;
        while i < len
            invariant
                len == self.members@.len(),
                0 <= i <= len,
                out.deep_view() =~= signer_members(
                    self.members.deep_view().subrange(0, i as int),
                    signer_keys.deep_view(),
                ),
            decreases len - i,
        {
            proof {
                assert(self.members.deep_view().subrange(0, i + 1 as int).drop_last() =~= self
                    .members
                    .deep_view()
                    .subrange(0, i as int));
                assert(self.members.deep_view().subrange(0, i + 1 as int).last() == self
                    .members@[i as int]@);
            }
            if contains_key(signer_keys, &self.members[i].pubkey) {
                let m = &self.members[i];
                out.push(
                    Member {
                        pubkey: m.pubkey.dup(),
                        permissions: match &m.permissions {
                            Some(p) => Some(*p),
                            None => None,
                        },
                    },
                );
            }
            i = i + 1;
        }
        proof {
            assert(self.members.deep_view().subrange(0, len as int) =~= self.members.deep_view());
        }
        out
    }

    /// Verifies the wallet configuration invariant, reporting the first
    /// violated clause.
    pub fn check_state_validity(threshold: &u8, members: &Vec<Member>) -> (r: Result<
        (),
        MultisigError,
    >)
        ensures
            r is Ok <==> spec_valid_config(*threshold, members.deep_view()),
            r is Err ==> r->Err_0 == spec_config_error(*threshold, members.deep_view()),
    {
        let member_count = members.len();
        if member_count == 0 {
            return Err(MultisigError::EmptyMembers);
        }
        if member_count > MAX_MEMBERS {
            return Err(MultisigError::TooManyMembers);
        }
        if *threshold == 0 {
            return Err(MultisigError::InvalidThreshold);
        }
        if (*threshold as usize) > member_count {
            return Err(MultisigError::InvalidThreshold);
        }
        if has_duplicate_member(members) {
            return Err(MultisigError::DuplicateMember);
        }
        if *threshold > MAX_THRESHOLD {
            return Err(MultisigError::ThresholdTooHigh);
        }
        let transaction_voters = count_members_with(members, Permission::VoteTransaction);
        let escrow_voters = count_members_with(members, Permission::VoteEscrow);
        if (*threshold as usize) > transaction_voters {
            return Err(MultisigError::InsufficientSignersWithVotePermission);
        }
        if (*threshold as usize) > escrow_voters {
            return Err(MultisigError::InsufficientSignersWithVotePermission);
        }
        let transaction_initiators = count_members_with(members, Permission::InitiateTransaction);
        let escrow_initiators = count_members_with(members, Permission::InitiateEscrow);
        if transaction_initiators < 1 {
            return Err(MultisigError::InsufficientSignerWithInitiatePermission);
        }
        if escrow_initiators < 1 {
            return Err(MultisigError::InsufficientSignerWithInitiatePermission);
        }
        let transaction_executors = count_members_with(members, Permission::ExecuteTransaction);
        let escrow_executors = count_members_with(members, Permission::ExecuteEscrow);
        if transaction_executors < 1 {
            return Err(MultisigError::InsufficientSignerWithExecutePermission);
        }
        if escrow_executors < 1 {
            return Err(MultisigError::InsufficientSignerWithExecutePermission);
        }
        Ok(())
    }

    /// Appends the new members to the member list.
    pub fn add_members(&mut self, new_members: Vec<Member>)
        ensures
            final(self).members@ == old(self).members@ + new_members@,
            unchanged_but_members(*old(self), *final(self)),
    {
        let mut rest = new_members;
        self.members.append(&mut rest);
    }

    /// Removes every member whose address is listed.
    pub fn remove_members(&mut self, member_pubkeys: Vec<Pubkey>)
        ensures
            final(self).members.deep_view() == retain_members(
                old(self).members.deep_view(),
                member_pubkeys.deep_view(),
            ),
            unchanged_but_members(*old(self), *final(self)),
    {
        let len = self.members.len();
        let mut kept: Vec<Member> = Vec::new();
        let mut i: usize = 0;
        while i < len
            invariant
                len == self.members@.len(),
                0 <= i <= len,
                kept.deep_view() =~= retain_members(
                    self.members.deep_view().subrange(0, i as int),
                    member_pubkeys.deep_view(),
                ),
                unchanged_but_members(*old(self), *self),
                self.members@ == old(self).members@,
            decreases len - i,
        {
            proof {
                assert(self.members.deep_view().subrange(0, i + 1 as int).drop_last() =~= self
                    .members
                    .deep_view()
                    .subrange(0, i as int));
                assert(self.members.deep_view().subrange(0, i + 1 as int).last() == self
                    .members@[i as int]@);
            }
            if !contains_key(&member_pubkeys, &self.members[i].pubkey) {
                let m = &self.members[i];
                kept.push(
                    Member {
                        pubkey: m.pubkey.dup(),
                        permissions: match &m.permissions {
                            Some(p) => Some(*p),
                            None => None,
                        },
                    },
                );
            }
            i = i + 1;
        }
        proof {
            assert(self.members.deep_view().subrange(0, len as int) =~= self.members.deep_view());
        }
        self.members = kept;
    }

    /// Replaces the member list.
    pub fn set_members(&mut self, new_members: Vec<Member>)
        ensures
            final(self).members == new_members,
            unchanged_but_members(*old(self), *final(self)),
    {
        self.members = new_members;
    }

    /// Replaces the threshold.
    pub fn set_threshold(&mut self, new_threshold: u8)
        ensures
            final(self).threshold == new_threshold,
            final(self).create_key == old(self).create_key,
            final(self).bump == old(self).bump,
            final(self).members == old(self).members,
            final(self).pending_offers == old(self).pending_offers,
            final(self).metadata == old(self).metadata,
    {
        self.threshold = new_threshold;
    }

    /// Replaces the metadata reference.
    pub fn set_metadata(&mut self, metadata: Option<Pubkey>)
        ensures
            final(self).metadata == metadata,
            final(self).create_key == old(self).create_key,
            final(self).threshold == old(self).threshold,
            final(self).bump == old(self).bump,
            final(self).members == old(self).members,
            final(self).pending_offers == old(self).pending_offers,
    {
        self.metadata = metadata;
    }

    /// Records an outstanding escrow offer.
    pub fn add_offer(&mut self, offer: Pubkey)
        ensures
            final(self).pending_offers@ == old(self).pending_offers@.push(offer),
            unchanged_but_offers(*old(self), *final(self)),
    {
        self.pending_offers.push(offer);
    }

    /// Forgets the offer with the given address, if it is recorded.
    pub fn remove_offer(&mut self, offer: Pubkey)
        ensures
            final(self).pending_offers.deep_view() == retain_offers(
                old(self).pending_offers.deep_view(),
                offer@,
            ),
            unchanged_but_offers(*old(self), *final(self)),
    {
        let len = self.pending_offers.len();
        let mut kept: Vec<Pubkey> = Vec::new();
        let mut i: usize = 0;
        while i < len
            invariant
                len == self.pending_offers@.len(),
                0 <= i <= len,
                kept.deep_view() =~= retain_offers(
                    self.pending_offers.deep_view().subrange(0, i as int),
                    offer@,
                ),
                unchanged_but_offers(*old(self), *self),
                self.pending_offers@ == old(self).pending_offers@,
            decreases len - i,
        {
            proof {
                assert(self.pending_offers.deep_view().subrange(0, i + 1 as int).drop_last()
                    =~= self.pending_offers.deep_view().subrange(0, i as int));
                assert(self.pending_offers.deep_view().subrange(0, i + 1 as int).last() == self
                    .pending_offers@[i as int]@);
            }
            if !self.pending_offers[i].eq_key(&offer) {
                kept.push(self.pending_offers[i].dup());
            }
            i = i + 1;
        }
        proof {
            assert(self.pending_offers.deep_view().subrange(0, len as int) =~= self
                .pending_offers
                .deep_view());
        }
        self.pending_offers = kept;
    }

    /// Forgets every outstanding offer.
    pub fn clear_pending_offers(&mut self)
        ensures
            final(self).pending_offers@.len() == 0,
            unchanged_but_offers(*old(self), *final(self)),
    {
        self.pending_offers = Vec::new();
    }
}

/// Everything but the member list is unchanged.
pub open spec fn unchanged_but_members(before: MultiWallet, after: MultiWallet) -> bool {
    &&& after.create_key == before.create_key
    &&& after.threshold == before.threshold
    &&& after.bump == before.bump
    &&& after.pending_offers == before.pending_offers
    &&& after.metadata == before.metadata
}

/// Everything but the pending offers is unchanged.
pub open spec fn unchanged_but_offers(before: MultiWallet, after: MultiWallet) -> bool {
    &&& after.create_key == before.create_key
    &&& after.threshold == before.threshold
    &&& after.bump == before.bump
    &&& after.members == before.members
    &&& after.metadata == before.metadata
}

/// The members whose address is among the signers, in list order.
pub open spec fn signer_members(members: Seq<MemberV>, signers: Seq<Seq<u8>>) -> Seq<MemberV>
    decreases members.len(),
{
    if members.len() == 0 {
        Seq::empty()
    } else {
        let rest = signer_members(members.drop_last(), signers);
        if key_in(signers, members.last().pubkey) {
            rest.push(members.last())
        } else {
            rest
        }
    }
}

/// The members whose address is not among the removed keys, in list order.
pub open spec fn retain_members(members: Seq<MemberV>, removed: Seq<Seq<u8>>) -> Seq<MemberV>
    decreases members.len(),
{
    if members.len() == 0 {
        Seq::empty()
    } else {
        let rest = retain_members(members.drop_last(), removed);
        if key_in(removed, members.last().pubkey) {
            rest
        } else {
            rest.push(members.last())
        }
    }
}

/// The offers other than the removed one, in list order.
pub open spec fn retain_offers(offers: Seq<Seq<u8>>, removed: Seq<u8>) -> Seq<Seq<u8>>
    decreases offers.len(),
{
    if offers.len() == 0 {
        Seq::empty()
    } else {
        let rest = retain_offers(offers.drop_last(), removed);
        if offers.last() == removed {
            rest
        } else {
            rest.push(offers.last())
        }
    }
}

/// An owned copy of a member.
pub fn dup_member(m: &Member) -> (r: Member)
    ensures
        r@ == m@,
{
    Member {
        pubkey: m.pubkey.dup(),
        permissions: match &m.permissions {
            Some(p) => Some(*p),
            None => None,
        },
    }
}

/// An owned copy of a member list.
pub fn dup_members(members: &Vec<Member>) -> (r: Vec<Member>)
    ensures
        r.deep_view() == members.deep_view(),
{
    let len = members.len();
    let mut out: Vec<Member> = Vec::new();
    let mut i: usize = 0;
    while i < len
        invariant
            len == members@.len(),
            0 <= i <= len,
            out.deep_view() =~= members.deep_view().subrange(0, i as int),
        decreases len - i,
    {
        let ghost before = out.deep_view();
        out.push(dup_member(&members[i]));
        proof {
            assert(out.deep_view() =~= before.push(members@[i as int]@));
            assert(members.deep_view().subrange(0, i + 1 as int) =~= members
                .deep_view()
                .subrange(0, i as int)
                .push(members@[i as int]@));
        }
        i = i + 1;
    }
    proof {
        assert(members.deep_view().subrange(0, len as int) =~= members.deep_view());
    }
    out
}

/// Whether two members of the list share an address.
fn has_duplicate_member(members: &Vec<Member>) -> (r: bool)
    ensures
        r == !unique_keys(members.deep_view()),
{
    let len = members.len();
    let mut i: usize = 0;
    while i < len
        invariant
            len == members@.len(),
            0 <= i <= len,
            forall|a: int, b: int|
                0 <= a < b < i ==> members.deep_view()[a].pubkey != members.deep_view()[b].pubkey,
        decreases len - i,
    {
        let mut j: usize = 0;
        while j < i
            invariant
                len == members@.len(),
                0 <= j <= i < len,
                forall|b: int| 0 <= b < j ==> members.deep_view()[b].pubkey != members.deep_view()[i as int].pubkey,
            decreases i - j,
        {
            if members[j].pubkey.eq_key(&members[i].pubkey) {
                assert(members.deep_view()[j as int].pubkey == members.deep_view()[i as int].pubkey);
                assert(!unique_keys(members.deep_view()));
                return true;
            }
            j = j + 1;
        }
        i = i + 1;
    }
    false
}

} // verus!
