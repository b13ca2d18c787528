//! Wallet creation and configuration changes: a quorum-gated, all-or-nothing
//! batch of member, threshold and metadata edits, locked out while an escrow
//! offer is outstanding, and re-validated against the wallet invariant.

use vstd::prelude::*;

use crate::error::MultisigError;
use crate::pubkey::{dup_opt_key, opt_key_view, Pubkey};
use crate::state::events::ConfigEvent;
use crate::state::multi_wallet::{
    count_with, dup_member, dup_members, retain_members, signer_members, spec_config_error,
    spec_is_durable_nonce, spec_valid_config, ConfigAction, IntrospectedInstruction, Member,
    MemberV, MultiWallet, MultiWalletV, Permission,
};
use crate::state::multi_wallet::count_members_with;

verus! {

/// The part of a wallet configuration that a configuration batch can edit.
pub struct ConfigState {
    pub members: Seq<MemberV>,
    pub threshold: u8,
    pub metadata: Option<Seq<u8>>,
}

/// The editable part of a wallet's configuration.
pub open spec fn config_of(w: MultiWalletV) -> ConfigState {
    ConfigState { members: w.members, threshold: w.threshold, metadata: w.metadata }
}

/// One edit applied to a configuration.
pub open spec fn apply_action(s: ConfigState, a: ConfigAction) -> ConfigState {
    match a {
        ConfigAction::SetMembers(v) => ConfigState {
            members: v.deep_view(),
            threshold: s.threshold,
            metadata: s.metadata,
        },
        ConfigAction::AddMembers(v) => ConfigState {
            members: s.members + v.deep_view(),
            threshold: s.threshold,
            metadata: s.metadata,
        },
        ConfigAction::RemoveMembers(keys) => ConfigState {
            members: retain_members(s.members, keys.deep_view()),
            threshold: s.threshold,
            metadata: s.metadata,
        },
        ConfigAction::SetThreshold(t) => ConfigState {
            members: s.members,
            threshold: t,
            metadata: s.metadata,
        },
        ConfigAction::SetMetadata(m) => ConfigState {
            members: s.members,
            threshold: s.threshold,
            metadata: opt_key_view(m),
        },
    }
}

/// A batch of edits applied in order.
pub open spec fn apply_actions(s: ConfigState, actions: Seq<ConfigAction>) -> ConfigState
    decreases actions.len(),
{
    if actions.len() == 0 {
        s
    } else {
        apply_action(apply_actions(s, actions.drop_last()), actions.last())
    }
}

/// Why a configuration change is rejected, or `None` when it succeeds,
/// testing the conditions in the order the operation tests them: the
/// replay-risk check first, then the transaction-class quorum of the
/// signers, then the escrow lock, and last the invariant of the edited
/// configuration.
pub open spec fn spec_change_config_error(
    wallet: MultiWalletV,
    actions: Seq<ConfigAction>,
    signers: Seq<Seq<u8>>,
    ix: IntrospectedInstruction,
) -> Option<MultisigError> {
    let signed = signer_members(wallet.members, signers);
    let s = apply_actions(config_of(wallet), actions);
    if spec_is_durable_nonce(ix) {
        Some(MultisigError::DurableNonceDetected)
    } else if count_with(signed, Permission::InitiateTransaction) < 1 {
        Some(MultisigError::InsufficientSignerWithInitiatePermission)
    } else if wallet.threshold > count_with(signed, Permission::VoteTransaction) {
        Some(MultisigError::NotEnoughSigners)
    } else if count_with(signed, Permission::ExecuteTransaction) < 1 {
        Some(MultisigError::InsufficientSignerWithExecutePermission)
    } else if wallet.pending_offers.len() != 0 {
        Some(MultisigError::MultisigIsCurrentlyLocked)
    } else if !spec_valid_config(s.threshold, s.members) {
        Some(spec_config_error(s.threshold, s.members))
    } else {
        None
    }
}

/// The event mirrors the wallet's committed configuration exactly.
pub open spec fn config_event_mirrors(event: ConfigEvent, wallet: MultiWalletV) -> bool {
    &&& event.create_key@ == wallet.create_key
    &&& event.members.deep_view() == wallet.members
    &&& event.threshold == wallet.threshold
    &&& opt_key_view(event.metadata) == wallet.metadata
}

/// Creates a new wallet owned by `create_key` alone, with threshold 1.
///
/// Succeeds exactly when that single-member configuration satisfies the
/// wallet invariant, i.e. when the member holds every capability class.
pub fn create(create_key: Member, metadata: Option<Pubkey>, bump: u8) -> (r: Result<
    (MultiWallet, ConfigEvent),
    MultisigError,
>)
    ensures
        r is Ok <==> spec_valid_config(1u8, seq![create_key@]),
        r matches Err(e) ==> e == spec_config_error(1u8, seq![create_key@]),
        r matches Ok((wallet, event)) ==> {
            &&& wallet@.create_key == create_key.pubkey@
            &&& wallet@.threshold == 1u8
            &&& wallet@.bump == bump
            &&& wallet@.members =~= seq![create_key@]
            &&& wallet@.pending_offers.len() == 0
            &&& wallet@.metadata == opt_key_view(metadata)
            &&& wallet.spec_valid()
            &&& config_event_mirrors(event, wallet@)
        },
{
    let threshold: u8 = 1;
    let mut members: Vec<Member> = Vec::new();
    members.push(dup_member(&create_key));
    proof {
        assert(members.deep_view() =~= seq![create_key@]);
    }
    match MultiWallet::check_state_validity(&threshold, &members) {
        Ok(()) => {}
        Err(e) => {
            return Err(e);
        },
    }
    let wallet = MultiWallet {
        create_key: create_key.pubkey,
        threshold,
        bump,
        members,
        pending_offers: Vec::new(),
        metadata,
    };
    let event = ConfigEvent {
        create_key: wallet.create_key.dup(),
        members: dup_members(&wallet.members),
        threshold: wallet.threshold,
        metadata: dup_opt_key(&wallet.metadata),
    };
    proof {
        assert(wallet@.pending_offers =~= Seq::<Seq<u8>>::empty());
    }
    Ok((wallet, event))
}

/// Applies a batch of configuration edits to the wallet.
///
/// The batch is all-or-nothing: access control runs first (replay-risk
/// check, then the transaction-class quorum of the call's signers, then the
/// escrow lock), the edits are applied in order to a scratch configuration,
/// and only a result that satisfies the wallet invariant is committed. On
/// any fault the wallet is unchanged.
pub fn change_config(
    wallet: &mut MultiWallet,
    config_actions: Vec<ConfigAction>,
    signer_keys: &Vec<Pubkey>,
    first_instruction: &IntrospectedInstruction,
) -> (r: Result<ConfigEvent, MultisigError>)
    ensures
        match r {
            Ok(event) => {
                let s = apply_actions(config_of(old(wallet)@), config_actions@);
                &&& spec_change_config_error(
                    old(wallet)@,
                    config_actions@,
                    signer_keys.deep_view(),
                    *first_instruction,
                ) is None
                &&& final(wallet)@.members == s.members
                &&& final(wallet)@.threshold == s.threshold
                &&& final(wallet)@.metadata == s.metadata
                &&& final(wallet)@.create_key == old(wallet)@.create_key
                &&& final(wallet)@.bump == old(wallet)@.bump
                &&& final(wallet)@.pending_offers == old(wallet)@.pending_offers
                &&& final(wallet).spec_valid()
                &&& config_event_mirrors(event, final(wallet)@)
            },
            Err(e) => {
                &&& *final(wallet) == *old(wallet)
                &&& Some(e) == spec_change_config_error(
                    old(wallet)@,
                    config_actions@,
                    signer_keys.deep_view(),
                    *first_instruction,
                )
            },
        },
{
    match MultiWallet::durable_nonce_check(first_instruction) {
        Ok(()) => {}
        Err(e) => {
            return Err(e);
        },
    }
    let signed = wallet.get_unique_signers(signer_keys);
    if count_members_with(&signed, Permission::InitiateTransaction) < 1 {
        return Err(MultisigError::InsufficientSignerWithInitiatePermission);
    }
    if (wallet.threshold as usize) > count_members_with(&signed, Permission::VoteTransaction) {
        return Err(MultisigError::NotEnoughSigners);
    }
    if count_members_with(&signed, Permission::ExecuteTransaction) < 1 {
        return Err(MultisigError::InsufficientSignerWithExecutePermission);
    }
    if wallet.pending_offers.len() != 0 {
        return Err(MultisigError::MultisigIsCurrentlyLocked);
    }

    let ghost init = config_of(wallet@);
    let ghost all_actions = config_actions@;
    let mut members = dup_members(&wallet.members);
    let mut threshold = wallet.threshold;
    let mut metadata = dup_opt_key(&wallet.metadata);
    let mut actions = config_actions;
    let mut k: usize = 0;
    let n = actions.len();
    while k < n
        invariant
            n == all_actions.len(),
            0 <= k <= n,
            actions@ == all_actions,
            ({
                let s = apply_actions(init, all_actions.subrange(0, k as int));
                &&& members.deep_view() == s.members
                &&& threshold == s.threshold
                &&& opt_key_view(metadata) == s.metadata
            }),
        decreases n - k,
    {
        proof {
            assert(all_actions.subrange(0, k + 1 as int).drop_last() =~= all_actions.subrange(
                0,
                k as int,
            ));
            assert(all_actions.subrange(0, k + 1 as int).last() == all_actions[k as int]);
        }
        let action = &actions[k];
        match action {
            ConfigAction::SetMembers(v) => {
                members = dup_members(v);
            },
            ConfigAction::AddMembers(v) => {
                let mut added = dup_members(v);
                let ghost before = members.deep_view();
                members.append(&mut added);
                proof {
                    assert(members.deep_view() =~= before + v.deep_view());
                }
            },
            ConfigAction::RemoveMembers(keys) => {
                members = retain_members_vec(&members, keys);
            },
            ConfigAction::SetThreshold(t) => {
                threshold = *t;
            },
            ConfigAction::SetMetadata(m) => {
                metadata = dup_opt_key(m);
            },
        }
        k = k + 1;
    }
    proof {
        assert(all_actions.subrange(0, n as int) =~= all_actions);
    }
    match MultiWallet::check_state_validity(&threshold, &members) {
        Ok(()) => {}
        Err(e) => {
            return Err(e);
        },
    }
    wallet.members = members;
    wallet.threshold = threshold;
    wallet.metadata = metadata;
    let event = ConfigEvent {
        create_key: wallet.create_key.dup(),
        members: dup_members(&wallet.members),
        threshold: wallet.threshold,
        metadata: dup_opt_key(&wallet.metadata),
    };
    Ok(event)
}

/// The members whose address is not among the removed keys, in list order.
fn retain_members_vec(members: &Vec<Member>, removed: &Vec<Pubkey>) -> (r: Vec<Member>)
    ensures
        r.deep_view() == retain_members(members.deep_view(), removed.deep_view()),
{
    let len = members.len();
    let mut kept: Vec<Member> = Vec::new();
    let mut i: usize = 0;
    while i < len
        invariant
            len == members@.len(),
            0 <= i <= len,
            kept.deep_view() =~= retain_members(
                members.deep_view().subrange(0, i as int),
                removed.deep_view(),
            ),
        decreases len - i,
    {
        proof {
            assert(members.deep_view().subrange(0, i + 1 as int).drop_last() =~= members
                .deep_view()
                .subrange(0, i as int));
            assert(members.deep_view().subrange(0, i + 1 as int).last() == members@[i as int]@);
        }
        if !crate::state::multi_wallet::contains_key(removed, &members[i].pubkey) {
            kept.push(dup_member(&members[i]));
        }
        i = i + 1;
    }
    proof {
        assert(members.deep_view().subrange(0, len as int) =~= members.deep_view());
    }
    kept
}

} // verus!
