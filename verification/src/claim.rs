//! Admission of a claim.
//!
//! A claim passes these checks in this order, and the first that fails
//! decides: the grant is not paused; the request fits the grant's allowlist;
//! the transaction carries, right before the claim, a signature instruction
//! of the registered signer over a proof message for this grant, recipient
//! and period; the message extends the recorded hash chain; the proof is
//! fresh; the period is the running one; the vault holds the amount; and no
//! receipt exists yet for this grant, recipient and period. Only a claim that
//! passes all of them changes anything: the chain record moves on and the
//! receipt is written, and the caller is told the amount to pay out.

use vstd::prelude::*;
use crate::bytes::{all_zero, bytes32_eq, bytes32_is_zero, Pubkey};
use crate::chain::{advanced, chain_error, verify_and_advance};
use crate::error::ErrorCode;
use crate::merkle::{allowlist_leaf, allowlist_leaf_spec, merkle_fold, verify_merkle_sorted};
use crate::message::{
    canonical, expected_entry_hash, lemma_parse_wire_bytes, parse_pop_message,
    parse_pop_message_spec, wire_bytes, PopProofMessage,
};
use crate::signature::{load_signed_message, signed_message_spec, InstructionsSysvar};
use crate::state::{
    has_receipt, receipts_unique, ClaimReceipt, Grant, PopConfig, PopState, ReceiptStore,
};
use crate::timing::{claim_timing_error, require_claim_timing, require_fresh_proof, skew_error};

verus! {

/// Everything that one claim reads and writes.
#[derive(Clone, Debug, PartialEq, Eq)]
pub struct ClaimGrant {
    /// Address of the grant.
    pub grant_key: Pubkey,
    /// The grant.
    pub grant: Grant,
    /// Balance of the grant's vault.
    pub vault_amount: u64,
    /// The recipient who claims.
    pub claimer: Pubkey,
    /// The receipts written so far.
    pub receipts: ReceiptStore,
    /// The chain record of the grant.
    pub pop_state: PopState,
    /// The signer registered by the grant's authority.
    pub pop_config: PopConfig,
    /// The instructions of the transaction that carries the claim.
    pub instructions_sysvar: InstructionsSysvar,
}

/// The proof message that comes with a claim, or why there is none that can
/// be used: the signature instruction has to be there, the signer has to be
/// the registered one, the message has to decode, and it has to name the
/// grant, the recipient and the period of the claim.
pub open spec fn bound_message_spec(accounts: ClaimGrant, period_index: u64) -> Result<
    PopProofMessage,
    ErrorCode,
> {
    match signed_message_spec(accounts.instructions_sysvar) {
        Err(e) => Err(e),
        Ok((signer, bytes)) => if signer != accounts.pop_config.signer_pubkey@ {
            Err(ErrorCode::InvalidPopSigner)
        } else {
            match parse_pop_message_spec(bytes) {
                Err(e) => Err(e),
                Ok(m) => if m.grant != accounts.grant_key {
                    Err(ErrorCode::PopProofGrantMismatch)
                } else if m.claimer != accounts.claimer {
                    Err(ErrorCode::PopProofClaimerMismatch)
                } else if m.period_index != period_index {
                    Err(ErrorCode::PopProofPeriodMismatch)
                } else {
                    Ok(m)
                },
            }
        },
    }
}

/// The chain record after the proof of a claim was accepted, or why the
/// proof is refused: the message has to be there, it has to extend the
/// chain, and it has to be fresh at `now`.
pub open spec fn pop_proof_spec(
    accounts: ClaimGrant,
    period_index: u64,
    now: i64,
    bump: u8,
) -> Result<PopState, ErrorCode> {
    match bound_message_spec(accounts, period_index) {
        Err(e) => Err(e),
        Ok(m) => match chain_error(accounts.pop_state, accounts.grant_key, m) {
            Some(e) => Err(e),
            None => match skew_error(now, m.issued_at) {
                Some(e) => Err(e),
                None => Ok(advanced(accounts.pop_state, accounts.grant_key, m, bump)),
            },
        },
    }
}

/// Why a request does not fit the grant's allowlist, if it does not. A grant
/// with an all-zero root has no allowlist and takes no membership proof. Any
/// other grant takes only claims with a proof that leads from the
/// recipient's leaf to the root: a claim without a proof is as little on the
/// allowlist as one with a proof that leads elsewhere.
pub open spec fn allowlist_error(
    grant: Grant,
    claimer: Pubkey,
    merkle_proof: Option<Seq<[u8; 32]>>,
) -> Option<ErrorCode> {
    match merkle_proof {
        None => if all_zero(grant.merkle_root@) {
            None
        } else {
            Some(ErrorCode::NotInAllowlist)
        },
        Some(path) => if all_zero(grant.merkle_root@) {
            Some(ErrorCode::AllowlistNotEnabled)
        } else if merkle_fold(allowlist_leaf_spec(claimer), path) != grant.merkle_root {
            Some(ErrorCode::NotInAllowlist)
        } else {
            None
        },
    }
}

/// The chain record after a claim was settled, or why it is refused, for a
/// claim that fits the grant's allowlist: the proof has to hold, the period
/// has to be the running one, the vault has to hold the amount, and there
/// may be no receipt yet.
pub open spec fn settle_spec(ctx: ClaimGrant, period_index: u64, now: i64, bump: u8) -> Result<
    PopState,
    ErrorCode,
> {
    match pop_proof_spec(ctx, period_index, now, bump) {
        Err(e) => Err(e),
        Ok(next) => if claim_timing_error(ctx.grant, now, period_index) is Some {
            Err(claim_timing_error(ctx.grant, now, period_index)->Some_0)
        } else if ctx.vault_amount < ctx.grant.amount_per_period {
            Err(ErrorCode::InsufficientFunds)
        } else if has_receipt(ctx.receipts@, ctx.grant_key, ctx.claimer, period_index) {
            Err(ErrorCode::AlreadyClaimed)
        } else {
            Ok(next)
        },
    }
}

/// The chain record after a claim was admitted, or why the claim is
/// refused.
pub open spec fn claim_spec(
    ctx: ClaimGrant,
    period_index: u64,
    merkle_proof: Option<Seq<[u8; 32]>>,
    now: i64,
    bump: u8,
) -> Result<PopState, ErrorCode> {
    if ctx.grant.paused {
        Err(ErrorCode::Paused)
    } else if allowlist_error(ctx.grant, ctx.claimer, merkle_proof) is Some {
        Err(allowlist_error(ctx.grant, ctx.claimer, merkle_proof)->Some_0)
    } else {
        settle_spec(ctx, period_index, now, bump)
    }
}

/// What an admitted claim changes: the chain record becomes `next`, and the
/// receipt of the claim is added. Everything else stays.
pub open spec fn claim_effect(
    pre: ClaimGrant,
    post: ClaimGrant,
    period_index: u64,
    now: i64,
    next: PopState,
) -> bool {
    &&& post.pop_state == next
    &&& post.receipts@ == pre.receipts@.push(
        ClaimReceipt {
            grant: pre.grant_key,
            claimer: pre.claimer,
            period_index,
            claimed_at: now,
        },
    )
    &&& post.grant_key == pre.grant_key
    &&& post.grant == pre.grant
    &&& post.vault_amount == pre.vault_amount
    &&& post.claimer == pre.claimer
    &&& post.pop_config == pre.pop_config
    &&& post.instructions_sysvar == pre.instructions_sysvar
}

/// Checks the proof of process of a claim and tells the chain record that
/// follows. Nothing is changed.
pub fn check_pop_proof(
    accounts: &ClaimGrant,
    period_index: u64,
    now: i64,
    pop_state_bump: u8,
) -> (r: Result<PopState, ErrorCode>)
    ensures
        r == pop_proof_spec(*accounts, period_index, now, pop_state_bump),
{
    let (signer_pubkey, message_bytes) = load_signed_message(&accounts.instructions_sysvar)?;
    if !bytes32_eq(&signer_pubkey, &accounts.pop_config.signer_pubkey) {
        return Err(ErrorCode::InvalidPopSigner);
    }
    let message: PopProofMessage = parse_pop_message(message_bytes.as_slice())?;
    if !bytes32_eq(&message.grant, &accounts.grant_key) {
        return Err(ErrorCode::PopProofGrantMismatch);
    }
    if !bytes32_eq(&message.claimer, &accounts.claimer) {
        return Err(ErrorCode::PopProofClaimerMismatch);
    }
    if message.period_index != period_index {
        return Err(ErrorCode::PopProofPeriodMismatch);
    }
    let mut next: PopState = accounts.pop_state;
    verify_and_advance(&mut next, &accounts.grant_key, &message, pop_state_bump)?;
    require_fresh_proof(now, message.issued_at)?;
    Ok(next)
}

/// Checks the proof of process of a claim and moves the chain record on.
/// A proof that is refused changes nothing.
pub fn verify_and_record_pop_proof(
    accounts: &mut ClaimGrant,
    period_index: u64,
    now: i64,
    pop_state_bump: u8,
) -> (r: Result<(), ErrorCode>)
    ensures
        match pop_proof_spec(*old(accounts), period_index, now, pop_state_bump) {
            Ok(next) => r is Ok && *final(accounts) == (ClaimGrant {
                pop_state: next,
                ..*old(accounts)
            }),
            Err(e) => r == Err::<(), ErrorCode>(e) && *final(accounts) == *old(accounts),
        },
{
    let next: PopState = check_pop_proof(accounts, period_index, now, pop_state_bump)?;
    accounts.pop_state = next;
    Ok(())
}

/// The amount to move out of a vault that holds `vault_amount`, which is
/// `amount` where the vault holds that much.
pub fn transfer_from_vault(vault_amount: u64, amount: u64) -> (r: Result<u64, ErrorCode>)
    ensures
        r == (if vault_amount >= amount {
            Ok::<u64, ErrorCode>(amount)
        } else {
            Err::<u64, ErrorCode>(ErrorCode::InsufficientFunds)
        }),
{
    if vault_amount >= amount {
        Ok(amount)
    } else {
        Err(ErrorCode::InsufficientFunds)
    }
}

/// Writes the receipt of a claim. A second receipt for the same grant,
/// recipient and period is refused, and the store stays as it is.
pub fn record_receipt(
    receipts: &mut ReceiptStore,
    grant: Pubkey,
    claimer: Pubkey,
    period_index: u64,
    claimed_at: i64,
) -> (r: Result<(), ErrorCode>)
    ensures
        r == (if has_receipt(old(receipts)@, grant, claimer, period_index) {
            Err::<(), ErrorCode>(ErrorCode::AlreadyClaimed)
        } else {
            Ok::<(), ErrorCode>(())
        }),
        r is Ok ==> final(receipts)@ == old(receipts)@.push(
            ClaimReceipt { grant, claimer, period_index, claimed_at },
        ),
        r is Err ==> *final(receipts) == *old(receipts),
        receipts_unique(old(receipts)@) ==> receipts_unique(final(receipts)@),
{
    receipts.create(ClaimReceipt { grant, claimer, period_index, claimed_at })
}

/// Settles a claim that fits the grant's allowlist: the part that both kinds
/// of claim share.
fn settle_claim(ctx: &mut ClaimGrant, period_index: u64, now: i64, pop_state_bump: u8) -> (r:
    Result<u64, ErrorCode>)
    requires
        old(ctx).grant.wf(),
    ensures
        match settle_spec(*old(ctx), period_index, now, pop_state_bump) {
            Ok(next) => r == Ok::<u64, ErrorCode>(old(ctx).grant.amount_per_period)
                && claim_effect(*old(ctx), *final(ctx), period_index, now, next),
            Err(e) => r == Err::<u64, ErrorCode>(e) && *final(ctx) == *old(ctx),
        },
        receipts_unique(old(ctx).receipts@) ==> receipts_unique(final(ctx).receipts@),
{
    let next: PopState = check_pop_proof(ctx, period_index, now, pop_state_bump)?;
    require_claim_timing(&ctx.grant, now, period_index)?;
    let amount: u64 = transfer_from_vault(ctx.vault_amount, ctx.grant.amount_per_period)?;
    record_receipt(&mut ctx.receipts, ctx.grant_key, ctx.claimer, period_index, now)?;
    ctx.pop_state = next;
    Ok(amount)
}

/// Admits or refuses a claim that carries no membership proof. A grant with
/// an allowlist refuses it as not on the allowlist.
///
/// An admitted claim moves the chain record on, writes the receipt, and
/// returns the amount to pay out to the recipient. A refused claim changes
/// nothing.
pub fn claim_grant(ctx: &mut ClaimGrant, period_index: u64, now: i64, pop_state_bump: u8) -> (r:
    Result<u64, ErrorCode>)
    requires
        old(ctx).grant.wf(),
    ensures
        match claim_spec(*old(ctx), period_index, None, now, pop_state_bump) {
            Ok(next) => r == Ok::<u64, ErrorCode>(old(ctx).grant.amount_per_period)
                && claim_effect(*old(ctx), *final(ctx), period_index, now, next),
            Err(e) => r == Err::<u64, ErrorCode>(e) && *final(ctx) == *old(ctx),
        },
        receipts_unique(old(ctx).receipts@) ==> receipts_unique(final(ctx).receipts@),
{
    if ctx.grant.paused {
        return Err(ErrorCode::Paused);
    }
    if !bytes32_is_zero(&ctx.grant.merkle_root) {
        return Err(ErrorCode::NotInAllowlist);
    }
    settle_claim(ctx, period_index, now, pop_state_bump)
}

/// Admits or refuses a claim on a grant with an allowlist, where
/// `merkle_proof` is to lead from the recipient's leaf to the grant's root.
///
/// An admitted claim moves the chain record on, writes the receipt, and
/// returns the amount to pay out to the recipient. A refused claim changes
/// nothing.
pub fn claim_grant_with_proof(
    ctx: &mut ClaimGrant,
    period_index: u64,
    merkle_proof: Vec<[u8; 32]>,
    now: i64,
    pop_state_bump: u8,
) -> (r: Result<u64, ErrorCode>)
    requires
        old(ctx).grant.wf(),
    ensures
        match claim_spec(*old(ctx), period_index, Some(merkle_proof@), now, pop_state_bump) {
            Ok(next) => r == Ok::<u64, ErrorCode>(old(ctx).grant.amount_per_period)
                && claim_effect(*old(ctx), *final(ctx), period_index, now, next),
            Err(e) => r == Err::<u64, ErrorCode>(e) && *final(ctx) == *old(ctx),
        },
        receipts_unique(old(ctx).receipts@) ==> receipts_unique(final(ctx).receipts@),
{
    if ctx.grant.paused {
        return Err(ErrorCode::Paused);
    }
    if bytes32_is_zero(&ctx.grant.merkle_root) {
        return Err(ErrorCode::AllowlistNotEnabled);
    }
    let leaf: [u8; 32] = allowlist_leaf(ctx.claimer);
    if !verify_merkle_sorted(ctx.grant.merkle_root, leaf, merkle_proof.as_slice()) {
        return Err(ErrorCode::NotInAllowlist);
    }
    settle_claim(ctx, period_index, now, pop_state_bump)
}

/// Whether `m` is the message that the chain record waits for: the first of
/// a chain names all-zero hashes, every later one the recorded hashes of a
/// record that belongs to the grant.
pub open spec fn chain_matches(state: PopState, grant: Pubkey, m: PopProofMessage) -> bool {
    if state.initialized {
        state.grant == grant && state.last_global_hash == m.prev_hash && state.last_stream_hash
            == m.stream_prev_hash
    } else {
        all_zero(m.prev_hash@) && all_zero(m.stream_prev_hash@)
    }
}

/// A claim is admitted when nothing speaks against it: the grant is not
/// paused and the request fits its allowlist; the signature instruction
/// before the claim is one of the registered signer over the wire form of a
/// message of version 1 or 2 for this grant, recipient and period; the
/// message carries the hash of its fields (and in version 2 an audit hash)
/// and is the one that the chain record waits for; the proof was issued at
/// most `POP_MAX_SKEW_SECONDS` before or after `now`; the period is the
/// running one; the vault holds the amount; and there is no receipt yet.
/// The chain record then moves on to the entry hash of the message.
pub proof fn lemma_valid_claim_admitted(
    ctx: ClaimGrant,
    period_index: u64,
    merkle_proof: Option<Seq<[u8; 32]>>,
    now: i64,
    bump: u8,
    m: PopProofMessage,
)
    requires
        !ctx.grant.paused,
        allowlist_error(ctx.grant, ctx.claimer, merkle_proof) is None,
        signed_message_spec(ctx.instructions_sysvar) == Ok::<(Seq<u8>, Seq<u8>), ErrorCode>(
            (ctx.pop_config.signer_pubkey@, wire_bytes(m)),
        ),
        canonical(m),
        m.grant == ctx.grant_key,
        m.claimer == ctx.claimer,
        m.period_index == period_index,
        m.version == 2 ==> !all_zero(m.audit_hash@),
        m.entry_hash == expected_entry_hash(m),
        chain_matches(ctx.pop_state, ctx.grant_key, m),
        -600 <= now - m.issued_at <= 600,
        claim_timing_error(ctx.grant, now, period_index) is None,
        ctx.vault_amount >= ctx.grant.amount_per_period,
        !has_receipt(ctx.receipts@, ctx.grant_key, ctx.claimer, period_index),
    ensures
        claim_spec(ctx, period_index, merkle_proof, now, bump) == Ok::<PopState, ErrorCode>(
            advanced(ctx.pop_state, ctx.grant_key, m, bump),
        ),
        advanced(ctx.pop_state, ctx.grant_key, m, bump).last_global_hash == m.entry_hash,
        advanced(ctx.pop_state, ctx.grant_key, m, bump).last_stream_hash == m.entry_hash,
{
    lemma_parse_wire_bytes(m);
}

/// No claim is admitted for a grant, recipient and period that has a
/// receipt: whatever else the request holds, it is refused, and where
/// nothing else speaks against it, for the receipt.
pub proof fn lemma_claimed_period_rejected(
    ctx: ClaimGrant,
    period_index: u64,
    merkle_proof: Option<Seq<[u8; 32]>>,
    now: i64,
    bump: u8,
)
    requires
        has_receipt(ctx.receipts@, ctx.grant_key, ctx.claimer, period_index),
    ensures
        claim_spec(ctx, period_index, merkle_proof, now, bump) is Err,
        !ctx.grant.paused && allowlist_error(ctx.grant, ctx.claimer, merkle_proof) is None
            && pop_proof_spec(ctx, period_index, now, bump) is Ok && claim_timing_error(
            ctx.grant,
            now,
            period_index,
        ) is None && ctx.vault_amount >= ctx.grant.amount_per_period ==> claim_spec(
            ctx,
            period_index,
            merkle_proof,
            now,
            bump,
        ) == Err::<PopState, ErrorCode>(ErrorCode::AlreadyClaimed),
{
}

/// An admitted claim leaves its receipt, and receipts stay: after it, the
/// store has a receipt for the grant, recipient and period of the claim, as
/// it has for every one that it had before.
pub proof fn lemma_claim_leaves_receipt(
    pre: ClaimGrant,
    post: ClaimGrant,
    period_index: u64,
    now: i64,
    next: PopState,
)
    requires
        claim_effect(pre, post, period_index, now, next),
    ensures
        has_receipt(post.receipts@, post.grant_key, post.claimer, period_index),
        forall|grant: Pubkey, claimer: Pubkey, period: u64|
            has_receipt(pre.receipts@, grant, claimer, period) ==> has_receipt(
                post.receipts@,
                grant,
                claimer,
                period,
            ),
{
    let n = pre.receipts@.len() as int;
    assert(post.receipts@[n].is_for(post.grant_key, post.claimer, period_index));
    assert forall|grant: Pubkey, claimer: Pubkey, period: u64|
        has_receipt(pre.receipts@, grant, claimer, period) implies has_receipt(
        post.receipts@,
        grant,
        claimer,
        period,
    ) by {
        let i = choose|i: int|
            0 <= i < pre.receipts@.len() && (#[trigger] pre.receipts@[i]).is_for(
                grant,
                claimer,
                period,
            );
        assert(post.receipts@[i].is_for(grant, claimer, period));
    }
}

/// The request of an admitted claim, made once more, is refused, at whatever
/// time and for whatever message the signature instruction then holds.
///
/// Made again unchanged and at the same time, it is refused for the chain:
/// the record has moved on to the entry hash of its message, which the
/// message does not name as its predecessor. Only a message that names its
/// own entry hash twice gets as far as the receipt, and is refused for it.
pub proof fn lemma_replay_rejected(
    pre: ClaimGrant,
    post: ClaimGrant,
    period_index: u64,
    merkle_proof: Option<Seq<[u8; 32]>>,
    now: i64,
    bump: u8,
    again_at: i64,
    again_bump: u8,
)
    requires
        claim_spec(pre, period_index, merkle_proof, now, bump) is Ok,
        claim_effect(
            pre,
            post,
            period_index,
            now,
            claim_spec(pre, period_index, merkle_proof, now, bump)->Ok_0,
        ),
    ensures
        claim_spec(post, period_index, merkle_proof, again_at, again_bump) is Err,
        bound_message_spec(pre, period_index) matches Ok(m) && claim_spec(
            post,
            period_index,
            merkle_proof,
            now,
            again_bump,
        ) == Err::<PopState, ErrorCode>(
            if m.prev_hash != m.entry_hash {
                ErrorCode::PopHashChainBroken
            } else if m.stream_prev_hash != m.entry_hash {
                ErrorCode::PopStreamChainBroken
            } else {
                ErrorCode::AlreadyClaimed
            },
        ),
{
    let next = claim_spec(pre, period_index, merkle_proof, now, bump)->Ok_0;
    lemma_claim_leaves_receipt(pre, post, period_index, now, next);
    lemma_claimed_period_rejected(post, period_index, merkle_proof, again_at, again_bump);
    assert(bound_message_spec(post, period_index) == bound_message_spec(pre, period_index));
}

} // verus!
