//! The hash chain of proof messages.
//!
//! Every accepted message names the entry hash of the one accepted before it,
//! once for the global chain and once for the recipient's stream, and the
//! record of the chain moves on to the entry hash of the new message. The
//! first message of a chain names all-zero hashes. A message that does not
//! fit is refused, and the record is never set back or repaired.

use vstd::prelude::*;
use crate::bytes::{
    all_zero, bytes32_eq, bytes32_is_zero, i64_to_le, lemma_i64_le_round_trip,
    lemma_u64_le_round_trip, u64_to_le, Pubkey,
};
use crate::error::ErrorCode;
use crate::hashing::{sha256_collides, sha256_collision};
use crate::message::{
    entry_preimage, expected_entry_hash, known_version, pop_entry_hash, PopProofMessage,
    POP_DOMAIN_V1, POP_DOMAIN_V2, POP_MESSAGE_VERSION_V2,
};
use crate::state::PopState;

verus! {

/// Why `m` does not extend the chain recorded in `state` for `grant`, if it
/// does not, where `expected` is the entry hash that the fields of `m` call
/// for. The entry hash of `m` has to be that hash; then either the record
/// belongs to the grant and both its hashes are the previous hashes of `m`,
/// or, while nothing is recorded, both previous hashes are zero.
pub open spec fn chain_error_given(
    state: PopState,
    grant: Pubkey,
    m: PopProofMessage,
    expected: [u8; 32],
) -> Option<ErrorCode> {
    if m.entry_hash != expected {
        Some(ErrorCode::PopEntryHashMismatch)
    } else if state.initialized {
        if state.grant != grant {
            Some(ErrorCode::PopStateGrantMismatch)
        } else if state.last_global_hash != m.prev_hash {
            Some(ErrorCode::PopHashChainBroken)
        } else if state.last_stream_hash != m.stream_prev_hash {
            Some(ErrorCode::PopStreamChainBroken)
        } else {
            None
        }
    } else if !all_zero(m.prev_hash@) || !all_zero(m.stream_prev_hash@) {
        Some(ErrorCode::PopGenesisMismatch)
    } else {
        None
    }
}

/// Why `m` does not extend the chain recorded in `state` for `grant`, if it
/// does not. The checks come in this order: a version 2 message has an audit
/// hash; the version is known; the entry hash is the hash of the fields; the
/// message is the one that the record waits for.
pub open spec fn chain_error(state: PopState, grant: Pubkey, m: PopProofMessage) -> Option<
    ErrorCode,
> {
    if m.version == POP_MESSAGE_VERSION_V2 && all_zero(m.audit_hash@) {
        Some(ErrorCode::PopAuditHashMissing)
    } else if !known_version(m.version) {
        Some(ErrorCode::InvalidPopMessageVersion)
    } else {
        chain_error_given(state, grant, m, expected_entry_hash(m))
    }
}

/// The record after `m` was accepted: both chains stand at the entry hash of
/// `m`. The first accepted message binds the record to the grant.
pub open spec fn advanced(
    state: PopState,
    grant: Pubkey,
    m: PopProofMessage,
    bump: u8,
) -> PopState {
    PopState {
        grant: if state.initialized {
            state.grant
        } else {
            grant
        },
        last_global_hash: m.entry_hash,
        last_stream_hash: m.entry_hash,
        last_period_index: m.period_index,
        last_issued_at: m.issued_at,
        initialized: true,
        bump: if state.initialized {
            state.bump
        } else {
            bump
        },
    }
}

/// Holds `message` against the entry hash that its fields call for and
/// against the chain recorded in `state`, and moves the record on to it. A
/// message that is refused leaves the record as it is.
pub fn advance_given_hash(
    state: &mut PopState,
    grant: &Pubkey,
    message: &PopProofMessage,
    expected_entry_hash: &[u8; 32],
    pop_state_bump: u8,
) -> (r: Result<(), ErrorCode>)
    ensures
        match chain_error_given(*old(state), *grant, *message, *expected_entry_hash) {
            Some(e) => r == Err::<(), ErrorCode>(e) && *final(state) == *old(state),
            None => r is Ok && *final(state) == advanced(
                *old(state),
                *grant,
                *message,
                pop_state_bump,
            ),
        },
{
    if !bytes32_eq(expected_entry_hash, &message.entry_hash) {
        return Err(ErrorCode::PopEntryHashMismatch);
    }
    if state.initialized {
        if !bytes32_eq(&state.grant, grant) {
            return Err(ErrorCode::PopStateGrantMismatch);
        }
        if !bytes32_eq(&state.last_global_hash, &message.prev_hash) {
            return Err(ErrorCode::PopHashChainBroken);
        }
        if !bytes32_eq(&state.last_stream_hash, &message.stream_prev_hash) {
            return Err(ErrorCode::PopStreamChainBroken);
        }
    } else {
        if !bytes32_is_zero(&message.prev_hash) {
            return Err(ErrorCode::PopGenesisMismatch);
        }
        if !bytes32_is_zero(&message.stream_prev_hash) {
            return Err(ErrorCode::PopGenesisMismatch);
        }
        state.grant = *grant;
        state.bump = pop_state_bump;
        state.initialized = true;
    }
    state.last_global_hash = message.entry_hash;
    state.last_stream_hash = message.entry_hash;
    state.last_period_index = message.period_index;
    state.last_issued_at = message.issued_at;
    Ok(())
}

/// Checks that `message` extends the chain recorded in `state`, and moves the
/// record on to it. A message that is refused leaves the record as it is.
pub fn verify_and_advance(
    state: &mut PopState,
    grant: &Pubkey,
    message: &PopProofMessage,
    pop_state_bump: u8,
) -> (r: Result<(), ErrorCode>)
    ensures
        match chain_error(*old(state), *grant, *message) {
            Some(e) => r == Err::<(), ErrorCode>(e) && *final(state) == *old(state),
            None => r is Ok && *final(state) == advanced(
                *old(state),
                *grant,
                *message,
                pop_state_bump,
            ),
        },
{
    if message.version == POP_MESSAGE_VERSION_V2 && bytes32_is_zero(&message.audit_hash) {
        return Err(ErrorCode::PopAuditHashMissing);
    }
    let expected_entry_hash: [u8; 32] = pop_entry_hash(
        message.version,
        &message.prev_hash,
        &message.stream_prev_hash,
        &message.audit_hash,
        &message.grant,
        &message.claimer,
        message.period_index,
        message.issued_at,
    )?;
    advance_given_hash(state, grant, message, &expected_entry_hash, pop_state_bump)
}

/// A message whose entry hash is not the hash of its fields is never
/// accepted, whatever the chain record holds; where its version is known
/// and a version 2 message has its audit hash, the reason given is the hash
/// mismatch.
pub proof fn lemma_wrong_entry_hash_rejected(state: PopState, grant: Pubkey, m: PopProofMessage)
    requires
        m.entry_hash != expected_entry_hash(m),
    ensures
        chain_error(state, grant, m) is Some,
        known_version(m.version) && !(m.version == POP_MESSAGE_VERSION_V2 && all_zero(
            m.audit_hash@,
        )) ==> chain_error(state, grant, m) == Some(ErrorCode::PopEntryHashMismatch),
{
}

/// Whether two messages differ in a field that enters the entry hash.
pub open spec fn hashed_fields_differ(a: PopProofMessage, b: PopProofMessage) -> bool {
    ||| a.version != b.version
    ||| a.prev_hash != b.prev_hash
    ||| a.stream_prev_hash != b.stream_prev_hash
    ||| (a.version == POP_MESSAGE_VERSION_V2 && a.audit_hash != b.audit_hash)
    ||| a.grant != b.grant
    ||| a.claimer != b.claimer
    ||| a.period_index != b.period_index
    ||| a.issued_at != b.issued_at
}

/// The hashed text of a message.
pub open spec fn message_preimage(m: PopProofMessage) -> Seq<u8> {
    entry_preimage(
        m.version,
        m.prev_hash,
        m.stream_prev_hash,
        m.audit_hash,
        m.grant,
        m.claimer,
        m.period_index,
        m.issued_at,
    )
}

/// The length of the hashed text of a message of a known version.
pub open spec fn preimage_len(version: u8) -> int {
    if version == POP_MESSAGE_VERSION_V2 {
        188
    } else {
        156
    }
}

/// The fields of a message, read back from its hashed text.
proof fn lemma_preimage_fields(m: PopProofMessage)
    requires
        known_version(m.version),
    ensures
        message_preimage(m).len() == preimage_len(m.version),
        message_preimage(m)[11] == (if m.version == POP_MESSAGE_VERSION_V2 {
            0x32u8
        } else {
            0x31u8
        }),
        message_preimage(m).subrange(12, 44) == m.prev_hash@,
        message_preimage(m).subrange(44, 76) == m.stream_prev_hash@,
        m.version == POP_MESSAGE_VERSION_V2 ==> message_preimage(m).subrange(76, 108)
            == m.audit_hash@,
        message_preimage(m).subrange(preimage_len(m.version) - 80, preimage_len(m.version) - 48)
            == m.grant@,
        message_preimage(m).subrange(preimage_len(m.version) - 48, preimage_len(m.version) - 16)
            == m.claimer@,
        message_preimage(m).subrange(preimage_len(m.version) - 16, preimage_len(m.version) - 8)
            == u64_to_le(m.period_index),
        message_preimage(m).subrange(preimage_len(m.version) - 8, preimage_len(m.version))
            == i64_to_le(m.issued_at),
{
    let x = message_preimage(m);
    let n = preimage_len(m.version);
    assert(u64_to_le(m.period_index).len() == 8);
    assert(i64_to_le(m.issued_at).len() == 8);
    assert(POP_DOMAIN_V1@.len() == 12 && POP_DOMAIN_V2@.len() == 12);
    assert(x.len() == n);
    assert(POP_DOMAIN_V1@[11] == 0x31);
    assert(POP_DOMAIN_V2@[11] == 0x32);
    assert(x.subrange(12, 44) =~= m.prev_hash@);
    assert(x.subrange(44, 76) =~= m.stream_prev_hash@);
    if m.version == POP_MESSAGE_VERSION_V2 {
        assert(x.subrange(76, 108) =~= m.audit_hash@);
    }
    assert(x.subrange(n - 80, n - 48) =~= m.grant@);
    assert(x.subrange(n - 48, n - 16) =~= m.claimer@);
    assert(x.subrange(n - 16, n - 8) =~= u64_to_le(m.period_index));
    assert(x.subrange(n - 8, n) =~= i64_to_le(m.issued_at));
}

/// Messages that differ in a hashed field have different hashed texts.
pub proof fn lemma_preimage_injective(a: PopProofMessage, b: PopProofMessage)
    requires
        known_version(a.version),
        known_version(b.version),
        hashed_fields_differ(a, b),
    ensures
        message_preimage(a) != message_preimage(b),
{
    lemma_preimage_fields(a);
    lemma_preimage_fields(b);
    if message_preimage(a) == message_preimage(b) {
        assert(a.version == b.version);
        assert(a.prev_hash =~= b.prev_hash);
        assert(a.stream_prev_hash =~= b.stream_prev_hash);
        if a.version == POP_MESSAGE_VERSION_V2 {
            assert(a.audit_hash =~= b.audit_hash);
        }
        assert(a.grant =~= b.grant);
        assert(a.claimer =~= b.claimer);
        assert(u64_to_le(a.period_index) == u64_to_le(b.period_index));
        lemma_u64_le_round_trip(a.period_index);
        lemma_u64_le_round_trip(b.period_index);
        assert(a.period_index == b.period_index);
        assert(i64_to_le(a.issued_at) == i64_to_le(b.issued_at));
        lemma_i64_le_round_trip(a.issued_at);
        lemma_i64_le_round_trip(b.issued_at);
        assert(a.issued_at == b.issued_at);
    }
}

/// A message that was changed in a hashed field after its entry hash was
/// computed no longer carries the hash of its fields, and so is never
/// accepted, unless SHA-256 collides.
pub proof fn lemma_altered_message_rejected(
    state: PopState,
    grant: Pubkey,
    m: PopProofMessage,
    altered: PopProofMessage,
)
    requires
        known_version(m.version),
        m.entry_hash == expected_entry_hash(m),
        altered.entry_hash == m.entry_hash,
        hashed_fields_differ(m, altered),
    ensures
        chain_error(state, grant, altered) is Some || sha256_collides(),
{
    if known_version(altered.version) {
        lemma_preimage_injective(m, altered);
        if altered.entry_hash == expected_entry_hash(altered) {
            assert(sha256_collision(message_preimage(m), message_preimage(altered)));
        }
    }
}

/// A message that does not name the recorded hashes as its previous ones
/// is refused once the chain has a record.
pub proof fn lemma_broken_chain_rejected(state: PopState, grant: Pubkey, m: PopProofMessage)
    requires
        state.initialized,
        state.last_global_hash != m.prev_hash || state.last_stream_hash != m.stream_prev_hash,
    ensures
        chain_error(state, grant, m) is Some,
        chain_error(state, grant, m) != Some(ErrorCode::PopAuditHashMissing) && chain_error(
            state,
            grant,
            m,
        ) != Some(ErrorCode::InvalidPopMessageVersion) && chain_error(state, grant, m) != Some(
            ErrorCode::PopEntryHashMismatch,
        ) && chain_error(state, grant, m) != Some(ErrorCode::PopStateGrantMismatch)
            ==> chain_error(state, grant, m) == Some(
            if state.last_global_hash != m.prev_hash {
                ErrorCode::PopHashChainBroken
            } else {
                ErrorCode::PopStreamChainBroken
            },
        ),
{
}

/// While nothing is recorded, a message is accepted only if both its
/// previous hashes are all zero.
pub proof fn lemma_genesis_rule(state: PopState, grant: Pubkey, m: PopProofMessage)
    requires
        !state.initialized,
    ensures
        chain_error(state, grant, m) is None ==> all_zero(m.prev_hash@) && all_zero(
            m.stream_prev_hash@,
        ),
        !all_zero(m.prev_hash@) || !all_zero(m.stream_prev_hash@) ==> chain_error(state, grant, m)
            is Some,
        chain_error(state, grant, m) is None ==> advanced(state, grant, m, 0).last_global_hash
            == m.entry_hash,
{
}

/// After a message was accepted, the record holds its entry hash on both
/// chains, and only a message that names that hash twice can follow.
pub proof fn lemma_chain_follows(
    state: PopState,
    grant: Pubkey,
    m: PopProofMessage,
    bump: u8,
    next: PopProofMessage,
)
    requires
        chain_error(state, grant, m) is None,
    ensures
        advanced(state, grant, m, bump).initialized,
        advanced(state, grant, m, bump).last_global_hash == m.entry_hash,
        advanced(state, grant, m, bump).last_stream_hash == m.entry_hash,
        chain_error(advanced(state, grant, m, bump), grant, next) is None ==> next.prev_hash
            == m.entry_hash && next.stream_prev_hash == m.entry_hash,
{
}

} // verus!
