//! The proof-of-process message: its wire form, its decoder, and the hash
//! that chains one message to the one before.

use vstd::prelude::*;
use vstd::array::spec_array_update;
use crate::bytes::{
    all_zero, i64_from_le, i64_le_bytes, i64_to_le, lemma_i64_le_bytes_round_trip,
    lemma_i64_le_round_trip, lemma_u64_le_bytes_round_trip, lemma_u64_le_round_trip, read_hash,
    read_i64_le, read_pubkey, read_u64_le, u64_from_le, u64_le_bytes, u64_to_le, Pubkey,
};
use crate::error::ErrorCode;
use crate::hashing::{sha256, sha256_digest};

verus! {

/// Length of every hash in a proof message.
pub const POP_HASH_LEN: usize = 32;

/// Version byte of a message without an audit hash.
pub const POP_MESSAGE_VERSION_V1: u8 = 1;

/// Version byte of a message with an audit hash.
pub const POP_MESSAGE_VERSION_V2: u8 = 2;

/// Length of a version 1 message: version, grant, recipient, period index,
/// two previous hashes, entry hash, issuance time.
pub const POP_MESSAGE_LEN_V1: usize = 1 + 32 + 32 + 8 + 32 + 32 + 32 + 8;

/// Length of a version 2 message: as version 1, with the audit hash before
/// the entry hash.
pub const POP_MESSAGE_LEN_V2: usize = 1 + 32 + 32 + 8 + 32 + 32 + 32 + 32 + 8;

/// The bytes `we-ne:pop:v1`, which start the hashed text of a version 1
/// entry.
pub const POP_DOMAIN_V1: [u8; 12] = [
    0x77, 0x65, 0x2d, 0x6e, 0x65, 0x3a, 0x70, 0x6f, 0x70, 0x3a, 0x76, 0x31,
];

/// The bytes `we-ne:pop:v2`, which start the hashed text of a version 2
/// entry.
pub const POP_DOMAIN_V2: [u8; 12] = [
    0x77, 0x65, 0x2d, 0x6e, 0x65, 0x3a, 0x70, 0x6f, 0x70, 0x3a, 0x76, 0x32,
];

/// A decoded proof-of-process message.
#[derive(Clone, Copy, Debug, PartialEq, Eq)]
pub struct PopProofMessage {
    /// 1 or 2.
    pub version: u8,
    /// The grant that the proof was issued for.
    pub grant: Pubkey,
    /// The recipient that the proof was issued to.
    pub claimer: Pubkey,
    /// The period that the proof was issued for.
    pub period_index: u64,
    /// Entry hash of the message before this one in the global chain.
    pub prev_hash: [u8; 32],
    /// Entry hash of the message before this one in the recipient's stream.
    pub stream_prev_hash: [u8; 32],
    /// Audit attestation; all zero in a version 1 message.
    pub audit_hash: [u8; 32],
    /// Hash that binds the fields of this message to its predecessors.
    pub entry_hash: [u8; 32],
    /// Unix time at which the proof was issued.
    pub issued_at: i64,
}

/// Whether `version` is one that the decoder knows.
pub open spec fn known_version(version: u8) -> bool {
    version == POP_MESSAGE_VERSION_V1 || version == POP_MESSAGE_VERSION_V2
}

/// The length of a message of a known version.
pub open spec fn message_len(version: u8) -> int {
    if version == POP_MESSAGE_VERSION_V2 {
        POP_MESSAGE_LEN_V2 as int
    } else {
        POP_MESSAGE_LEN_V1 as int
    }
}

/// A message as the decoder hands it out: of a known version, and without an
/// audit hash unless its version has one.
pub open spec fn canonical(m: PopProofMessage) -> bool {
    known_version(m.version) && (m.version == POP_MESSAGE_VERSION_V1 ==> all_zero(m.audit_hash@))
}

/// The wire form of a message: its fields one after the other, integers
/// least significant byte first, the audit hash only in version 2.
pub open spec fn wire_bytes(m: PopProofMessage) -> Seq<u8> {
    seq![m.version] + m.grant@ + m.claimer@ + u64_to_le(m.period_index) + m.prev_hash@
        + m.stream_prev_hash@ + (if m.version == POP_MESSAGE_VERSION_V2 {
        m.audit_hash@
    } else {
        Seq::empty()
    }) + m.entry_hash@ + i64_to_le(m.issued_at)
}

/// The canonical message with the wire form `bytes`.
pub open spec fn decoded(bytes: Seq<u8>) -> PopProofMessage {
    choose|m: PopProofMessage| canonical(m) && wire_bytes(m) == bytes
}

/// What decoding `bytes` gives: an empty text and one of the wrong length for
/// its version are refused for their length, an unknown first byte for the
/// version.
pub open spec fn parse_pop_message_spec(bytes: Seq<u8>) -> Result<PopProofMessage, ErrorCode> {
    if bytes.len() == 0 {
        Err(ErrorCode::InvalidPopMessageLength)
    } else if !known_version(bytes[0]) {
        Err(ErrorCode::InvalidPopMessageVersion)
    } else if bytes.len() != message_len(bytes[0]) {
        Err(ErrorCode::InvalidPopMessageLength)
    } else {
        Ok(decoded(bytes))
    }
}

/// Where the fields stand in the wire form of a message: the version at 0,
/// grant at 1, recipient at 33, period index at 65, the previous hashes at 73
/// and 105, then, in version 2 only, the audit hash at 137; the entry hash
/// and the issuance time fill the last 40 bytes.
pub proof fn lemma_wire_bytes_fields(m: PopProofMessage)
    requires
        known_version(m.version),
    ensures
        wire_bytes(m).len() == message_len(m.version),
        wire_bytes(m)[0] == m.version,
        wire_bytes(m).subrange(1, 33) == m.grant@,
        wire_bytes(m).subrange(33, 65) == m.claimer@,
        wire_bytes(m).subrange(65, 73) == u64_to_le(m.period_index),
        wire_bytes(m).subrange(73, 105) == m.prev_hash@,
        wire_bytes(m).subrange(105, 137) == m.stream_prev_hash@,
        m.version == POP_MESSAGE_VERSION_V2 ==> wire_bytes(m).subrange(137, 169) == m.audit_hash@,
        wire_bytes(m).subrange(message_len(m.version) - 40, message_len(m.version) - 8)
            == m.entry_hash@,
        wire_bytes(m).subrange(message_len(m.version) - 8, message_len(m.version)) == i64_to_le(
            m.issued_at,
        ),
{
    lemma_u64_le_round_trip(m.period_index);
    lemma_i64_le_round_trip(m.issued_at);
    let w = wire_bytes(m);
    let n = message_len(m.version);
    assert(w.subrange(1, 33) =~= m.grant@);
    assert(w.subrange(33, 65) =~= m.claimer@);
    assert(w.subrange(65, 73) =~= u64_to_le(m.period_index));
    assert(w.subrange(73, 105) =~= m.prev_hash@);
    assert(w.subrange(105, 137) =~= m.stream_prev_hash@);
    if m.version == POP_MESSAGE_VERSION_V2 {
        assert(w.subrange(137, 169) =~= m.audit_hash@);
    }
    assert(w.subrange(n - 40, n - 8) =~= m.entry_hash@);
    assert(w.subrange(n - 8, n) =~= i64_to_le(m.issued_at));
}

/// No two canonical messages have the same wire form.
pub proof fn lemma_wire_bytes_injective(a: PopProofMessage, b: PopProofMessage)
    requires
        canonical(a),
        canonical(b),
        wire_bytes(a) == wire_bytes(b),
    ensures
        a == b,
{
    lemma_wire_bytes_fields(a);
    lemma_wire_bytes_fields(b);
    lemma_u64_le_round_trip(a.period_index);
    lemma_u64_le_round_trip(b.period_index);
    lemma_i64_le_round_trip(a.issued_at);
    lemma_i64_le_round_trip(b.issued_at);
    assert(a.version == b.version);
    assert(a.grant =~= b.grant);
    assert(a.claimer =~= b.claimer);
    assert(a.prev_hash =~= b.prev_hash);
    assert(a.stream_prev_hash =~= b.stream_prev_hash);
    assert(a.entry_hash =~= b.entry_hash);
    assert(a.audit_hash =~= b.audit_hash);
}

/// Decoding is the inverse of writing a message out: every canonical message
/// is what the decoder makes of its wire form.
pub proof fn lemma_parse_wire_bytes(m: PopProofMessage)
    requires
        canonical(m),
    ensures
        parse_pop_message_spec(wire_bytes(m)) == Ok::<PopProofMessage, ErrorCode>(m),
{
    lemma_wire_bytes_fields(m);
    let d = decoded(wire_bytes(m));
    assert(canonical(d) && wire_bytes(d) == wire_bytes(m));
    lemma_wire_bytes_injective(d, m);
}

/// Some 32-byte value holds the first `k` bytes of `s`.
proof fn lemma_bytes32_with_prefix(s: Seq<u8>, k: nat) -> (a: [u8; 32])
    requires
        s.len() == 32,
        k <= 32,
    ensures
        forall|j: int| 0 <= j < k ==> a@[j] == s[j],
    decreases k,
{
    if k == 0 {
        arbitrary()
    } else {
        let shorter = lemma_bytes32_with_prefix(s, (k - 1) as nat);
        let a = spec_array_update(shorter, k - 1, s[k - 1]);
        assert(a@ == shorter@.update(k - 1, s[k - 1]));
        a
    }
}

/// Every 32 bytes are the bytes of some 32-byte value.
proof fn lemma_bytes32_of(s: Seq<u8>) -> (a: [u8; 32])
    requires
        s.len() == 32,
    ensures
        a@ == s,
{
    let a = lemma_bytes32_with_prefix(s, 32);
    assert(a@ =~= s);
    a
}

/// Every byte string that starts with a known version and has the length of
/// that version is the wire form of a canonical message, which is the one
/// that decoding gives; its fields are the parts of the byte string at their
/// places.
pub proof fn lemma_decoded(bytes: Seq<u8>)
    requires
        bytes.len() > 0,
        known_version(bytes[0]),
        bytes.len() == message_len(bytes[0]),
    ensures
        parse_pop_message_spec(bytes) == Ok::<PopProofMessage, ErrorCode>(decoded(bytes)),
        canonical(decoded(bytes)),
        wire_bytes(decoded(bytes)) == bytes,
        decoded(bytes).version == bytes[0],
        decoded(bytes).grant@ == bytes.subrange(1, 33),
        decoded(bytes).claimer@ == bytes.subrange(33, 65),
        decoded(bytes).period_index == u64_from_le(bytes.subrange(65, 73)),
        decoded(bytes).prev_hash@ == bytes.subrange(73, 105),
        decoded(bytes).stream_prev_hash@ == bytes.subrange(105, 137),
        bytes[0] == POP_MESSAGE_VERSION_V2 ==> decoded(bytes).audit_hash@ == bytes.subrange(
            137,
            169,
        ),
        bytes[0] == POP_MESSAGE_VERSION_V1 ==> all_zero(decoded(bytes).audit_hash@),
        decoded(bytes).entry_hash@ == bytes.subrange(bytes.len() - 40, bytes.len() - 8),
        decoded(bytes).issued_at == i64_from_le(
            bytes.subrange(bytes.len() - 8, bytes.len() as int),
        ),
{
    let n = bytes.len() as int;
    let version = bytes[0];
    lemma_u64_le_bytes_round_trip(bytes.subrange(65, 73));
    lemma_i64_le_bytes_round_trip(bytes.subrange(n - 8, n));
    let zeros = Seq::new(32, |i: int| 0u8);
    let audit_hash = if version == POP_MESSAGE_VERSION_V2 {
        lemma_bytes32_of(bytes.subrange(137, 169))
    } else {
        lemma_bytes32_of(zeros)
    };
    let witness = PopProofMessage {
        version,
        grant: lemma_bytes32_of(bytes.subrange(1, 33)),
        claimer: lemma_bytes32_of(bytes.subrange(33, 65)),
        period_index: u64_from_le(bytes.subrange(65, 73)) as u64,
        prev_hash: lemma_bytes32_of(bytes.subrange(73, 105)),
        stream_prev_hash: lemma_bytes32_of(bytes.subrange(105, 137)),
        audit_hash,
        entry_hash: lemma_bytes32_of(bytes.subrange(n - 40, n - 8)),
        issued_at: i64_from_le(bytes.subrange(n - 8, n)) as i64,
    };
    assert(wire_bytes(witness) =~= bytes);
    assert(canonical(witness));
    let m = decoded(bytes);
    assert(canonical(m) && wire_bytes(m) == bytes);
    lemma_wire_bytes_fields(m);
    lemma_u64_le_round_trip(m.period_index);
    lemma_i64_le_round_trip(m.issued_at);
}

/// Decodes a proof message from its wire form.
///
/// The first byte selects the version, the version fixes the length, and the
/// fields follow in their order. A version 1 message comes out with an
/// all-zero audit hash.
pub fn parse_pop_message(message: &[u8]) -> (r: Result<PopProofMessage, ErrorCode>)
    ensures
        r == parse_pop_message_spec(message@),
        r matches Ok(m) ==> canonical(m) && wire_bytes(m) == message@,
{
    if message.len() == 0 {
        return Err(ErrorCode::InvalidPopMessageLength);
    }
    let version: u8 = message[0];
    if !(version == POP_MESSAGE_VERSION_V1 || version == POP_MESSAGE_VERSION_V2) {
        return Err(ErrorCode::InvalidPopMessageVersion);
    }
    let expected_len: usize = if version == POP_MESSAGE_VERSION_V2 {
        POP_MESSAGE_LEN_V2
    } else {
        POP_MESSAGE_LEN_V1
    };
    if message.len() != expected_len {
        return Err(ErrorCode::InvalidPopMessageLength);
    }
    let mut offset: usize = 1;
    let grant: Pubkey = read_pubkey(message, &mut offset)?;
    let claimer: Pubkey = read_pubkey(message, &mut offset)?;
    let period_index: u64 = read_u64_le(message, &mut offset)?;
    let prev_hash: [u8; 32] = read_hash(message, &mut offset)?;
    let stream_prev_hash: [u8; 32] = read_hash(message, &mut offset)?;
    let audit_hash: [u8; 32] = if version == POP_MESSAGE_VERSION_V2 {
        read_hash(message, &mut offset)?
    } else {
        [0u8; 32]
    };
    let entry_hash: [u8; 32] = read_hash(message, &mut offset)?;
    let issued_at: i64 = read_i64_le(message, &mut offset)?;
    let m = PopProofMessage {
        version,
        grant,
        claimer,
        period_index,
        prev_hash,
        stream_prev_hash,
        audit_hash,
        entry_hash,
        issued_at,
    };
    proof {
        let n = expected_len as int;
        lemma_u64_le_bytes_round_trip(message@.subrange(65, 73));
        lemma_i64_le_bytes_round_trip(message@.subrange(n - 8, n));
        assert(wire_bytes(m) =~= message@);
        lemma_wire_bytes_injective(decoded(message@), m);
    }
    Ok(m)
}

/// Writes a message out in its wire form.
pub fn encode_pop_message(message: &PopProofMessage) -> (bytes: Vec<u8>)
    ensures
        bytes@ == wire_bytes(*message),
{
    let period_bytes: [u8; 8] = u64_le_bytes(message.period_index);
    let issued_at_bytes: [u8; 8] = i64_le_bytes(message.issued_at);
    let mut bytes: Vec<u8> = Vec::new();
    bytes.push(message.version);
    bytes.extend_from_slice(message.grant.as_slice());
    bytes.extend_from_slice(message.claimer.as_slice());
    bytes.extend_from_slice(period_bytes.as_slice());
    bytes.extend_from_slice(message.prev_hash.as_slice());
    bytes.extend_from_slice(message.stream_prev_hash.as_slice());
    if message.version == POP_MESSAGE_VERSION_V2 {
        bytes.extend_from_slice(message.audit_hash.as_slice());
    }
    bytes.extend_from_slice(message.entry_hash.as_slice());
    bytes.extend_from_slice(issued_at_bytes.as_slice());
    assert(bytes@ =~= wire_bytes(*message));
    bytes
}

/// The text that the entry hash of a message is the digest of: the domain
/// tag of the version, the two previous hashes, in version 2 the audit hash,
/// then grant, recipient, period index and issuance time.
pub open spec fn entry_preimage(
    version: u8,
    prev_hash: [u8; 32],
    stream_prev_hash: [u8; 32],
    audit_hash: [u8; 32],
    grant: Pubkey,
    claimer: Pubkey,
    period_index: u64,
    issued_at: i64,
) -> Seq<u8> {
    (if version == POP_MESSAGE_VERSION_V2 {
        POP_DOMAIN_V2@
    } else {
        POP_DOMAIN_V1@
    }) + prev_hash@ + stream_prev_hash@ + (if version == POP_MESSAGE_VERSION_V2 {
        audit_hash@
    } else {
        Seq::empty()
    }) + grant@ + claimer@ + u64_to_le(period_index) + i64_to_le(issued_at)
}

/// The entry hash that the fields of `m` call for.
pub open spec fn expected_entry_hash(m: PopProofMessage) -> [u8; 32] {
    sha256(
        entry_preimage(
            m.version,
            m.prev_hash,
            m.stream_prev_hash,
            m.audit_hash,
            m.grant,
            m.claimer,
            m.period_index,
            m.issued_at,
        ),
    )
}

/// Writes out the text that the entry hash of a message is the digest of.
pub fn entry_hash_text(
    version: u8,
    prev_hash: &[u8; 32],
    stream_prev_hash: &[u8; 32],
    audit_hash: &[u8; 32],
    grant: &Pubkey,
    claimer: &Pubkey,
    period_index: u64,
    issued_at: i64,
) -> (text: Vec<u8>)
    ensures
        text@ == entry_preimage(
            version,
            *prev_hash,
            *stream_prev_hash,
            *audit_hash,
            *grant,
            *claimer,
            period_index,
            issued_at,
        ),
{
    let period_bytes: [u8; 8] = u64_le_bytes(period_index);
    let issued_at_bytes: [u8; 8] = i64_le_bytes(issued_at);
    let mut text: Vec<u8> = Vec::new();
    if version == POP_MESSAGE_VERSION_V2 {
        text.extend_from_slice(POP_DOMAIN_V2.as_slice());
    } else {
        text.extend_from_slice(POP_DOMAIN_V1.as_slice());
    }
    text.extend_from_slice(prev_hash.as_slice());
    text.extend_from_slice(stream_prev_hash.as_slice());
    if version == POP_MESSAGE_VERSION_V2 {
        text.extend_from_slice(audit_hash.as_slice());
    }
    text.extend_from_slice(grant.as_slice());
    text.extend_from_slice(claimer.as_slice());
    text.extend_from_slice(period_bytes.as_slice());
    text.extend_from_slice(issued_at_bytes.as_slice());
    assert(text@ =~= entry_preimage(
        version,
        *prev_hash,
        *stream_prev_hash,
        *audit_hash,
        *grant,
        *claimer,
        period_index,
        issued_at,
    ));
    text
}

/// Computes the entry hash of a message from its other fields.
///
/// The audit hash enters the hash in version 2 only. Any other version than
/// 1 and 2 is refused.
pub fn pop_entry_hash(
    version: u8,
    prev_hash: &[u8; 32],
    stream_prev_hash: &[u8; 32],
    audit_hash: &[u8; 32],
    grant: &Pubkey,
    claimer: &Pubkey,
    period_index: u64,
    issued_at: i64,
) -> (r: Result<[u8; 32], ErrorCode>)
    ensures
        r == (if known_version(version) {
            Ok::<[u8; 32], ErrorCode>(
                sha256(
                    entry_preimage(
                        version,
                        *prev_hash,
                        *stream_prev_hash,
                        *audit_hash,
                        *grant,
                        *claimer,
                        period_index,
                        issued_at,
                    ),
                ),
            )
        } else {
            Err::<[u8; 32], ErrorCode>(ErrorCode::InvalidPopMessageVersion)
        }),
{
    if !(version == POP_MESSAGE_VERSION_V1 || version == POP_MESSAGE_VERSION_V2) {
        return Err(ErrorCode::InvalidPopMessageVersion);
    }
    let text: Vec<u8> = entry_hash_text(
        version,
        prev_hash,
        stream_prev_hash,
        audit_hash,
        grant,
        claimer,
        period_index,
        issued_at,
    );
    Ok(sha256_digest(text.as_slice()))
}

} // verus!
