//! Fixed-width fields in byte strings: little-endian integers and 32-byte
//! values, read at an offset.

use vstd::prelude::*;
use crate::error::ErrorCode;

verus! {

/// An account address or a signer's public key.
pub type Pubkey = [u8; 32];

/// The number denoted by two bytes, least significant first.
pub open spec fn u16_from_le(s: Seq<u8>) -> int
    recommends
        s.len() == 2,
{
    s[0] + 0x100 * s[1]
}

/// The number denoted by eight bytes, least significant first.
pub open spec fn u64_from_le(s: Seq<u8>) -> int
    recommends
        s.len() == 8,
{
    s[0] + 0x100 * (s[1] + 0x100 * (s[2] + 0x100 * (s[3] + 0x100 * (s[4] + 0x100 * (s[5] + 0x100
        * (s[6] + 0x100 * s[7]))))))
}

/// The signed number denoted by eight bytes in two's complement, least
/// significant first.
pub open spec fn i64_from_le(s: Seq<u8>) -> int
    recommends
        s.len() == 8,
{
    if u64_from_le(s) < 0x8000_0000_0000_0000 {
        u64_from_le(s)
    } else {
        u64_from_le(s) - 0x1_0000_0000_0000_0000
    }
}

/// The eight bytes that denote `x`, least significant first.
pub open spec fn u64_to_le(x: u64) -> Seq<u8> {
    seq![
        (x % 0x100) as u8,
        (x / 0x100 % 0x100) as u8,
        (x / 0x100 / 0x100 % 0x100) as u8,
        (x / 0x100 / 0x100 / 0x100 % 0x100) as u8,
        (x / 0x100 / 0x100 / 0x100 / 0x100 % 0x100) as u8,
        (x / 0x100 / 0x100 / 0x100 / 0x100 / 0x100 % 0x100) as u8,
        (x / 0x100 / 0x100 / 0x100 / 0x100 / 0x100 / 0x100 % 0x100) as u8,
        (x / 0x100 / 0x100 / 0x100 / 0x100 / 0x100 / 0x100 / 0x100 % 0x100) as u8,
    ]
}

/// The number that has in 64 bits the two's complement pattern of `x`.
pub open spec fn i64_bits(x: i64) -> u64 {
    if x >= 0 {
        x as u64
    } else {
        (x + 0x1_0000_0000_0000_0000) as u64
    }
}

/// The eight bytes that denote `x` in two's complement, least significant
/// first.
pub open spec fn i64_to_le(x: i64) -> Seq<u8> {
    u64_to_le(i64_bits(x))
}

/// Whether all of `s` is zero.
pub open spec fn all_zero(s: Seq<u8>) -> bool {
    forall|i: int| 0 <= i < s.len() ==> s[i] == 0
}

/// Whether `a` comes before `b`, or equals it, in the order that compares
/// byte strings from the first byte on.
pub open spec fn lex_le(a: Seq<u8>, b: Seq<u8>) -> bool
    recommends
        a.len() == b.len(),
{
    a == b || exists|i: int|
        0 <= i < a.len() && i < b.len() && #[trigger] a[i] < b[i] && a.subrange(0, i)
            == b.subrange(0, i)
}

/// Splitting off the lowest byte of a number, and putting it back.
proof fn lemma_low_byte(b: int, rest: int)
    requires
        0 <= b < 0x100,
    ensures
        (b + 0x100 * rest) % 0x100 == b,
        (b + 0x100 * rest) / 0x100 == rest,
{
}

/// Eight bytes written least significant first denote the number they were
/// written from.
pub proof fn lemma_u64_le_round_trip(x: u64)
    ensures
        u64_to_le(x).len() == 8,
        u64_from_le(u64_to_le(x)) == x,
{
    let x0: int = x as int;
    let x1: int = x0 / 0x100;
    let x2: int = x1 / 0x100;
    let x3: int = x2 / 0x100;
    let x4: int = x3 / 0x100;
    let x5: int = x4 / 0x100;
    let x6: int = x5 / 0x100;
    let x7: int = x6 / 0x100;
    assert(x0 == x0 % 0x100 + 0x100 * x1);
    assert(x1 == x1 % 0x100 + 0x100 * x2);
    assert(x2 == x2 % 0x100 + 0x100 * x3);
    assert(x3 == x3 % 0x100 + 0x100 * x4);
    assert(x4 == x4 % 0x100 + 0x100 * x5);
    assert(x5 == x5 % 0x100 + 0x100 * x6);
    assert(x6 == x6 % 0x100 + 0x100 * x7);
    assert(0 <= x7 < 0x100);
    assert(x7 == x7 % 0x100);
}

/// A number read from eight bytes is written back as the same bytes.
pub proof fn lemma_u64_le_bytes_round_trip(s: Seq<u8>)
    requires
        s.len() == 8,
    ensures
        0 <= u64_from_le(s) <= u64::MAX,
        u64_to_le(u64_from_le(s) as u64) == s,
{
    let v7: int = s[7] as int;
    let v6: int = s[6] + 0x100 * v7;
    let v5: int = s[5] + 0x100 * v6;
    let v4: int = s[4] + 0x100 * v5;
    let v3: int = s[3] + 0x100 * v4;
    let v2: int = s[2] + 0x100 * v3;
    let v1: int = s[1] + 0x100 * v2;
    let v0: int = s[0] + 0x100 * v1;
    assert(v0 == u64_from_le(s));
    lemma_low_byte(s[6] as int, v7);
    lemma_low_byte(s[5] as int, v6);
    lemma_low_byte(s[4] as int, v5);
    lemma_low_byte(s[3] as int, v4);
    lemma_low_byte(s[2] as int, v3);
    lemma_low_byte(s[1] as int, v2);
    lemma_low_byte(s[0] as int, v1);
    assert(0 <= v0 <= u64::MAX);
    let x = v0 as u64;
    assert(x / 0x100 == v1);
    assert(x / 0x100 / 0x100 == v2);
    assert(x / 0x100 / 0x100 / 0x100 == v3);
    assert(x / 0x100 / 0x100 / 0x100 / 0x100 == v4);
    assert(x / 0x100 / 0x100 / 0x100 / 0x100 / 0x100 == v5);
    assert(x / 0x100 / 0x100 / 0x100 / 0x100 / 0x100 / 0x100 == v6);
    assert(x / 0x100 / 0x100 / 0x100 / 0x100 / 0x100 / 0x100 / 0x100 == v7);
    assert(u64_to_le(x) =~= s);
}

/// Two's complement of 64 bits loses nothing.
pub proof fn lemma_i64_le_round_trip(x: i64)
    ensures
        i64_to_le(x).len() == 8,
        i64_from_le(i64_to_le(x)) == x,
{
    lemma_u64_le_round_trip(i64_bits(x));
}

/// A signed number read from eight bytes is written back as the same bytes.
pub proof fn lemma_i64_le_bytes_round_trip(s: Seq<u8>)
    requires
        s.len() == 8,
    ensures
        i64::MIN <= i64_from_le(s) <= i64::MAX,
        i64_to_le(i64_from_le(s) as i64) == s,
{
    lemma_u64_le_bytes_round_trip(s);
}

/// Two byte strings of one length that agree on their first `k` bytes are
/// ordered one way or the other.
proof fn lemma_lex_le_total_from(a: Seq<u8>, b: Seq<u8>, k: int)
    requires
        a.len() == b.len(),
        0 <= k <= a.len(),
        a.subrange(0, k) == b.subrange(0, k),
    ensures
        lex_le(a, b) || lex_le(b, a),
    decreases a.len() - k,
{
    if k == a.len() {
        assert(a =~= a.subrange(0, k));
        assert(b =~= b.subrange(0, k));
    } else if a[k] < b[k] {
    } else if b[k] < a[k] {
    } else {
        assert(a.subrange(0, k + 1) =~= a.subrange(0, k).push(a[k]));
        assert(b.subrange(0, k + 1) =~= b.subrange(0, k).push(b[k]));
        lemma_lex_le_total_from(a, b, k + 1);
    }
}

/// Of two byte strings of one length, one comes before the other or they
/// are equal.
pub proof fn lemma_lex_le_total(a: Seq<u8>, b: Seq<u8>)
    requires
        a.len() == b.len(),
    ensures
        lex_le(a, b) || lex_le(b, a),
{
    assert(a.subrange(0, 0) =~= b.subrange(0, 0));
    lemma_lex_le_total_from(a, b, 0);
}

/// Two byte strings that each come before the other, or equal it, are equal.
pub proof fn lemma_lex_le_antisymmetric(a: Seq<u8>, b: Seq<u8>)
    requires
        a.len() == b.len(),
        lex_le(a, b),
        lex_le(b, a),
    ensures
        a == b,
{
    if a != b {
        let i = choose|i: int|
            0 <= i < a.len() && i < b.len() && #[trigger] a[i] < b[i] && a.subrange(0, i)
                == b.subrange(0, i);
        let j = choose|j: int|
            0 <= j < b.len() && j < a.len() && #[trigger] b[j] < a[j] && b.subrange(0, j)
                == a.subrange(0, j);
        if i < j {
            assert(a.subrange(0, j)[i] == a[i]);
            assert(b.subrange(0, j)[i] == b[i]);
        } else if j < i {
            assert(a.subrange(0, i)[j] == a[j]);
            assert(b.subrange(0, i)[j] == b[j]);
        }
    }
}

/// Why a field of `width` bytes cannot be read at `offset` in `len` bytes, if
/// it cannot: the end of the field is computed first, and then held against
/// the length.
pub open spec fn field_error(len: int, offset: int, width: int, short: ErrorCode) -> Option<
    ErrorCode,
> {
    if offset + width > usize::MAX {
        Some(ErrorCode::MathOverflow)
    } else if offset + width > len {
        Some(short)
    } else {
        None
    }
}

/// Whether two 32-byte values are the same.
pub fn bytes32_eq(a: &[u8; 32], b: &[u8; 32]) -> (same: bool)
    ensures
        same == (*a == *b),
        same == (a@ == b@),
{
    let mut i: usize = 0;
    while i < 32
        invariant
            i <= 32,
            forall|j: int| 0 <= j < i ==> a[j] == b[j],
        decreases 32 - i,
    {
        if a[i] != b[i] {
            return false;
        }
        i = i + 1;
    }
    assert(*a =~= *b);
    assert(a@ =~= b@);
    true
}

/// Whether a 32-byte value is all zero.
pub fn bytes32_is_zero(a: &[u8; 32]) -> (zero: bool)
    ensures
        zero == all_zero(a@),
{
    let mut i: usize = 0;
    while i < 32
        invariant
            i <= 32,
            forall|j: int| 0 <= j < i ==> a[j] == 0,
        decreases 32 - i,
    {
        if a[i] != 0 {
            return false;
        }
        i = i + 1;
    }
    true
}

/// Whether `a` comes before `b`, or equals it, comparing byte by byte from
/// the first.
pub fn bytes32_le(a: &[u8; 32], b: &[u8; 32]) -> (le: bool)
    ensures
        le == lex_le(a@, b@),
{
    let mut i: usize = 0;
    while i < 32
        invariant
            i <= 32,
            forall|j: int| 0 <= j < i ==> a[j] == b[j],
        decreases 32 - i,
    {
        if a[i] < b[i] {
            assert(a@.subrange(0, i as int) =~= b@.subrange(0, i as int));
            return true;
        }
        if a[i] > b[i] {
            assert(a@ != b@);
            assert forall|k: int|
                0 <= k < 32 && #[trigger] a@[k] < b@[k] implies a@.subrange(0, k) != b@.subrange(
                0,
                k,
            ) by {
                if k < i {
                } else {
                    assert(a@.subrange(0, k)[i as int] == a@[i as int]);
                    assert(b@.subrange(0, k)[i as int] == b@[i as int]);
                }
            }
            return false;
        }
        i = i + 1;
    }
    assert(a@ =~= b@);
    true
}

/// Reads the two bytes at `offset` as a number, least significant byte
/// first.
pub fn read_u16_le(data: &[u8], offset: usize) -> (r: Result<u16, ErrorCode>)
    ensures
        match r {
            Ok(v) => field_error(
                data@.len() as int,
                offset as int,
                2,
                ErrorCode::InvalidPopSignatureData,
            ) is None && v == u16_from_le(data@.subrange(offset as int, offset + 2)),
            Err(e) => field_error(
                data@.len() as int,
                offset as int,
                2,
                ErrorCode::InvalidPopSignatureData,
            ) == Some(e),
        },
{
    let end: usize = match offset.checked_add(2) {
        Some(end) => end,
        None => {
            return Err(ErrorCode::MathOverflow);
        },
    };
    if end > data.len() {
        return Err(ErrorCode::InvalidPopSignatureData);
    }
    let low: u16 = data[offset] as u16;
    let high: u16 = data[offset + 1] as u16;
    Ok(low + 0x100 * high)
}

/// Reads the 32 bytes at `*offset` and moves the offset past them. The offset
/// stays where it is when the field does not fit.
pub fn read_hash(data: &[u8], offset: &mut usize) -> (r: Result<[u8; 32], ErrorCode>)
    ensures
        match r {
            Ok(h) => field_error(
                data@.len() as int,
                *old(offset) as int,
                32,
                ErrorCode::InvalidPopMessageLength,
            ) is None && h@ == data@.subrange(*old(offset) as int, *old(offset) + 32)
                && *final(offset) == *old(offset) + 32,
            Err(e) => field_error(
                data@.len() as int,
                *old(offset) as int,
                32,
                ErrorCode::InvalidPopMessageLength,
            ) == Some(e) && *final(offset) == *old(offset),
        },
{
    let start: usize = *offset;
    let end: usize = match start.checked_add(32) {
        Some(end) => end,
        None => {
            return Err(ErrorCode::MathOverflow);
        },
    };
    if end > data.len() {
        return Err(ErrorCode::InvalidPopMessageLength);
    }
    let mut out: [u8; 32] = [0u8; 32];
    let mut i: usize = 0;
    while i < 32
        invariant
            i <= 32,
            start + 32 <= data.len(),
            forall|j: int| 0 <= j < i ==> out@[j] == data@[start + j],
        decreases 32 - i,
    {
        out[i] = data[start + i];
        i = i + 1;
    }
    assert(out@ =~= data@.subrange(start as int, start + 32));
    *offset = end;
    Ok(out)
}

/// Reads the 32 bytes at `*offset` as an address and moves the offset past
/// them. The offset stays where it is when the field does not fit.
pub fn read_pubkey(data: &[u8], offset: &mut usize) -> (r: Result<Pubkey, ErrorCode>)
    ensures
        match r {
            Ok(h) => field_error(
                data@.len() as int,
                *old(offset) as int,
                32,
                ErrorCode::InvalidPopMessageLength,
            ) is None && h@ == data@.subrange(*old(offset) as int, *old(offset) + 32)
                && *final(offset) == *old(offset) + 32,
            Err(e) => field_error(
                data@.len() as int,
                *old(offset) as int,
                32,
                ErrorCode::InvalidPopMessageLength,
            ) == Some(e) && *final(offset) == *old(offset),
        },
{
    read_hash(data, offset)
}

/// Reads the eight bytes at `*offset` as an unsigned number, least
/// significant byte first, and moves the offset past them. The offset stays
/// where it is when the field does not fit.
pub fn read_u64_le(data: &[u8], offset: &mut usize) -> (r: Result<u64, ErrorCode>)
    ensures
        match r {
            Ok(v) => field_error(
                data@.len() as int,
                *old(offset) as int,
                8,
                ErrorCode::InvalidPopMessageLength,
            ) is None && v == u64_from_le(data@.subrange(*old(offset) as int, *old(offset) + 8))
                && *final(offset) == *old(offset) + 8,
            Err(e) => field_error(
                data@.len() as int,
                *old(offset) as int,
                8,
                ErrorCode::InvalidPopMessageLength,
            ) == Some(e) && *final(offset) == *old(offset),
        },
{
    let start: usize = *offset;
    let end: usize = match start.checked_add(8) {
        Some(end) => end,
        None => {
            return Err(ErrorCode::MathOverflow);
        },
    };
    if end > data.len() {
        return Err(ErrorCode::InvalidPopMessageLength);
    }
    let ghost field = data@.subrange(start as int, start + 8);
    let b0: u64 = data[start] as u64;
    let b1: u64 = data[start + 1] as u64;
    let b2: u64 = data[start + 2] as u64;
    let b3: u64 = data[start + 3] as u64;
    let b4: u64 = data[start + 4] as u64;
    let b5: u64 = data[start + 5] as u64;
    let b6: u64 = data[start + 6] as u64;
    let b7: u64 = data[start + 7] as u64;
    assert(field[0] == b0 && field[1] == b1 && field[2] == b2 && field[3] == b3);
    assert(field[4] == b4 && field[5] == b5 && field[6] == b6 && field[7] == b7);
    let v6: u64 = b6 + 0x100 * b7;
    let v5: u64 = b5 + 0x100 * v6;
    let v4: u64 = b4 + 0x100 * v5;
    let v3: u64 = b3 + 0x100 * v4;
    let v2: u64 = b2 + 0x100 * v3;
    let v1: u64 = b1 + 0x100 * v2;
    let v0: u64 = b0 + 0x100 * v1;
    *offset = end;
    Ok(v0)
}

/// Reads the eight bytes at `*offset` as a signed number in two's
/// complement, least significant byte first, and moves the offset past them.
/// The offset stays where it is when the field does not fit.
pub fn read_i64_le(data: &[u8], offset: &mut usize) -> (r: Result<i64, ErrorCode>)
    ensures
        match r {
            Ok(v) => field_error(
                data@.len() as int,
                *old(offset) as int,
                8,
                ErrorCode::InvalidPopMessageLength,
            ) is None && v == i64_from_le(data@.subrange(*old(offset) as int, *old(offset) + 8))
                && *final(offset) == *old(offset) + 8,
            Err(e) => field_error(
                data@.len() as int,
                *old(offset) as int,
                8,
                ErrorCode::InvalidPopMessageLength,
            ) == Some(e) && *final(offset) == *old(offset),
        },
{
    let bits: u64 = match read_u64_le(data, offset) {
        Ok(bits) => bits,
        Err(e) => {
            return Err(e);
        },
    };
    if bits < 0x8000_0000_0000_0000 {
        Ok(bits as i64)
    } else {
        let low: i64 = (bits - 0x8000_0000_0000_0000) as i64;
        Ok(low + i64::MIN)
    }
}

/// Writes `x` as eight bytes, least significant first.
pub fn u64_le_bytes(x: u64) -> (bytes: [u8; 8])
    ensures
        bytes@ == u64_to_le(x),
{
    let x1: u64 = x / 0x100;
    let x2: u64 = x1 / 0x100;
    let x3: u64 = x2 / 0x100;
    let x4: u64 = x3 / 0x100;
    let x5: u64 = x4 / 0x100;
    let x6: u64 = x5 / 0x100;
    let x7: u64 = x6 / 0x100;
    let bytes: [u8; 8] = [
        (x % 0x100) as u8,
        (x1 % 0x100) as u8,
        (x2 % 0x100) as u8,
        (x3 % 0x100) as u8,
        (x4 % 0x100) as u8,
        (x5 % 0x100) as u8,
        (x6 % 0x100) as u8,
        (x7 % 0x100) as u8,
    ];
    assert(bytes@ =~= u64_to_le(x));
    bytes
}

/// Writes `x` as eight bytes in two's complement, least significant first.
pub fn i64_le_bytes(x: i64) -> (bytes: [u8; 8])
    ensures
        bytes@ == i64_to_le(x),
{
    if x >= 0 {
        u64_le_bytes(x as u64)
    } else {
        let low: u64 = (x - i64::MIN) as u64;
        u64_le_bytes(low + 0x8000_0000_0000_0000)
    }
}

} // verus!
