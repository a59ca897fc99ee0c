//! The signature instruction that has to stand right before a claim.
//!
//! The runtime's native Ed25519 program checks a signature over a message and
//! fails the transaction when the signature is wrong. A claim reads from that
//! instruction who signed and what was signed; it does not check the
//! signature again.

use vstd::prelude::*;
use vstd::slice::{slice_subrange, slice_to_vec};
use crate::bytes::{bytes32_eq, read_u16_le, u16_from_le, Pubkey};
use crate::error::ErrorCode;

verus! {

/// An instruction of a transaction, as far as a claim reads it.
#[derive(Clone, Debug, PartialEq, Eq)]
pub struct Instruction {
    /// The program that the instruction is addressed to.
    pub program_id: Pubkey,
    /// The instruction's data.
    pub data: Vec<u8>,
}

/// What a claim reads of the transaction in which it runs.
#[derive(Clone, Debug, PartialEq, Eq)]
pub struct InstructionsSysvar {
    /// The place of the running instruction in the transaction, unless it
    /// could not be read.
    pub current_index: Option<u16>,
    /// The instruction at the place that [`companion_index`] names, unless
    /// it names none or the instruction could not be read.
    pub preceding: Option<Instruction>,
}

/// The place of the instruction right before the running one: there is none
/// before the first, and none where the place of the running one is not
/// known.
pub open spec fn companion_index_spec(current_index: Option<u16>) -> Option<usize> {
    match current_index {
        Some(index) => if index > 0 {
            Some((index - 1) as usize)
        } else {
            None
        },
        None => None,
    }
}

/// Tells which instruction of the transaction to read for a claim: the one
/// right before the running one.
pub fn companion_index(current_index: Option<u16>) -> (place: Option<usize>)
    ensures
        place == companion_index_spec(current_index),
{
    match current_index {
        Some(index) => if index > 0 {
            Some((index - 1) as usize)
        } else {
            None
        },
        None => None,
    }
}

impl InstructionsSysvar {
    /// The instruction right before the running one, if the running one is
    /// not the first and the one before it could be read.
    pub open spec fn companion(&self) -> Option<Instruction> {
        if companion_index_spec(self.current_index) is Some {
            self.preceding
        } else {
            None
        }
    }
}

/// The address of the native Ed25519 signature verification program,
/// `Ed25519SigVerify111111111111111111111111111`.
pub open spec fn ed25519_program_id_spec() -> Seq<u8> {
    seq![
        0x03u8, 0x7d, 0x46, 0xd6, 0x7c, 0x93, 0xfb, 0xbe, 0x12, 0xf9, 0x42, 0x8f, 0x83, 0x8d,
        0x40, 0xff, 0x05, 0x70, 0x74, 0x49, 0x27, 0xf4, 0x8a, 0x64, 0xfc, 0xca, 0x70, 0x44,
        0x80, 0x00, 0x00, 0x00,
    ]
}

/// Calls `anchor_lang::solana_program::ed25519_program::id` and takes the 32
/// bytes of the address it returns. The contract states those bytes, which
/// the outside crate declares in base 58; nothing here checks them.
#[verifier::external_body]
pub(crate) fn ed25519_program_id() -> (id: Pubkey)
    ensures
        id@ == ed25519_program_id_spec(),
{
    anchor_lang::solana_program::ed25519_program::id().to_bytes()
}

/// Whether `program_id` is the native Ed25519 signature verification
/// program.
pub fn is_ed25519_program(program_id: &Pubkey) -> (yes: bool)
    ensures
        yes == (program_id@ == ed25519_program_id_spec()),
{
    let id: Pubkey = ed25519_program_id();
    bytes32_eq(program_id, &id)
}

/// The number in the two header bytes at `at`.
pub open spec fn ed25519_header_field(data: Seq<u8>, at: int) -> int {
    u16_from_le(data.subrange(at, at + 2))
}

/// Whether `data` is the data of a signature instruction that this library
/// reads: one signature; signature, key and message in the instruction
/// itself (each of the three instruction indexes is `0xffff`); and all three
/// inside the data. The header holds, from byte 2 on and in two bytes each:
/// signature offset, signature instruction index, key offset, key instruction
/// index, message offset, message size, message instruction index.
pub open spec fn ed25519_layout_ok(data: Seq<u8>) -> bool {
    &&& data.len() >= 16
    &&& data[0] == 1
    &&& ed25519_header_field(data, 4) == 0xffff
    &&& ed25519_header_field(data, 8) == 0xffff
    &&& ed25519_header_field(data, 14) == 0xffff
    &&& ed25519_header_field(data, 2) + 64 <= data.len()
    &&& ed25519_header_field(data, 6) + 32 <= data.len()
    &&& ed25519_header_field(data, 10) + ed25519_header_field(data, 12) <= data.len()
}

/// The signer's key in the data of a signature instruction.
pub open spec fn ed25519_signer(data: Seq<u8>) -> Seq<u8> {
    data.subrange(ed25519_header_field(data, 6), ed25519_header_field(data, 6) + 32)
}

/// The signed message in the data of a signature instruction.
pub open spec fn ed25519_message(data: Seq<u8>) -> Seq<u8> {
    data.subrange(
        ed25519_header_field(data, 10),
        ed25519_header_field(data, 10) + ed25519_header_field(data, 12),
    )
}

/// Reads from a signature instruction the signer's key and the signed
/// message.
///
/// Data of any other layout than [`ed25519_layout_ok`] is refused. That the
/// signature is one of the signer over the message is the runtime's part.
pub fn extract_ed25519_signer_and_message(ix: &Instruction) -> (r: Result<
    (Pubkey, Vec<u8>),
    ErrorCode,
>)
    ensures
        match r {
            Ok((signer, message)) => ed25519_layout_ok(ix.data@) && signer@ == ed25519_signer(
                ix.data@,
            ) && message@ == ed25519_message(ix.data@),
            Err(e) => !ed25519_layout_ok(ix.data@) && e == ErrorCode::InvalidPopSignatureData,
        },
{
    let data: &[u8] = ix.data.as_slice();
    if data.len() < 16 {
        return Err(ErrorCode::InvalidPopSignatureData);
    }
    if data[0] != 1 {
        return Err(ErrorCode::InvalidPopSignatureData);
    }
    let signature_offset: usize = read_u16_le(data, 2)? as usize;
    let signature_instruction_index: u16 = read_u16_le(data, 4)?;
    let public_key_offset: usize = read_u16_le(data, 6)? as usize;
    let public_key_instruction_index: u16 = read_u16_le(data, 8)?;
    let message_data_offset: usize = read_u16_le(data, 10)? as usize;
    let message_data_size: usize = read_u16_le(data, 12)? as usize;
    let message_instruction_index: u16 = read_u16_le(data, 14)?;
    if !(signature_instruction_index == u16::MAX && public_key_instruction_index == u16::MAX
        && message_instruction_index == u16::MAX) {
        return Err(ErrorCode::InvalidPopSignatureData);
    }
    let signature_end: usize = signature_offset + 64;
    let public_key_end: usize = public_key_offset + 32;
    let message_end: usize = message_data_offset + message_data_size;
    if !(signature_end <= data.len() && public_key_end <= data.len() && message_end
        <= data.len()) {
        return Err(ErrorCode::InvalidPopSignatureData);
    }
    let mut signer_pubkey: Pubkey = [0u8; 32];
    let mut i: usize = 0;
    while i < 32
        invariant
            i <= 32,
            public_key_offset + 32 <= data.len(),
            forall|j: int| 0 <= j < i ==> signer_pubkey@[j] == data@[public_key_offset + j],
        decreases 32 - i,
    {
        signer_pubkey[i] = data[public_key_offset + i];
        i = i + 1;
    }
    assert(signer_pubkey@ =~= ed25519_signer(ix.data@));
    let message_bytes: Vec<u8> = slice_to_vec(
        slice_subrange(data, message_data_offset, message_end),
    );
    Ok((signer_pubkey, message_bytes))
}

/// What a claim learns from the transaction around it: signer and message of
/// the signature instruction right before the claim. There has to be an
/// instruction there, and it has to be addressed to the signature
/// verification program.
pub open spec fn signed_message_spec(sysvar: InstructionsSysvar) -> Result<
    (Seq<u8>, Seq<u8>),
    ErrorCode,
> {
    match sysvar.companion() {
        None => Err(ErrorCode::MissingPopSignatureInstruction),
        Some(ix) => if ix.program_id@ != ed25519_program_id_spec() {
            Err(ErrorCode::InvalidPopSignatureProgram)
        } else if !ed25519_layout_ok(ix.data@) {
            Err(ErrorCode::InvalidPopSignatureData)
        } else {
            Ok((ed25519_signer(ix.data@), ed25519_message(ix.data@)))
        },
    }
}

/// Takes the instruction right before the running one, where there is one,
/// and reads signer and message from it.
pub fn load_signed_message(sysvar: &InstructionsSysvar) -> (r: Result<(Pubkey, Vec<u8>), ErrorCode>)
    ensures
        match r {
            Ok((signer, message)) => signed_message_spec(*sysvar) == Ok::<
                (Seq<u8>, Seq<u8>),
                ErrorCode,
            >((signer@, message@)),
            Err(e) => signed_message_spec(*sysvar) == Err::<(Seq<u8>, Seq<u8>), ErrorCode>(e),
        },
{
    if companion_index(sysvar.current_index).is_none() {
        return Err(ErrorCode::MissingPopSignatureInstruction);
    }
    let ed25519_ix: &Instruction = match &sysvar.preceding {
        Some(instruction) => instruction,
        None => {
            return Err(ErrorCode::MissingPopSignatureInstruction);
        },
    };
    if !is_ed25519_program(&ed25519_ix.program_id) {
        return Err(ErrorCode::InvalidPopSignatureProgram);
    }
    extract_ed25519_signer_and_message(ed25519_ix)
}

} // verus!
