//! Facts about decoding that relate several inputs or several calls.
use vstd::prelude::*;
use vstd::bytes::{lemma_auto_spec_u32_to_from_le_bytes, spec_u32_to_le_bytes};

use crate::bytecode::{lemma_instruction_of, lemma_operand_fits, operand_bytes, Instruction};
use crate::errors::DecodeError;
use crate::opcodes::{lemma_opcode_of_byte, opcode_of_byte, OperandShape, OPCODE_COUNT};
use crate::parser::{
    decode_image, header_fields, header_spec, instruction_at, instructions_at, word_at,
    HEADER_LENGTH_V1, VM_MAGIC, VM_MAGIC_VER2,
};
use crate::{result_view, QvmView, QVM};

verus! {

/// Every instruction, encoded alone, decodes back to itself and takes its
/// whole encoding; without the last byte of an operand it is truncated.
pub proof fn lemma_instruction_round_trip(i: Instruction)
    ensures
        instruction_at(i.encoding(), 0, i.encoding().len() as int) == Ok::<
            (Instruction, int),
            DecodeError,
        >((i, i.encoding().len() as int)),
        i.opcode().shape() != OperandShape::Empty ==> instruction_at(
            i.encoding().drop_last(),
            0,
            i.encoding().len() - 1,
        ) == Err::<(Instruction, int), DecodeError>(DecodeError::Truncated),
{
    let op = i.opcode();
    let b = i.encoding();
    lemma_opcode_of_byte(op);
    lemma_operand_fits(i);
    lemma_instruction_of(i);
    lemma_auto_spec_u32_to_from_le_bytes();
    assert(b[0] == op.byte());
    if op.shape() != OperandShape::Empty {
        assert(b.drop_last()[0] == op.byte());
    }
    if op.shape() == OperandShape::Word {
        assert(b.subrange(1, 5) =~= operand_bytes(op.shape(), i.operand()));
    }
}

/// `b` and `c` hold the same bytes at offsets `start..end`.
pub open spec fn agree_on(b: Seq<u8>, c: Seq<u8>, start: int, end: int) -> bool {
    &&& 0 <= start <= end <= b.len()
    &&& end <= c.len()
    &&& forall|j: int| start <= j < end ==> b[j] == c[j]
}

proof fn lemma_word_agrees(b: Seq<u8>, c: Seq<u8>, p: int)
    requires
        agree_on(b, c, p, p + 4),
    ensures
        word_at(b, p) == word_at(c, p),
{
    assert(b.subrange(p, p + 4) =~= c.subrange(p, p + 4));
}

/// Decoding an instruction reads no byte outside the segment that it lies in.
pub proof fn lemma_instruction_local(b: Seq<u8>, c: Seq<u8>, pos: int, end: int)
    requires
        0 <= pos,
        agree_on(b, c, pos, end),
    ensures
        instruction_at(b, pos, end) == instruction_at(c, pos, end),
        instruction_at(b, pos, end) matches Ok((_, next)) ==> pos < next <= end,
{
    if pos < end {
        if let Some(op) = opcode_of_byte(b[pos]) {
            if pos + 1 + op.shape().width() <= end && op.shape() == OperandShape::Word {
                lemma_word_agrees(b, c, pos + 1);
            }
        }
    }
}

/// Decoding a code segment reads no byte outside it.
pub proof fn lemma_instructions_local(b: Seq<u8>, c: Seq<u8>, pos: int, end: int, count: nat)
    requires
        0 <= pos,
        agree_on(b, c, pos, end),
    ensures
        instructions_at(b, pos, end, count) == instructions_at(c, pos, end, count),
    decreases count,
{
    lemma_instruction_local(b, c, pos, end);
    if count > 0 {
        if let Ok((_, next)) = instruction_at(b, pos, end) {
            lemma_instructions_local(b, c, next, end, (count - 1) as nat);
        }
    }
}

/// A byte at `pos` of a code segment that names no opcode fails the
/// instruction there with `UnknownOpcode`, whatever the other bytes hold.
pub proof fn lemma_unknown_opcode(b: Seq<u8>, pos: int, end: int)
    requires
        0 <= pos < end <= b.len(),
        b[pos] >= OPCODE_COUNT,
    ensures
        instruction_at(b, pos, end) == Err::<(Instruction, int), DecodeError>(
            DecodeError::UnknownOpcode(b[pos], pos as usize),
        ),
{
}


proof fn lemma_header_agrees(b: Seq<u8>, c: Seq<u8>)
    requires
        agree_on(b, c, 0, HEADER_LENGTH_V1 as int),
    ensures
        word_at(b, 0) == word_at(c, 0),
        header_fields(b) == header_fields(c),
{
    lemma_word_agrees(b, c, 0);
    lemma_word_agrees(b, c, 4);
    lemma_word_agrees(b, c, 8);
    lemma_word_agrees(b, c, 12);
    lemma_word_agrees(b, c, 16);
    lemma_word_agrees(b, c, 20);
    lemma_word_agrees(b, c, 24);
    lemma_word_agrees(b, c, 28);
}

/// A buffer whose first four bytes are not the signature `44 14 72 12` fails
/// with `BadMagic`, whatever follows, unless they are the signature of a
/// version 2 image.
pub proof fn lemma_bad_magic(b: Seq<u8>)
    requires
        b.len() >= 4,
        b.subrange(0, 4) != spec_u32_to_le_bytes(VM_MAGIC),
        b.subrange(0, 4) != spec_u32_to_le_bytes(VM_MAGIC_VER2),
    ensures
        decode_image(b) == Err::<QvmView, DecodeError>(DecodeError::BadMagic),
{
    lemma_auto_spec_u32_to_from_le_bytes();
    assert(spec_u32_to_le_bytes(word_at(b, 0)) == b.subrange(0, 4));
}

/// An image whose first instruction starts with a byte that names no opcode
/// fails with `UnknownOpcode`, at the offset of the code segment.
pub proof fn lemma_first_opcode_unknown(b: Seq<u8>)
    requires
        header_spec(b) is Ok,
        HEADER_LENGTH_V1 <= header_fields(b).code_offset,
        header_fields(b).code_offset + header_fields(b).code_length <= b.len(),
        header_fields(b).code_length > 0,
        header_fields(b).instruction_count > 0,
        b[header_fields(b).code_offset as int] >= OPCODE_COUNT,
    ensures
        decode_image(b) == Err::<QvmView, DecodeError>(
            DecodeError::UnknownOpcode(
                b[header_fields(b).code_offset as int],
                header_fields(b).code_offset as usize,
            ),
        ),
{
    let h = header_fields(b);
    lemma_unknown_opcode(b, h.code_offset as int, h.code_offset + h.code_length);
}

/// Every strict prefix of a well-formed image fails with `Truncated`: in
/// particular one cut inside the lit segment.
pub proof fn lemma_prefix_truncated(b: Seq<u8>, k: int)
    requires
        decode_image(b) is Ok,
        0 <= k < b.len(),
    ensures
        decode_image(b.take(k)) == Err::<QvmView, DecodeError>(DecodeError::Truncated),
{
    let t = b.take(k);
    if k >= HEADER_LENGTH_V1 {
        lemma_header_agrees(b, t);
        let h = header_fields(b);
        let code_end = h.code_offset + h.code_length;
        if code_end <= k {
            lemma_instructions_local(b, t, h.code_offset as int, code_end, h.instruction_count as nat);
        }
    } else if k >= 4 {
        lemma_word_agrees(b, t, 0);
    }
}

/// A well-formed image followed by any further bytes fails with
/// `TrailingData`.
pub proof fn lemma_trailing_data(b: Seq<u8>, extra: Seq<u8>)
    requires
        decode_image(b) is Ok,
        extra.len() > 0,
    ensures
        decode_image(b + extra) == Err::<QvmView, DecodeError>(DecodeError::TrailingData),
{
    let t = b + extra;
    lemma_header_agrees(b, t);
    let h = header_fields(b);
    let code_end = h.code_offset + h.code_length;
    lemma_instructions_local(b, t, h.code_offset as int, code_end, h.instruction_count as nat);
}

/// A well-formed image whose data length is changed to one that is not a
/// multiple of 4 fails with `InvalidLayout`.
pub proof fn lemma_data_length_not_multiple(b: Seq<u8>, n: u32)
    requires
        decode_image(b) is Ok,
        n % 4 != 0,
    ensures
        decode_image(b.subrange(0, 20) + spec_u32_to_le_bytes(n) + b.subrange(24, b.len() as int))
            == Err::<QvmView, DecodeError>(DecodeError::InvalidLayout),
{
    lemma_auto_spec_u32_to_from_le_bytes();
    let t = b.subrange(0, 20) + spec_u32_to_le_bytes(n) + b.subrange(24, b.len() as int);
    let h = header_fields(b);
    assert(t.len() == b.len());
    assert(t.subrange(20, 24) =~= spec_u32_to_le_bytes(n));
    assert(agree_on(b, t, 0, 20));
    assert(agree_on(b, t, 24, b.len() as int));
    lemma_word_agrees(b, t, 0);
    lemma_word_agrees(b, t, 4);
    lemma_word_agrees(b, t, 8);
    lemma_word_agrees(b, t, 12);
    lemma_word_agrees(b, t, 16);
    lemma_word_agrees(b, t, 24);
    lemma_word_agrees(b, t, 28);
    let code_end = h.code_offset + h.code_length;
    assert(agree_on(b, t, h.code_offset as int, code_end));
    lemma_instructions_local(b, t, h.code_offset as int, code_end, h.instruction_count as nat);
}

/// Decoding is a function of the bytes: two decodings of one buffer give
/// equal images, or equal errors.
pub proof fn lemma_decode_deterministic(
    b: Seq<u8>,
    r1: Result<QVM, DecodeError>,
    r2: Result<QVM, DecodeError>,
)
    requires
        result_view(r1) == decode_image(b),
        result_view(r2) == decode_image(b),
    ensures
        result_view(r1) == result_view(r2),
{
}


/// A decoded code segment holds exactly as many instructions as were asked
/// for.
pub proof fn lemma_instructions_count(b: Seq<u8>, pos: int, end: int, count: nat)
    requires
        instructions_at(b, pos, end, count) is Ok,
    ensures
        instructions_at(b, pos, end, count)->Ok_0.len() == count,
    decreases count,
{
    if count > 0 {
        if let Ok((_, next)) = instruction_at(b, pos, end) {
            lemma_instructions_count(b, next, end, (count - 1) as nat);
        }
    }
}

/// A decoded image has as many instructions as its header counts, a quarter
/// as many data words as its data length, and as many lit bytes as its lit
/// length.
pub proof fn lemma_image_sizes(b: Seq<u8>)
    requires
        decode_image(b) is Ok,
    ensures
        decode_image(b)->Ok_0.code.len() == header_fields(b).instruction_count,
        decode_image(b)->Ok_0.data.len() == header_fields(b).data_length / 4,
        decode_image(b)->Ok_0.lit.len() == header_fields(b).lit_length,
        decode_image(b)->Ok_0.bss_length == header_fields(b).bss_length,
{
    let h = header_fields(b);
    lemma_instructions_count(
        b,
        h.code_offset as int,
        h.code_offset + h.code_length,
        h.instruction_count as nat,
    );
}

} // verus!
