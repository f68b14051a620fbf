//! Decoding a QVM image from its bytes.
//!
//! An image is a 32-byte header followed by three segments: code (encoded
//! instructions), data (little-endian words) and lit (raw bytes). The header
//! gives where each segment starts and how long it is; padding may stand
//! between the header and the code segment and between the code and the data
//! segment, none between the data and the lit segment, and nothing may follow
//! the lit segment.
use vstd::prelude::*;
use vstd::bytes::{spec_u32_from_le_bytes, u32_from_le_bytes};
use vstd::slice::{slice_subrange, slice_to_vec};

use crate::bytecode::{instruction_of, lemma_instruction_of, Instruction};
use crate::errors::DecodeError;
use crate::opcodes::{lemma_opcode_of_byte, opcode_of_byte, Opcode, OperandShape};
use crate::{result_view, QvmView, QVM};

verus! {

/// Length of the header of a version 1 image.
pub const HEADER_LENGTH_V1: u32 = 32;

/// Signature of a version 1 image, as a little-endian word: the bytes
/// `44 14 72 12`.
pub const VM_MAGIC: u32 = 0x12721444;

/// Signature of a version 2 image, which is not decoded here.
pub const VM_MAGIC_VER2: u32 = 0x12721445;

/// The little-endian word at byte offset `p` of `b`.
pub open spec fn word_at(b: Seq<u8>, p: int) -> u32 {
    spec_u32_from_le_bytes(b.subrange(p, p + 4))
}

/// Reads the little-endian word at byte offset `pos`.
fn read_word(buf: &[u8], pos: usize) -> (r: u32)
    requires
        pos + 4 <= buf.len(),
    ensures
        r == word_at(buf@, pos as int),
{
    u32_from_le_bytes(slice_subrange(buf, pos, pos + 4))
}


/// The fields of a version 1 header, in the order in which they are stored
/// after the signature.
#[derive(Debug, Clone, Copy, PartialEq, Eq, Structural)]
pub struct Header {
    /// Number of instructions in the code segment.
    pub instruction_count: u32,
    /// Byte offset of the code segment.
    pub code_offset: u32,
    /// Length of the code segment in bytes.
    pub code_length: u32,
    /// Byte offset of the data segment.
    pub data_offset: u32,
    /// Length of the data segment in bytes.
    pub data_length: u32,
    /// Length of the lit segment in bytes; it follows the data segment.
    pub lit_length: u32,
    /// Size of the zero-initialised region; nothing of it is stored.
    pub bss_length: u32,
}

/// The header fields stored in `b`.
pub open spec fn header_fields(b: Seq<u8>) -> Header {
    Header {
        instruction_count: word_at(b, 4),
        code_offset: word_at(b, 8),
        code_length: word_at(b, 12),
        data_offset: word_at(b, 16),
        data_length: word_at(b, 20),
        lit_length: word_at(b, 24),
        bss_length: word_at(b, 28),
    }
}

/// The outcome of decoding the header at the start of `b`: the signature is
/// checked before any field is read.
pub open spec fn header_spec(b: Seq<u8>) -> Result<Header, DecodeError> {
    if b.len() < 4 {
        Err(DecodeError::Truncated)
    } else if word_at(b, 0) == VM_MAGIC_VER2 {
        Err(DecodeError::UnsupportedVersion)
    } else if word_at(b, 0) != VM_MAGIC {
        Err(DecodeError::BadMagic)
    } else if b.len() < HEADER_LENGTH_V1 {
        Err(DecodeError::Truncated)
    } else {
        Ok(header_fields(b))
    }
}

/// Decodes the header at the start of `buf`.
pub fn decode_header(buf: &[u8]) -> (r: Result<Header, DecodeError>)
    ensures
        r == header_spec(buf@),
{
    if buf.len() < 4 {
        return Err(DecodeError::Truncated);
    }
    let magic = read_word(buf, 0);
    if magic == VM_MAGIC_VER2 {
        return Err(DecodeError::UnsupportedVersion);
    }
    if magic != VM_MAGIC {
        return Err(DecodeError::BadMagic);
    }
    if buf.len() < HEADER_LENGTH_V1 as usize {
        return Err(DecodeError::Truncated);
    }
    Ok(
        Header {
            instruction_count: read_word(buf, 4),
            code_offset: read_word(buf, 8),
            code_length: read_word(buf, 12),
            data_offset: read_word(buf, 16),
            data_length: read_word(buf, 20),
            lit_length: read_word(buf, 24),
            bss_length: read_word(buf, 28),
        },
    )
}

/// The operand of shape `shape` stored at byte offset `p` of `b`.
pub open spec fn operand_at(b: Seq<u8>, p: int, shape: OperandShape) -> u32 {
    match shape {
        OperandShape::Empty => 0,
        OperandShape::Byte => b[p] as u32,
        OperandShape::Word => word_at(b, p),
    }
}

/// The outcome of decoding the instruction at offset `pos` of a segment that
/// ends at offset `end`: the instruction and the offset that follows it.
pub open spec fn instruction_at(b: Seq<u8>, pos: int, end: int) -> Result<
    (Instruction, int),
    DecodeError,
> {
    if pos >= end {
        Err(DecodeError::Truncated)
    } else {
        match opcode_of_byte(b[pos]) {
            None => Err(DecodeError::UnknownOpcode(b[pos], pos as usize)),
            Some(op) => {
                let next = pos + 1 + op.shape().width();
                if next > end {
                    Err(DecodeError::Truncated)
                } else {
                    Ok((instruction_of(op, operand_at(b, pos + 1, op.shape())), next))
                }
            },
        }
    }
}

/// Decodes the instruction at offset `pos` of a segment of `buf` that ends at
/// offset `end`; on success also returns the offset that follows it.
pub fn decode_instruction(buf: &[u8], pos: usize, end: usize) -> (r: Result<
    (Instruction, usize),
    DecodeError,
>)
    requires
        pos <= end <= buf.len(),
    ensures
        r matches Ok((i, next)) ==> instruction_at(buf@, pos as int, end as int) == Ok::<
            (Instruction, int),
            DecodeError,
        >((i, next as int)),
        r matches Err(e) ==> instruction_at(buf@, pos as int, end as int) == Err::<
            (Instruction, int),
            DecodeError,
        >(e),
{
    if pos >= end {
        return Err(DecodeError::Truncated);
    }
    let b = buf[pos];
    let op = match Opcode::from_byte(b) {
        Some(op) => op,
        None => {
            return Err(DecodeError::UnknownOpcode(b, pos));
        },
    };
    proof {
        lemma_opcode_of_byte(op);
    }
    let shape = op.operand_shape();
    let width = shape.size();
    if width > end - pos - 1 {
        return Err(DecodeError::Truncated);
    }
    let operand: u32 = match shape {
        OperandShape::Empty => 0,
        OperandShape::Byte => buf[pos + 1] as u32,
        OperandShape::Word => read_word(buf, pos + 1),
    };
    let i = Instruction::from_parts(op, operand);
    proof {
        lemma_instruction_of(i);
    }
    Ok((i, pos + 1 + width))
}


/// The outcome of decoding `count` instructions from offset `pos` of a code
/// segment that ends at offset `end`; the instructions must fill the segment
/// exactly.
pub open spec fn instructions_at(b: Seq<u8>, pos: int, end: int, count: nat) -> Result<
    Seq<Instruction>,
    DecodeError,
>
    decreases count,
{
    if count == 0 {
        if pos == end {
            Ok(Seq::empty())
        } else {
            Err(DecodeError::InvalidLayout)
        }
    } else {
        match instruction_at(b, pos, end) {
            Err(e) => Err(e),
            Ok((i, next)) => prepend(seq![i], instructions_at(b, next, end, (count - 1) as nat)),
        }
    }
}

/// `r` with `front` put before the instructions of a success.
pub open spec fn prepend(front: Seq<Instruction>, r: Result<Seq<Instruction>, DecodeError>) -> Result<
    Seq<Instruction>,
    DecodeError,
> {
    match r {
        Ok(rest) => Ok(front + rest),
        Err(e) => Err(e),
    }
}

proof fn lemma_prepend_twice(a: Seq<Instruction>, c: Seq<Instruction>, r: Result<Seq<Instruction>, DecodeError>)
    ensures
        prepend(a, prepend(c, r)) == prepend(a + c, r),
{
    if let Ok(rest) = r {
        assert(a + (c + rest) =~= (a + c) + rest);
    }
}

/// Decodes the code segment `start..end` of `buf`, which must hold exactly
/// `count` instructions.
pub fn decode_code(buf: &[u8], start: usize, end: usize, count: u32) -> (r: Result<
    Vec<Instruction>,
    DecodeError,
>)
    requires
        start <= end <= buf.len(),
    ensures
        r matches Ok(v) ==> instructions_at(buf@, start as int, end as int, count as nat) == Ok::<
            Seq<Instruction>,
            DecodeError,
        >(v@),
        r matches Err(e) ==> instructions_at(buf@, start as int, end as int, count as nat) == Err::<
            Seq<Instruction>,
            DecodeError,
        >(e),
{
    let mut code: Vec<Instruction> = Vec::new();
    let mut pos: usize = start;
    let mut k: u32 = 0;
    while k < count
        invariant
            start <= pos <= end <= buf.len(),
            k <= count,
            instructions_at(buf@, start as int, end as int, count as nat) == prepend(
                code@,
                instructions_at(buf@, pos as int, end as int, (count - k) as nat),
            ),
        decreases count - k,
    {
        match decode_instruction(buf, pos, end) {
            Err(e) => {
                return Err(e);
            },
            Ok((i, next)) => {
                proof {
                    assert(instructions_at(buf@, pos as int, end as int, (count - k) as nat)
                        == prepend(
                        seq![i],
                        instructions_at(buf@, next as int, end as int, (count - k - 1) as nat),
                    ));
                    lemma_prepend_twice(
                        code@,
                        seq![i],
                        instructions_at(buf@, next as int, end as int, (count - k - 1) as nat),
                    );
                }
                let ghost before = code@;
                code.push(i);
                assert(code@ =~= before + seq![i]);
                pos = next;
                k = k + 1;
            },
        }
    }
    if pos != end {
        return Err(DecodeError::InvalidLayout);
    }
    proof {
        assert(code@ + Seq::<Instruction>::empty() =~= code@);
    }
    Ok(code)
}


/// The `n` little-endian words stored from byte offset `start` of `b`.
pub open spec fn words_at(b: Seq<u8>, start: int, n: nat) -> Seq<u32> {
    Seq::new(n, |k: int| word_at(b, start + 4 * k))
}

/// The outcome of decoding the data and lit segments of `b`, whose header is
/// `h` and whose code segment decoded to `code`.
pub open spec fn data_and_lit(b: Seq<u8>, h: Header, code: Seq<Instruction>) -> Result<
    QvmView,
    DecodeError,
> {
    let code_end = h.code_offset + h.code_length;
    let data_end = h.data_offset + h.data_length;
    let lit_end = data_end + h.lit_length;
    if h.data_offset < code_end {
        Err(DecodeError::InvalidLayout)
    } else if h.data_length % 4 != 0 {
        Err(DecodeError::InvalidLayout)
    } else if lit_end > b.len() {
        Err(DecodeError::Truncated)
    } else if lit_end < b.len() {
        Err(DecodeError::TrailingData)
    } else {
        Ok(
            QvmView {
                code,
                data: words_at(b, h.data_offset as int, (h.data_length / 4) as nat),
                lit: b.subrange(data_end, lit_end),
                bss_length: h.bss_length,
            },
        )
    }
}

/// The outcome of decoding the image `b`: the header, then the code segment,
/// then the data and lit segments, the first failure deciding the error.
pub open spec fn decode_image(b: Seq<u8>) -> Result<QvmView, DecodeError> {
    match header_spec(b) {
        Err(e) => Err(e),
        Ok(h) => {
            let code_end = h.code_offset + h.code_length;
            if h.code_offset < HEADER_LENGTH_V1 {
                Err(DecodeError::InvalidLayout)
            } else if code_end > b.len() {
                Err(DecodeError::Truncated)
            } else {
                match instructions_at(b, h.code_offset as int, code_end, h.instruction_count as nat) {
                    Err(e) => Err(e),
                    Ok(code) => data_and_lit(b, h, code),
                }
            }
        },
    }
}

/// Decodes the `n` little-endian words stored from offset `start` of `buf`.
fn decode_words(buf: &[u8], start: usize, n: usize) -> (r: Vec<u32>)
    requires
        start + 4 * n <= buf.len(),
    ensures
        r@ == words_at(buf@, start as int, n as nat),
{
    let mut data: Vec<u32> = Vec::new();
    let mut k: usize = 0;
    while k < n
        invariant
            k <= n,
            start + 4 * n <= buf.len(),
            data@.len() == k,
            forall|j: int| 0 <= j < k ==> data@[j] == word_at(buf@, start + 4 * j),
        decreases n - k,
    {
        data.push(read_word(buf, start + 4 * k));
        k = k + 1;
    }
    assert(data@ =~= words_at(buf@, start as int, n as nat));
    data
}

/// Tries to decode a QVM image from its bytes.
///
/// The image must consist of exactly the header and the segments that it
/// declares: see `decode_image` for which error each malformed input gives.
pub fn parse_qvm(buf: &[u8]) -> (r: Result<QVM, DecodeError>)
    ensures
        result_view(r) == decode_image(buf@),
{
    let h = match decode_header(buf) {
        Ok(h) => h,
        Err(e) => {
            return Err(e);
        },
    };
    let len = buf.len() as u64;
    let code_end = h.code_offset as u64 + h.code_length as u64;
    if h.code_offset < HEADER_LENGTH_V1 {
        return Err(DecodeError::InvalidLayout);
    }
    if code_end > len {
        return Err(DecodeError::Truncated);
    }
    let code = match decode_code(buf, h.code_offset as usize, code_end as usize, h.instruction_count) {
        Ok(code) => code,
        Err(e) => {
            return Err(e);
        },
    };
    let data_end = h.data_offset as u64 + h.data_length as u64;
    let lit_end = data_end + h.lit_length as u64;
    if (h.data_offset as u64) < code_end {
        return Err(DecodeError::InvalidLayout);
    }
    if h.data_length % 4 != 0 {
        return Err(DecodeError::InvalidLayout);
    }
    if lit_end > len {
        return Err(DecodeError::Truncated);
    }
    if lit_end < len {
        return Err(DecodeError::TrailingData);
    }
    let words = decode_words(buf, h.data_offset as usize, (h.data_length / 4) as usize);
    let lit = slice_to_vec(slice_subrange(buf, data_end as usize, lit_end as usize));
    QVM::new(code, words, lit, h.bss_length)
}

} // verus!
