//! Operation codes of QVM instructions and the shape of their operands.
use vstd::prelude::*;

verus! {

/// The number of opcodes: every byte below it names one, every byte from it
/// up names none.
pub const OPCODE_COUNT: u8 = 60;

/// Operation code of a QVM instruction, in the order of ioquake3's
/// `opcode_t`: the `n`-th variant is encoded as the byte `n`.
///
/// See `bytecode::Instruction` for the related, higher-level type.
#[allow(non_camel_case_types)]
#[allow(missing_docs)]
#[derive(Debug, Clone, Copy, PartialEq, Eq, Structural)]
pub enum Opcode {
    UNDEF,

    IGNORE,

    BREAK,

    ENTER,
    LEAVE,
    CALL,
    PUSH,
    POP,

    CONST,
    LOCAL,

    JUMP,

    EQ,
    NE,

    LTI,
    LEI,
    GTI,
    GEI,

    LTU,
    LEU,
    GTU,
    GEU,

    EQF,
    NEF,

    LTF,
    LEF,
    GTF,
    GEF,

    LOAD1,
    LOAD2,
    LOAD4,
    STORE1,
    STORE2,
    STORE4,
    ARG,

    BLOCK_COPY,

    SEX8,
    SEX16,

    NEGI,
    ADD,
    SUB,
    DIVI,
    DIVU,
    MODI,
    MODU,
    MULI,
    MULU,

    BAND,
    BOR,
    BXOR,
    BCOM,

    LSH,
    RSHI,
    RSHU,

    NEGF,
    ADDF,
    SUBF,
    DIVF,
    MULF,

    CVIF,
    CVFI,
}

/// What follows an opcode byte in the code segment.
#[derive(Debug, Clone, Copy, PartialEq, Eq, Structural)]
pub enum OperandShape {
    /// No operand.
    Empty,
    /// One unsigned byte.
    Byte,
    /// One unsigned 32-bit word, little-endian.
    Word,
}

impl OperandShape {
    /// The number of operand bytes of this shape.
    pub open spec fn width(self) -> nat {
        match self {
            OperandShape::Empty => 0,
            OperandShape::Byte => 1,
            OperandShape::Word => 4,
        }
    }

    /// The number of operand bytes of this shape.
    pub fn size(self) -> (r: usize)
        ensures
            r == self.width(),
    {
        match self {
            OperandShape::Empty => 0,
            OperandShape::Byte => 1,
            OperandShape::Word => 4,
        }
    }
}

impl Opcode {
    /// The byte that encodes this opcode.
    pub open spec fn byte(self) -> u8 {
        match self {
            Opcode::UNDEF => 0,
            Opcode::IGNORE => 1,
            Opcode::BREAK => 2,
            Opcode::ENTER => 3,
            Opcode::LEAVE => 4,
            Opcode::CALL => 5,
            Opcode::PUSH => 6,
            Opcode::POP => 7,
            Opcode::CONST => 8,
            Opcode::LOCAL => 9,
            Opcode::JUMP => 10,
            Opcode::EQ => 11,
            Opcode::NE => 12,
            Opcode::LTI => 13,
            Opcode::LEI => 14,
            Opcode::GTI => 15,
            Opcode::GEI => 16,
            Opcode::LTU => 17,
            Opcode::LEU => 18,
            Opcode::GTU => 19,
            Opcode::GEU => 20,
            Opcode::EQF => 21,
            Opcode::NEF => 22,
            Opcode::LTF => 23,
            Opcode::LEF => 24,
            Opcode::GTF => 25,
            Opcode::GEF => 26,
            Opcode::LOAD1 => 27,
            Opcode::LOAD2 => 28,
            Opcode::LOAD4 => 29,
            Opcode::STORE1 => 30,
            Opcode::STORE2 => 31,
            Opcode::STORE4 => 32,
            Opcode::ARG => 33,
            Opcode::BLOCK_COPY => 34,
            Opcode::SEX8 => 35,
            Opcode::SEX16 => 36,
            Opcode::NEGI => 37,
            Opcode::ADD => 38,
            Opcode::SUB => 39,
            Opcode::DIVI => 40,
            Opcode::DIVU => 41,
            Opcode::MODI => 42,
            Opcode::MODU => 43,
            Opcode::MULI => 44,
            Opcode::MULU => 45,
            Opcode::BAND => 46,
            Opcode::BOR => 47,
            Opcode::BXOR => 48,
            Opcode::BCOM => 49,
            Opcode::LSH => 50,
            Opcode::RSHI => 51,
            Opcode::RSHU => 52,
            Opcode::NEGF => 53,
            Opcode::ADDF => 54,
            Opcode::SUBF => 55,
            Opcode::DIVF => 56,
            Opcode::MULF => 57,
            Opcode::CVIF => 58,
            Opcode::CVFI => 59,
        }
    }

    /// The shape of the operand that follows this opcode.
    pub open spec fn shape(self) -> OperandShape {
        match self {
            Opcode::ARG => OperandShape::Byte,
            Opcode::ENTER
            | Opcode::LEAVE
            | Opcode::CONST
            | Opcode::LOCAL
            | Opcode::EQ
            | Opcode::NE
            | Opcode::LTI
            | Opcode::LEI
            | Opcode::GTI
            | Opcode::GEI
            | Opcode::LTU
            | Opcode::LEU
            | Opcode::GTU
            | Opcode::GEU
            | Opcode::EQF
            | Opcode::NEF
            | Opcode::LTF
            | Opcode::LEF
            | Opcode::GTF
            | Opcode::GEF
            | Opcode::BLOCK_COPY => OperandShape::Word,
            _ => OperandShape::Empty,
        }
    }

    /// The shape of the operand that follows this opcode.
    pub fn operand_shape(self) -> (r: OperandShape)
        ensures
            r == self.shape(),
    {
        match self {
            Opcode::ARG => OperandShape::Byte,
            Opcode::ENTER
            | Opcode::LEAVE
            | Opcode::CONST
            | Opcode::LOCAL
            | Opcode::EQ
            | Opcode::NE
            | Opcode::LTI
            | Opcode::LEI
            | Opcode::GTI
            | Opcode::GEI
            | Opcode::LTU
            | Opcode::LEU
            | Opcode::GTU
            | Opcode::GEU
            | Opcode::EQF
            | Opcode::NEF
            | Opcode::LTF
            | Opcode::LEF
            | Opcode::GTF
            | Opcode::GEF
            | Opcode::BLOCK_COPY => OperandShape::Word,
            _ => OperandShape::Empty,
        }
    }

    /// The opcode that a byte encodes, if any.
    pub fn from_byte(b: u8) -> (r: Option<Opcode>)
        ensures
            r matches Some(op) ==> op.byte() == b,
            r is None <==> b >= OPCODE_COUNT,
    {
        match b {
            0 => Some(Opcode::UNDEF),
            1 => Some(Opcode::IGNORE),
            2 => Some(Opcode::BREAK),
            3 => Some(Opcode::ENTER),
            4 => Some(Opcode::LEAVE),
            5 => Some(Opcode::CALL),
            6 => Some(Opcode::PUSH),
            7 => Some(Opcode::POP),
            8 => Some(Opcode::CONST),
            9 => Some(Opcode::LOCAL),
            10 => Some(Opcode::JUMP),
            11 => Some(Opcode::EQ),
            12 => Some(Opcode::NE),
            13 => Some(Opcode::LTI),
            14 => Some(Opcode::LEI),
            15 => Some(Opcode::GTI),
            16 => Some(Opcode::GEI),
            17 => Some(Opcode::LTU),
            18 => Some(Opcode::LEU),
            19 => Some(Opcode::GTU),
            20 => Some(Opcode::GEU),
            21 => Some(Opcode::EQF),
            22 => Some(Opcode::NEF),
            23 => Some(Opcode::LTF),
            24 => Some(Opcode::LEF),
            25 => Some(Opcode::GTF),
            26 => Some(Opcode::GEF),
            27 => Some(Opcode::LOAD1),
            28 => Some(Opcode::LOAD2),
            29 => Some(Opcode::LOAD4),
            30 => Some(Opcode::STORE1),
            31 => Some(Opcode::STORE2),
            32 => Some(Opcode::STORE4),
            33 => Some(Opcode::ARG),
            34 => Some(Opcode::BLOCK_COPY),
            35 => Some(Opcode::SEX8),
            36 => Some(Opcode::SEX16),
            37 => Some(Opcode::NEGI),
            38 => Some(Opcode::ADD),
            39 => Some(Opcode::SUB),
            40 => Some(Opcode::DIVI),
            41 => Some(Opcode::DIVU),
            42 => Some(Opcode::MODI),
            43 => Some(Opcode::MODU),
            44 => Some(Opcode::MULI),
            45 => Some(Opcode::MULU),
            46 => Some(Opcode::BAND),
            47 => Some(Opcode::BOR),
            48 => Some(Opcode::BXOR),
            49 => Some(Opcode::BCOM),
            50 => Some(Opcode::LSH),
            51 => Some(Opcode::RSHI),
            52 => Some(Opcode::RSHU),
            53 => Some(Opcode::NEGF),
            54 => Some(Opcode::ADDF),
            55 => Some(Opcode::SUBF),
            56 => Some(Opcode::DIVF),
            57 => Some(Opcode::MULF),
            58 => Some(Opcode::CVIF),
            59 => Some(Opcode::CVFI),
            _ => None,
        }
    }
}

/// The opcode that a byte encodes, if any: the inverse of `Opcode::byte`.
pub open spec fn opcode_of_byte(b: u8) -> Option<Opcode> {
    if b < OPCODE_COUNT {
        Some(choose|op: Opcode| op.byte() == b)
    } else {
        None
    }
}

/// Every opcode is encoded by a byte below `OPCODE_COUNT`.
pub proof fn lemma_byte_in_range(op: Opcode)
    ensures
        op.byte() < OPCODE_COUNT,
{
}

/// No two opcodes share a byte.
pub proof fn lemma_byte_injective(a: Opcode, c: Opcode)
    requires
        a.byte() == c.byte(),
    ensures
        a == c,
{
}

/// Decoding the byte of an opcode gives that opcode back.
pub proof fn lemma_opcode_of_byte(op: Opcode)
    ensures
        opcode_of_byte(op.byte()) == Some(op),
{
    let c = choose|c: Opcode| c.byte() == op.byte();
    lemma_byte_injective(c, op);
}

} // verus!
