//! Types for the compiled format of a QVM.
use vstd::prelude::*;
use vstd::bytes::spec_u32_to_le_bytes;

use crate::opcodes::{Opcode, OperandShape};

verus! {

/// Size of procedure stack adjustment.
pub type FrameSize = u32;

/// Size of memory block to copy.
pub type BlockSize = u32;

/// Offset within stack frame.
pub type FrameOffset = u32;

/// Offset within the argument marshalling space.
pub type ArgOffset = u8;

/// Absolute instruction offset within code segment.
pub type Address = u32;

/// Literal value.
///
/// The bit pattern is kept as it was encoded: whether it stands for a signed
/// or an unsigned number is for the consumer to decide.
pub type Literal = u32;

/// A QVM instruction: one variant per opcode, carrying the operand of the
/// opcodes that have one.
#[allow(non_camel_case_types)]
#[derive(Debug, PartialEq, Eq, Copy, Clone, Structural)]
pub enum Instruction {
    /// Undefined instruction.
    ///
    /// Used for padding the code segment. Should not occur at runtime.
    UNDEF,

    /// No-operation (NOP).
    IGNORE,

    /// Software breakpoint.
    BREAK,

    /// Enter a procedure, adjusting stack.
    ENTER(FrameSize),
    /// Leave a procedure, adjusting stack.
    LEAVE(FrameSize),
    /// Call a procedure.
    CALL,
    /// Push stack.
    PUSH,
    /// Pop stack.
    POP,

    /// Push constant onto stack.
    CONST(Literal),
    /// Get address of frame local variable or argument.
    LOCAL(FrameOffset),

    /// Jump to top of stack.
    JUMP,

    /// Check (signed integer) equality, jump to `Address` if true.
    EQ(Address),
    /// Check (signed integer) inequality, jump to `Address` if true.
    NE(Address),

    /// Check (signed integer) less-than, jump to `Address` if true.
    LTI(Address),
    /// Check (signed integer) less-than or equal-to, jump to `Address` if true.
    LEI(Address),
    /// Check (signed integer) greater-than, jump to `Address` if true.
    GTI(Address),
    /// Check (signed integer) greater-than or equal-to, jump to `Address` if true.
    GEI(Address),

    /// Check (unsigned integer) less-than, jump to `Address` if true.
    LTU(Address),
    /// Check (unsigned integer) less-than or equal-to, jump to `Address` if true.
    LEU(Address),
    /// Check (unsigned integer) greater-than, jump to `Address` if true.
    GTU(Address),
    /// Check (unsigned integer) greater-than or equal-to, jump to `Address` if true.
    GEU(Address),

    /// Check (float) equality, jump to `Address` if true.
    EQF(Address),
    /// Check (float) inequality, jump to `Address` if true.
    NEF(Address),

    /// Check (float) less-than, jump to `Address` if true.
    LTF(Address),
    /// Check (float) less-than or equal-to, jump to `Address` if true.
    LEF(Address),
    /// Check (float) greater-than, jump to `Address` if true.
    GTF(Address),
    /// Check (float) greater-than or equal-to, jump to `Address` if true.
    GEF(Address),

    /// Load 1-octet value.
    LOAD1,
    /// Load 2-octet value.
    LOAD2,
    /// Load 4-octet value.
    LOAD4,
    /// Store 1-octet value.
    STORE1,
    /// Store 2-octet value.
    STORE2,
    /// Store 4-octet value.
    STORE4,
    /// Store value into marshalling space.
    ARG(ArgOffset),

    /// Copy a block of memory.
    BLOCK_COPY(BlockSize),

    /// Sign-extend 8-bit.
    SEX8,
    /// Sign-extend 16-bit.
    SEX16,

    /// Negate (signed integer).
    NEGI,
    /// Add.
    ADD,
    /// Subtract.
    SUB,
    /// Divide (signed integer).
    DIVI,
    /// Divide (unsigned integer).
    DIVU,
    /// Modulo (signed integer).
    MODI,
    /// Modulo (unsigned integer).
    MODU,
    /// Multiply (signed integer).
    MULI,
    /// Multiply (unsigned integer).
    MULU,

    /// Bitwise AND.
    BAND,
    /// Bitwise OR.
    BOR,
    /// Bitwise XOR.
    BXOR,
    /// Bitwise complement.
    BCOM,

    /// Bitwise left-shift.
    LSH,
    /// Algebraic (signed) right-shift.
    RSHI,
    /// Bitwise (unsigned) right-shift.
    RSHU,

    /// Negate (float).
    NEGF,
    /// Add (float).
    ADDF,
    /// Subtract (float).
    SUBF,
    /// Divide (float).
    DIVF,
    /// Multiply (float).
    MULF,

    /// Convert signed integer to float.
    CVIF,
    /// Convert float to signed integer.
    CVFI,
}


impl OperandShape {
    /// Whether `v` can be the operand of this shape: no operand reads as 0,
    /// a byte operand is below 256.
    pub open spec fn holds(self, v: u32) -> bool {
        match self {
            OperandShape::Empty => v == 0,
            OperandShape::Byte => v < 256,
            OperandShape::Word => true,
        }
    }
}

impl Instruction {
    /// The opcode of this instruction.
    pub open spec fn opcode(self) -> Opcode {
        match self {
            Instruction::UNDEF => Opcode::UNDEF,
            Instruction::IGNORE => Opcode::IGNORE,
            Instruction::BREAK => Opcode::BREAK,
            Instruction::ENTER(_) => Opcode::ENTER,
            Instruction::LEAVE(_) => Opcode::LEAVE,
            Instruction::CALL => Opcode::CALL,
            Instruction::PUSH => Opcode::PUSH,
            Instruction::POP => Opcode::POP,
            Instruction::CONST(_) => Opcode::CONST,
            Instruction::LOCAL(_) => Opcode::LOCAL,
            Instruction::JUMP => Opcode::JUMP,
            Instruction::EQ(_) => Opcode::EQ,
            Instruction::NE(_) => Opcode::NE,
            Instruction::LTI(_) => Opcode::LTI,
            Instruction::LEI(_) => Opcode::LEI,
            Instruction::GTI(_) => Opcode::GTI,
            Instruction::GEI(_) => Opcode::GEI,
            Instruction::LTU(_) => Opcode::LTU,
            Instruction::LEU(_) => Opcode::LEU,
            Instruction::GTU(_) => Opcode::GTU,
            Instruction::GEU(_) => Opcode::GEU,
            Instruction::EQF(_) => Opcode::EQF,
            Instruction::NEF(_) => Opcode::NEF,
            Instruction::LTF(_) => Opcode::LTF,
            Instruction::LEF(_) => Opcode::LEF,
            Instruction::GTF(_) => Opcode::GTF,
            Instruction::GEF(_) => Opcode::GEF,
            Instruction::LOAD1 => Opcode::LOAD1,
            Instruction::LOAD2 => Opcode::LOAD2,
            Instruction::LOAD4 => Opcode::LOAD4,
            Instruction::STORE1 => Opcode::STORE1,
            Instruction::STORE2 => Opcode::STORE2,
            Instruction::STORE4 => Opcode::STORE4,
            Instruction::ARG(_) => Opcode::ARG,
            Instruction::BLOCK_COPY(_) => Opcode::BLOCK_COPY,
            Instruction::SEX8 => Opcode::SEX8,
            Instruction::SEX16 => Opcode::SEX16,
            Instruction::NEGI => Opcode::NEGI,
            Instruction::ADD => Opcode::ADD,
            Instruction::SUB => Opcode::SUB,
            Instruction::DIVI => Opcode::DIVI,
            Instruction::DIVU => Opcode::DIVU,
            Instruction::MODI => Opcode::MODI,
            Instruction::MODU => Opcode::MODU,
            Instruction::MULI => Opcode::MULI,
            Instruction::MULU => Opcode::MULU,
            Instruction::BAND => Opcode::BAND,
            Instruction::BOR => Opcode::BOR,
            Instruction::BXOR => Opcode::BXOR,
            Instruction::BCOM => Opcode::BCOM,
            Instruction::LSH => Opcode::LSH,
            Instruction::RSHI => Opcode::RSHI,
            Instruction::RSHU => Opcode::RSHU,
            Instruction::NEGF => Opcode::NEGF,
            Instruction::ADDF => Opcode::ADDF,
            Instruction::SUBF => Opcode::SUBF,
            Instruction::DIVF => Opcode::DIVF,
            Instruction::MULF => Opcode::MULF,
            Instruction::CVIF => Opcode::CVIF,
            Instruction::CVFI => Opcode::CVFI,
        }
    }

    /// The operand of this instruction as a 32-bit value; 0 where there is none.
    pub open spec fn operand(self) -> u32 {
        match self {
            Instruction::ARG(v) => v as u32,
            Instruction::ENTER(v) => v,
            Instruction::LEAVE(v) => v,
            Instruction::CONST(v) => v,
            Instruction::LOCAL(v) => v,
            Instruction::EQ(v) => v,
            Instruction::NE(v) => v,
            Instruction::LTI(v) => v,
            Instruction::LEI(v) => v,
            Instruction::GTI(v) => v,
            Instruction::GEI(v) => v,
            Instruction::LTU(v) => v,
            Instruction::LEU(v) => v,
            Instruction::GTU(v) => v,
            Instruction::GEU(v) => v,
            Instruction::EQF(v) => v,
            Instruction::NEF(v) => v,
            Instruction::LTF(v) => v,
            Instruction::LEF(v) => v,
            Instruction::GTF(v) => v,
            Instruction::GEF(v) => v,
            Instruction::BLOCK_COPY(v) => v,
            _ => 0,
        }
    }

    /// The instruction of opcode `op` whose operand is `operand`.
    pub fn from_parts(op: Opcode, operand: u32) -> (r: Instruction)
        requires
            op.shape().holds(operand),
        ensures
            r.opcode() == op,
            r.operand() == operand,
    {
        match op {
            Opcode::UNDEF => Instruction::UNDEF,
            Opcode::IGNORE => Instruction::IGNORE,
            Opcode::BREAK => Instruction::BREAK,
            Opcode::ENTER => Instruction::ENTER(operand),
            Opcode::LEAVE => Instruction::LEAVE(operand),
            Opcode::CALL => Instruction::CALL,
            Opcode::PUSH => Instruction::PUSH,
            Opcode::POP => Instruction::POP,
            Opcode::CONST => Instruction::CONST(operand),
            Opcode::LOCAL => Instruction::LOCAL(operand),
            Opcode::JUMP => Instruction::JUMP,
            Opcode::EQ => Instruction::EQ(operand),
            Opcode::NE => Instruction::NE(operand),
            Opcode::LTI => Instruction::LTI(operand),
            Opcode::LEI => Instruction::LEI(operand),
            Opcode::GTI => Instruction::GTI(operand),
            Opcode::GEI => Instruction::GEI(operand),
            Opcode::LTU => Instruction::LTU(operand),
            Opcode::LEU => Instruction::LEU(operand),
            Opcode::GTU => Instruction::GTU(operand),
            Opcode::GEU => Instruction::GEU(operand),
            Opcode::EQF => Instruction::EQF(operand),
            Opcode::NEF => Instruction::NEF(operand),
            Opcode::LTF => Instruction::LTF(operand),
            Opcode::LEF => Instruction::LEF(operand),
            Opcode::GTF => Instruction::GTF(operand),
            Opcode::GEF => Instruction::GEF(operand),
            Opcode::LOAD1 => Instruction::LOAD1,
            Opcode::LOAD2 => Instruction::LOAD2,
            Opcode::LOAD4 => Instruction::LOAD4,
            Opcode::STORE1 => Instruction::STORE1,
            Opcode::STORE2 => Instruction::STORE2,
            Opcode::STORE4 => Instruction::STORE4,
            Opcode::ARG => Instruction::ARG(operand as u8),
            Opcode::BLOCK_COPY => Instruction::BLOCK_COPY(operand),
            Opcode::SEX8 => Instruction::SEX8,
            Opcode::SEX16 => Instruction::SEX16,
            Opcode::NEGI => Instruction::NEGI,
            Opcode::ADD => Instruction::ADD,
            Opcode::SUB => Instruction::SUB,
            Opcode::DIVI => Instruction::DIVI,
            Opcode::DIVU => Instruction::DIVU,
            Opcode::MODI => Instruction::MODI,
            Opcode::MODU => Instruction::MODU,
            Opcode::MULI => Instruction::MULI,
            Opcode::MULU => Instruction::MULU,
            Opcode::BAND => Instruction::BAND,
            Opcode::BOR => Instruction::BOR,
            Opcode::BXOR => Instruction::BXOR,
            Opcode::BCOM => Instruction::BCOM,
            Opcode::LSH => Instruction::LSH,
            Opcode::RSHI => Instruction::RSHI,
            Opcode::RSHU => Instruction::RSHU,
            Opcode::NEGF => Instruction::NEGF,
            Opcode::ADDF => Instruction::ADDF,
            Opcode::SUBF => Instruction::SUBF,
            Opcode::DIVF => Instruction::DIVF,
            Opcode::MULF => Instruction::MULF,
            Opcode::CVIF => Instruction::CVIF,
            Opcode::CVFI => Instruction::CVFI,
        }
    }
}

/// The bytes that encode an operand `v` of shape `shape`: none, one byte, or
/// four bytes little-endian.
pub open spec fn operand_bytes(shape: OperandShape, v: u32) -> Seq<u8> {
    match shape {
        OperandShape::Empty => Seq::empty(),
        OperandShape::Byte => seq![v as u8],
        OperandShape::Word => spec_u32_to_le_bytes(v),
    }
}

impl Instruction {
    /// The bytes that encode this instruction in a code segment: its opcode
    /// byte, then its operand.
    pub open spec fn encoding(self) -> Seq<u8> {
        seq![self.opcode().byte()] + operand_bytes(self.opcode().shape(), self.operand())
    }
}

/// The instruction of opcode `op` with operand `v`.
pub open spec fn instruction_of(op: Opcode, v: u32) -> Instruction {
    choose|i: Instruction| i.opcode() == op && i.operand() == v
}

/// The operand of every instruction has the shape that its opcode asks for.
pub proof fn lemma_operand_fits(i: Instruction)
    ensures
        i.opcode().shape().holds(i.operand()),
{
}

/// An instruction is determined by its opcode and its operand.
pub proof fn lemma_instruction_determined(i: Instruction, j: Instruction)
    requires
        i.opcode() == j.opcode(),
        i.operand() == j.operand(),
    ensures
        i == j,
{
}

/// `instruction_of` gives back an instruction from its opcode and operand.
pub proof fn lemma_instruction_of(i: Instruction)
    ensures
        instruction_of(i.opcode(), i.operand()) == i,
{
    let j = instruction_of(i.opcode(), i.operand());
    lemma_instruction_determined(i, j);
}

} // verus!
