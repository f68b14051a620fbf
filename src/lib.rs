//! A library to handle Quake 3 virtual machines: it decodes a compiled QVM
//! image from its bytes into instructions and data segments.
use vstd::prelude::*;

pub mod bytecode;
pub mod errors;
pub mod lemmas;
pub mod opcodes;
pub mod parser;

pub use bytecode::Instruction;
pub use errors::DecodeError;
pub use opcodes::Opcode;

verus! {

/// A Quake 3 virtual machine image.
///
/// A VM consists of instructions and data, where data is separated into
///
/// * word-sized data
/// * byte-sized data (LIT)
/// * uninitialized data (BSS), of which only the size is kept
#[derive(Debug, PartialEq, Eq)]
pub struct QVM {
    code: Vec<Instruction>,
    data: Vec<u32>,
    lit: Vec<u8>,
    bss_length: u32,
}

/// The contents of a `QVM`.
pub struct QvmView {
    /// The instructions of the code segment, in order.
    pub code: Seq<Instruction>,
    /// The words of the data segment, in order.
    pub data: Seq<u32>,
    /// The bytes of the lit segment, in order.
    pub lit: Seq<u8>,
    /// Size of the zero-initialised region.
    pub bss_length: u32,
}

impl View for QVM {
    type V = QvmView;

    closed spec fn view(&self) -> QvmView {
        QvmView { code: self.code@, data: self.data@, lit: self.lit@, bss_length: self.bss_length }
    }
}

/// The contents of a `QVM` result.
pub open spec fn result_view(r: Result<QVM, DecodeError>) -> Result<QvmView, DecodeError> {
    match r {
        Ok(q) => Ok(q@),
        Err(e) => Err(e),
    }
}

impl QVM {
    /// Creates a new VM instance from its segments.
    ///
    /// Instructions are not checked: a jump target or an address may lie
    /// outside the image. This never fails.
    pub fn new(code: Vec<Instruction>, data: Vec<u32>, lit: Vec<u8>, bss_length: u32) -> (r: Result<
        QVM,
        DecodeError,
    >)
        ensures
            r matches Ok(q) && q@ == (QvmView {
                code: code@,
                data: data@,
                lit: lit@,
                bss_length,
            }),
    {
        Ok(QVM { code, data, lit, bss_length })
    }

    /// The instructions of the code segment.
    pub fn code(&self) -> (r: &Vec<Instruction>)
        ensures
            r@ == self@.code,
    {
        &self.code
    }

    /// The words of the data segment.
    pub fn data(&self) -> (r: &Vec<u32>)
        ensures
            r@ == self@.data,
    {
        &self.data
    }

    /// The bytes of the lit segment.
    pub fn lit(&self) -> (r: &Vec<u8>)
        ensures
            r@ == self@.lit,
    {
        &self.lit
    }

    /// The size of the zero-initialised region that the image asks for.
    pub fn bss_length(&self) -> (r: u32)
        ensures
            r == self@.bss_length,
    {
        self.bss_length
    }
}

/// The different segments/sections in a QVM file, named as in ioquake3's
/// `segmentName_t`.
#[allow(non_camel_case_types)]
#[derive(Debug, Clone, Copy, PartialEq, Eq, Structural)]
pub enum Segment {
    /// The code segment, consisting of instructions.
    CODE,
    /// The data segment, consisting of word-sized data.
    DATA,
    /// The LIT segment, consisting of byte-sized data.
    LIT,
    /// The BSS pseudo-segment, consisting of uninitialized data.
    BSS,
    /// The jump table targets pseudo-segment, consisting of jump label addresses.
    JTRG,
}

} // verus!
