use quake3_qvm::opcodes::OperandShape;
use quake3_qvm::parser::{decode_header, decode_instruction, parse_qvm, Header};
use quake3_qvm::{DecodeError, Instruction, Opcode, QVM};

const MINIMAL_CODE: [u8; 21] = [
    0x03, 0x08, 0x00, 0x00, 0x00, // ENTER 8
    0x08, 0xff, 0xff, 0xff, 0xff, // CONST 0xffffffff
    0x04, 0x08, 0x00, 0x00, 0x00, // LEAVE 8
    0x06, // PUSH
    0x04, 0x08, 0x00, 0x00, 0x00, // LEAVE 8
];

fn put_word(out: &mut Vec<u8>, at: usize, w: u32) {
    out[at..at + 4].copy_from_slice(&w.to_le_bytes());
}

/// A header followed by `code`, padding up to a multiple of four bytes, the
/// data words and the lit bytes.
fn image(count: u32, code: &[u8], data: &[u32], lit: &[u8], bss_length: u32) -> Vec<u8> {
    let code_length = code.len() as u32;
    let data_offset = (32 + code_length + 3) / 4 * 4;
    let mut out = vec![0u8; 32];
    out[..4].copy_from_slice(&[0x44, 0x14, 0x72, 0x12]);
    put_word(&mut out, 4, count);
    put_word(&mut out, 8, 32);
    put_word(&mut out, 12, code_length);
    put_word(&mut out, 16, data_offset);
    put_word(&mut out, 20, 4 * data.len() as u32);
    put_word(&mut out, 24, lit.len() as u32);
    put_word(&mut out, 28, bss_length);
    out.extend_from_slice(code);
    out.resize(data_offset as usize, 0);
    for w in data {
        out.extend_from_slice(&w.to_le_bytes());
    }
    out.extend_from_slice(lit);
    out
}

fn minimal_image() -> Vec<u8> {
    image(5, &MINIMAL_CODE, &[0], &[], 0x10000)
}

fn lit_image() -> Vec<u8> {
    image(5, &MINIMAL_CODE, &[0], &[b'!', 0, 0, 0], 0x10000)
}

const W: u32 = 0x1122_3344;
const B: u8 = 0x44;

/// The instruction that each opcode byte gives, in byte order, with the
/// operand `W` or `B` where it has one.
fn every_instruction() -> Vec<Instruction> {
    vec![
        Instruction::UNDEF,
        Instruction::IGNORE,
        Instruction::BREAK,
        Instruction::ENTER(W),
        Instruction::LEAVE(W),
        Instruction::CALL,
        Instruction::PUSH,
        Instruction::POP,
        Instruction::CONST(W),
        Instruction::LOCAL(W),
        Instruction::JUMP,
        Instruction::EQ(W),
        Instruction::NE(W),
        Instruction::LTI(W),
        Instruction::LEI(W),
        Instruction::GTI(W),
        Instruction::GEI(W),
        Instruction::LTU(W),
        Instruction::LEU(W),
        Instruction::GTU(W),
        Instruction::GEU(W),
        Instruction::EQF(W),
        Instruction::NEF(W),
        Instruction::LTF(W),
        Instruction::LEF(W),
        Instruction::GTF(W),
        Instruction::GEF(W),
        Instruction::LOAD1,
        Instruction::LOAD2,
        Instruction::LOAD4,
        Instruction::STORE1,
        Instruction::STORE2,
        Instruction::STORE4,
        Instruction::ARG(B),
        Instruction::BLOCK_COPY(W),
        Instruction::SEX8,
        Instruction::SEX16,
        Instruction::NEGI,
        Instruction::ADD,
        Instruction::SUB,
        Instruction::DIVI,
        Instruction::DIVU,
        Instruction::MODI,
        Instruction::MODU,
        Instruction::MULI,
        Instruction::MULU,
        Instruction::BAND,
        Instruction::BOR,
        Instruction::BXOR,
        Instruction::BCOM,
        Instruction::LSH,
        Instruction::RSHI,
        Instruction::RSHU,
        Instruction::NEGF,
        Instruction::ADDF,
        Instruction::SUBF,
        Instruction::DIVF,
        Instruction::MULF,
        Instruction::CVIF,
        Instruction::CVFI,
    ]
}

#[test]
fn every_opcode_decodes_to_its_variant() {
    let expected = every_instruction();
    assert_eq!(expected.len(), 60);
    for (byte, instruction) in expected.iter().enumerate() {
        let op = Opcode::from_byte(byte as u8).unwrap();
        let mut buf = vec![byte as u8];
        match op.operand_shape() {
            OperandShape::Empty => {}
            OperandShape::Byte => buf.push(B),
            OperandShape::Word => buf.extend_from_slice(&W.to_le_bytes()),
        }
        assert_eq!(decode_instruction(&buf, 0, buf.len()), Ok((*instruction, buf.len())));
        if buf.len() > 1 {
            let short = &buf[..buf.len() - 1];
            assert_eq!(decode_instruction(short, 0, short.len()), Err(DecodeError::Truncated));
        }
    }
}

#[test]
fn operand_shapes_and_widths() {
    assert_eq!(Opcode::ENTER.operand_shape(), OperandShape::Word);
    assert_eq!(Opcode::BLOCK_COPY.operand_shape(), OperandShape::Word);
    assert_eq!(Opcode::GEF.operand_shape(), OperandShape::Word);
    assert_eq!(Opcode::ARG.operand_shape(), OperandShape::Byte);
    assert_eq!(Opcode::ADD.operand_shape(), OperandShape::Empty);
    assert_eq!(OperandShape::Word.size(), 4);
    assert_eq!(OperandShape::Byte.size(), 1);
    assert_eq!(OperandShape::Empty.size(), 0);
}

#[test]
fn opcode_bytes_stop_at_sixty() {
    assert_eq!(Opcode::from_byte(0), Some(Opcode::UNDEF));
    assert_eq!(Opcode::from_byte(33), Some(Opcode::ARG));
    assert_eq!(Opcode::from_byte(59), Some(Opcode::CVFI));
    assert_eq!(Opcode::from_byte(60), None);
    assert_eq!(Opcode::from_byte(255), None);
}

#[test]
fn instruction_from_parts() {
    assert_eq!(Instruction::from_parts(Opcode::CONST, 7), Instruction::CONST(7));
    assert_eq!(Instruction::from_parts(Opcode::ARG, 0xff), Instruction::ARG(0xff));
    assert_eq!(Instruction::from_parts(Opcode::LSH, 0), Instruction::LSH);
}

#[test]
fn instruction_at_an_offset_within_a_segment() {
    let buf = [0x06, 0x03, 0x10, 0x00, 0x00, 0x00, 0x07];
    assert_eq!(decode_instruction(&buf, 1, 6), Ok((Instruction::ENTER(0x10), 6)));
    assert_eq!(decode_instruction(&buf, 1, 5), Err(DecodeError::Truncated));
    assert_eq!(decode_instruction(&buf, 6, 6), Err(DecodeError::Truncated));
    assert_eq!(decode_instruction(&buf, 6, 7), Ok((Instruction::POP, 7)));
}

#[test]
fn unknown_opcode_in_instruction() {
    assert_eq!(decode_instruction(&[60], 0, 1), Err(DecodeError::UnknownOpcode(60, 0)));
    assert_eq!(decode_instruction(&[0xff, 0x03], 0, 2), Err(DecodeError::UnknownOpcode(0xff, 0)));
}

#[test]
fn header_fields_in_order() {
    let buf = image(5, &MINIMAL_CODE, &[0, 1], &[9], 0x10000);
    let expected = Header {
        instruction_count: 5,
        code_offset: 32,
        code_length: 21,
        data_offset: 56,
        data_length: 8,
        lit_length: 1,
        bss_length: 0x10000,
    };
    assert_eq!(decode_header(&buf), Ok(expected));
    assert_eq!(decode_header(&buf[..31]), Err(DecodeError::Truncated));
    assert_eq!(decode_header(&buf[..3]), Err(DecodeError::Truncated));
}

#[test]
fn minimal_image_decodes_exactly() {
    let qvm = parse_qvm(&minimal_image()).unwrap();
    assert_eq!(
        qvm.code(),
        &vec![
            Instruction::ENTER(8),
            Instruction::CONST(0xFFFF_FFFF),
            Instruction::LEAVE(8),
            Instruction::PUSH,
            Instruction::LEAVE(8),
        ]
    );
    assert_eq!(qvm.code()[1], Instruction::CONST(4294967295));
    assert_eq!(qvm.data(), &vec![0]);
    assert!(qvm.lit().is_empty());
    assert_eq!(qvm.bss_length(), 0x10000);
}

#[test]
fn lit_image_keeps_its_bytes() {
    let qvm = parse_qvm(&lit_image()).unwrap();
    assert_eq!(qvm.lit(), &vec![b'!', 0, 0, 0]);
    assert_eq!(qvm.data(), &vec![0]);
}

#[test]
fn data_words_are_little_endian() {
    let qvm = parse_qvm(&image(5, &MINIMAL_CODE, &[0x0102_0304, 0xDEADBEEF], &[], 0)).unwrap();
    assert_eq!(qvm.data(), &vec![0x0102_0304, 0xDEADBEEF]);
}

#[test]
fn decoding_twice_gives_equal_images() {
    let buf = lit_image();
    let first = parse_qvm(&buf);
    let second = parse_qvm(&buf);
    assert!(first.is_ok());
    assert_eq!(first, second);
    let broken = &buf[..buf.len() - 1];
    assert_eq!(parse_qvm(broken), parse_qvm(broken));
}

#[test]
fn bad_magic_whatever_follows() {
    for first in [0x00u8, 0x43, 0xff] {
        let mut buf = minimal_image();
        buf[0] = first;
        assert_eq!(parse_qvm(&buf), Err(DecodeError::BadMagic));
    }
    let mut buf = minimal_image();
    buf[3] = 0x13;
    assert_eq!(parse_qvm(&buf), Err(DecodeError::BadMagic));
    assert_eq!(parse_qvm(&[1, 2, 3, 4]), Err(DecodeError::BadMagic));
    assert_eq!(parse_qvm(b"QVM!garbage that is long enough to be a header"), Err(DecodeError::BadMagic));
}

#[test]
fn version_two_magic_is_unsupported() {
    let mut buf = minimal_image();
    buf[0] = 0x45;
    assert_eq!(parse_qvm(&buf), Err(DecodeError::UnsupportedVersion));
    assert_eq!(parse_qvm(&[0x45, 0x14, 0x72, 0x12]), Err(DecodeError::UnsupportedVersion));
}

#[test]
fn short_buffers_are_truncated() {
    assert_eq!(parse_qvm(&[]), Err(DecodeError::Truncated));
    assert_eq!(parse_qvm(&[0x44, 0x14, 0x72]), Err(DecodeError::Truncated));
    assert_eq!(parse_qvm(&[0x44, 0x14, 0x72, 0x12, 5, 0, 0, 0]), Err(DecodeError::Truncated));
}

#[test]
fn unknown_opcode_in_code_segment() {
    let buf = image(1, &[60], &[], &[], 0);
    assert_eq!(parse_qvm(&buf), Err(DecodeError::UnknownOpcode(60, 32)));
    let buf = image(3, &[0x06, 0xc8, 0x00], &[], &[], 0);
    assert_eq!(parse_qvm(&buf), Err(DecodeError::UnknownOpcode(0xc8, 33)));
}

#[test]
fn data_length_not_multiple_of_four() {
    let mut buf = minimal_image();
    put_word(&mut buf, 20, 6);
    assert_eq!(parse_qvm(&buf), Err(DecodeError::InvalidLayout));
    let mut buf = minimal_image();
    put_word(&mut buf, 20, 3);
    assert_eq!(parse_qvm(&buf), Err(DecodeError::InvalidLayout));
}

#[test]
fn truncated_inside_lit_segment() {
    let buf = lit_image();
    assert_eq!(parse_qvm(&buf[..buf.len() - 1]), Err(DecodeError::Truncated));
    assert_eq!(parse_qvm(&buf[..buf.len() - 3]), Err(DecodeError::Truncated));
}

#[test]
fn every_strict_prefix_is_truncated() {
    let buf = lit_image();
    for k in 0..buf.len() {
        assert_eq!(parse_qvm(&buf[..k]), Err(DecodeError::Truncated), "prefix of {} bytes", k);
    }
}

#[test]
fn trailing_bytes_are_rejected() {
    let mut buf = lit_image();
    buf.push(0);
    assert_eq!(parse_qvm(&buf), Err(DecodeError::TrailingData));
    let mut buf = minimal_image();
    buf.extend_from_slice(&[1, 2, 3, 4, 5]);
    assert_eq!(parse_qvm(&buf), Err(DecodeError::TrailingData));
}

#[test]
fn code_offset_inside_header_is_invalid() {
    let mut buf = minimal_image();
    put_word(&mut buf, 8, 28);
    assert_eq!(parse_qvm(&buf), Err(DecodeError::InvalidLayout));
}

#[test]
fn data_overlapping_code_is_invalid() {
    let mut buf = minimal_image();
    put_word(&mut buf, 16, 52);
    assert_eq!(parse_qvm(&buf), Err(DecodeError::InvalidLayout));
}

#[test]
fn padding_before_code_is_skipped() {
    let plain = minimal_image();
    let mut buf = plain[..32].to_vec();
    buf.extend_from_slice(&[0, 0, 0, 0]);
    buf.extend_from_slice(&plain[32..]);
    put_word(&mut buf, 8, 36);
    put_word(&mut buf, 16, 60);
    assert_eq!(parse_qvm(&buf), parse_qvm(&plain));
    assert!(parse_qvm(&buf).is_ok());
}

#[test]
fn no_padding_between_code_and_data() {
    let code = [0x06, 0x07, 0x06, 0x07];
    let buf = image(4, &code, &[7], &[], 0);
    let qvm = parse_qvm(&buf).unwrap();
    assert_eq!(
        qvm.code(),
        &vec![Instruction::PUSH, Instruction::POP, Instruction::PUSH, Instruction::POP]
    );
    assert_eq!(qvm.data(), &vec![7]);
}

#[test]
fn fewer_instructions_than_code_bytes() {
    let buf = image(4, &MINIMAL_CODE, &[0], &[], 0);
    assert_eq!(parse_qvm(&buf), Err(DecodeError::InvalidLayout));
}

#[test]
fn more_instructions_than_code_bytes() {
    let buf = image(6, &MINIMAL_CODE, &[0], &[], 0);
    assert_eq!(parse_qvm(&buf), Err(DecodeError::Truncated));
}

#[test]
fn operand_straddling_code_end() {
    let mut buf = minimal_image();
    put_word(&mut buf, 12, 20);
    assert_eq!(parse_qvm(&buf), Err(DecodeError::Truncated));
}

#[test]
fn code_segment_past_end_of_buffer() {
    let mut buf = minimal_image();
    put_word(&mut buf, 12, 1000);
    assert_eq!(parse_qvm(&buf), Err(DecodeError::Truncated));
}

#[test]
fn empty_image() {
    let buf = image(0, &[], &[], &[], 16);
    let qvm = parse_qvm(&buf).unwrap();
    assert!(qvm.code().is_empty());
    assert!(qvm.data().is_empty());
    assert!(qvm.lit().is_empty());
    assert_eq!(qvm.bss_length(), 16);
}

#[test]
fn new_keeps_its_segments() {
    let qvm = QVM::new(vec![Instruction::CALL], vec![3, 4], vec![5], 6).unwrap();
    assert_eq!(qvm.code(), &vec![Instruction::CALL]);
    assert_eq!(qvm.data(), &vec![3, 4]);
    assert_eq!(qvm.lit(), &vec![5]);
    assert_eq!(qvm.bss_length(), 6);
}
