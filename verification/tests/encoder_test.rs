use dustbox::cpu::decoder::Decoder;
use dustbox::cpu::encoder::Encoder;
use dustbox::cpu::instruction::Instruction;
use dustbox::cpu::op::Op;
use dustbox::cpu::parameter::Parameter;
use dustbox::cpu::register::{AMode, R};
use dustbox::cpu::segment::Segment;
use dustbox::memory::Memory;

#[test]
fn can_encode_xchg8() {
    // r/m8, r8
    let op = Instruction::new2(Op::Xchg8, Parameter::Reg8(R::BH), Parameter::Reg8(R::DL));
    assert_encdec(&op, vec![0x86, 0xD7]);
    // nasm picks the other operand order for the same instruction:
    // 00000100  86FA              xchg bh,dl       nasm        FA = 0b1111_1010
    // 00000102  86D7              xchg dl,bh       us          D7 = 0b1101_0111
}

#[test]
fn can_encode_test8() {
    // AL, imm8
    let op = Instruction::new2(Op::Test8, Parameter::Reg8(R::AL), Parameter::Imm8(0xFF));
    assert_encdec(&op, vec![0xA8, 0xFF]);
    
    // r8, imm8
    let op = Instruction::new2(Op::Test8, Parameter::Reg8(R::BH), Parameter::Imm8(0xFF));
    assert_encdec(&op, vec![0xF6, 0xC7, 0xFF]);

    // r/m8, r8  (dst is r8)
    let op = Instruction::new2(Op::Test8, Parameter::Reg8(R::BH), Parameter::Reg8(R::DL));
    assert_encdec(&op, vec![0x84, 0xD7]);

    // r/m8, r8: the decoder gives only this operand order
    let op = Instruction::new2(Op::Test8, Parameter::Ptr8(Segment::Default, 0xC365), Parameter::Reg8(R::BH));
    assert_encdec(&op, vec![0x84, 0x3E, 0x65, 0xC3]);
}

#[test]
fn can_encode_not8() {
    // r/m8
    let op = Instruction::new1(Op::Not8, Parameter::Reg8(R::BH));
    assert_encdec(&op, vec![0xF6, 0xD7]);

    // r/m8
    let op = Instruction::new1(Op::Not8, Parameter::Ptr8(Segment::Default, 0xC365));
    assert_encdec(&op, vec![0xF6, 0x16, 0x65, 0xC3]);
}

#[test]
fn can_encode_neg8() {
    // r/m8
    let op = Instruction::new1(Op::Neg8, Parameter::Reg8(R::BH));
    assert_encdec(&op, vec![0xF6, 0xDF]);

    // r/m8
    let op = Instruction::new1(Op::Neg8, Parameter::Ptr8(Segment::Default, 0xC365));
    assert_encdec(&op, vec![0xF6, 0x1E, 0x65, 0xC3]);
}

#[test]
fn can_encode_mul8() {
    // r/m8
    let op = Instruction::new1(Op::Mul8, Parameter::Reg8(R::BH));
    assert_encdec(&op, vec![0xF6, 0xE7]);

    // r/m8
    let op = Instruction::new1(Op::Mul8, Parameter::Ptr8(Segment::Default, 0xC365));
    assert_encdec(&op, vec![0xF6, 0x26, 0x65, 0xC3]);
}

#[test]
fn can_encode_imul8() {
    // r/m8
    let op = Instruction::new1(Op::Imul8, Parameter::Reg8(R::BH));
    assert_encdec(&op, vec![0xF6, 0xEF]);

    // r/m8
    let op = Instruction::new1(Op::Imul8, Parameter::Ptr8(Segment::Default, 0xC365));
    assert_encdec(&op, vec![0xF6, 0x2E, 0x65, 0xC3]);
}

#[test]
fn can_encode_div8() {
    // r/m8
    let op = Instruction::new1(Op::Div8, Parameter::Reg8(R::BH));
    assert_encdec(&op, vec![0xF6, 0xF7]);

    // r/m8
    let op = Instruction::new1(Op::Div8, Parameter::Ptr8(Segment::Default, 0xC365));
    assert_encdec(&op, vec![0xF6, 0x36, 0x65, 0xC3]);
}

#[test]
fn can_encode_idiv8() {
    // r/m8
    let op = Instruction::new1(Op::Idiv8, Parameter::Reg8(R::BH));
    assert_encdec(&op, vec![0xF6, 0xFF]);

    // r/m8
    let op = Instruction::new1(Op::Idiv8, Parameter::Ptr8(Segment::Default, 0xC365));
    assert_encdec(&op, vec![0xF6, 0x3E, 0x65, 0xC3]);
}

#[test]
fn can_encode_and8() {
    // AL, imm8
    let op = Instruction::new2(Op::And8, Parameter::Reg8(R::AL), Parameter::Imm8(0xFF));
    assert_encdec(&op, vec![0x24, 0xFF]);

    // r8, imm8
    let op = Instruction::new2(Op::And8, Parameter::Reg8(R::BL), Parameter::Imm8(0xFF));
    assert_encdec(&op, vec![0x80, 0xE3, 0xFF]);

    // r/m8, r8  (dst is r8)
    let op = Instruction::new2(Op::And8, Parameter::Reg8(R::BH), Parameter::Reg8(R::DL));
    assert_encdec(&op, vec![0x20, 0xD7]);

    // r8, r/m8
    let op = Instruction::new2(Op::And8, Parameter::Reg8(R::BH), Parameter::Ptr8(Segment::Default, 0xC365));
    assert_encdec(&op, vec![0x22, 0x3E, 0x65, 0xC3]);
}

#[test]
fn can_encode_xor8() {
    // AL, imm8
    let op = Instruction::new2(Op::Xor8, Parameter::Reg8(R::AL), Parameter::Imm8(0xFF));
    assert_encdec(&op, vec![0x34, 0xFF]);

    // r8, imm8
    let op = Instruction::new2(Op::Xor8, Parameter::Reg8(R::BL), Parameter::Imm8(0xFF));
    assert_encdec(&op, vec![0x80, 0xF3, 0xFF]);

    // r/m8, r8  (dst is r8)
    let op = Instruction::new2(Op::Xor8, Parameter::Reg8(R::BH), Parameter::Reg8(R::DL));
    assert_encdec(&op, vec![0x30, 0xD7]);

    // r8, r/m8
    let op = Instruction::new2(Op::Xor8, Parameter::Reg8(R::BH), Parameter::Ptr8(Segment::Default, 0xC365));
    assert_encdec(&op, vec![0x32, 0x3E, 0x65, 0xC3]);
}

#[test]
fn can_encode_or8() {
    // AL, imm8
    let op = Instruction::new2(Op::Or8, Parameter::Reg8(R::AL), Parameter::Imm8(0xFF));
    assert_encdec(&op, vec![0x0C, 0xFF]);

    // r8, imm8
    let op = Instruction::new2(Op::Or8, Parameter::Reg8(R::BL), Parameter::Imm8(0xFF));
    assert_encdec(&op, vec![0x80, 0xCB, 0xFF]);

    // r/m8, r8  (dst is r8)
    let op = Instruction::new2(Op::Or8, Parameter::Reg8(R::BH), Parameter::Reg8(R::DL));
    assert_encdec(&op, vec![0x08, 0xD7]);

    // r8, r/m8
    let op = Instruction::new2(Op::Or8, Parameter::Reg8(R::BH), Parameter::Ptr8(Segment::Default, 0xC365));
    assert_encdec(&op, vec![0x0A, 0x3E, 0x65, 0xC3]);
}

#[test]
fn can_encode_add8() {
    // AL, imm8
    let op = Instruction::new2(Op::Add8, Parameter::Reg8(R::AL), Parameter::Imm8(0xFF));
    assert_encdec(&op, vec![0x04, 0xFF]);

    // r8, imm8
    let op = Instruction::new2(Op::Add8, Parameter::Reg8(R::BL), Parameter::Imm8(0xFF));
    assert_encdec(&op, vec![0x80, 0xC3, 0xFF]);

    // r/m8, r8  (dst is r8)
    let op = Instruction::new2(Op::Add8, Parameter::Reg8(R::BH), Parameter::Reg8(R::DL));
    assert_encdec(&op, vec![0x00, 0xD7]);

    // r8, r/m8
    let op = Instruction::new2(Op::Add8, Parameter::Reg8(R::BH), Parameter::Ptr8(Segment::Default, 0xC365));
    assert_encdec(&op, vec![0x02, 0x3E, 0x65, 0xC3]);
}

#[test]
fn can_encode_sub8() {
    // AL, imm8
    let op = Instruction::new2(Op::Sub8, Parameter::Reg8(R::AL), Parameter::Imm8(0xFF));
    assert_encdec(&op, vec![0x2C, 0xFF]);

    // r8, imm8
    let op = Instruction::new2(Op::Sub8, Parameter::Reg8(R::BL), Parameter::Imm8(0xFF));
    assert_encdec(&op, vec![0x80, 0xEB, 0xFF]);

    // r/m8, r8  (dst is r8)
    let op = Instruction::new2(Op::Sub8, Parameter::Reg8(R::BH), Parameter::Reg8(R::DL));
    assert_encdec(&op, vec![0x28, 0xD7]);

    // r8, r/m8
    let op = Instruction::new2(Op::Sub8, Parameter::Reg8(R::BH), Parameter::Ptr8(Segment::Default, 0xC365));
    assert_encdec(&op, vec![0x2A, 0x3E, 0x65, 0xC3]);
}

#[test]
fn can_encode_sbb8() {
    // AL, imm8
    let op = Instruction::new2(Op::Sbb8, Parameter::Reg8(R::AL), Parameter::Imm8(0xFF));
    assert_encdec(&op, vec![0x1C, 0xFF]);

    // r8, imm8
    let op = Instruction::new2(Op::Sbb8, Parameter::Reg8(R::BL), Parameter::Imm8(0xFF));
    assert_encdec(&op, vec![0x80, 0xDB, 0xFF]);

    // r/m8, r8  (dst is r8)
    let op = Instruction::new2(Op::Sbb8, Parameter::Reg8(R::BH), Parameter::Reg8(R::DL));
    assert_encdec(&op, vec![0x18, 0xD7]);

    // r8, r/m8
    let op = Instruction::new2(Op::Sbb8, Parameter::Reg8(R::BH), Parameter::Ptr8(Segment::Default, 0xC365));
    assert_encdec(&op, vec![0x1A, 0x3E, 0x65, 0xC3]);
}

#[test]
fn can_encode_adc8() {
    // AL, imm8
    let op = Instruction::new2(Op::Adc8, Parameter::Reg8(R::AL), Parameter::Imm8(0xFF));
    assert_encdec(&op, vec![0x14, 0xFF]);

    // r8, imm8
    let op = Instruction::new2(Op::Adc8, Parameter::Reg8(R::BL), Parameter::Imm8(0xFF));
    assert_encdec(&op, vec![0x80, 0xD3, 0xFF]);

    // r/m8, r8  (dst is r8)
    let op = Instruction::new2(Op::Adc8, Parameter::Reg8(R::BH), Parameter::Reg8(R::DL));
    assert_encdec(&op, vec![0x10, 0xD7]);

    // r8, r/m8
    let op = Instruction::new2(Op::Adc8, Parameter::Reg8(R::BH), Parameter::Ptr8(Segment::Default, 0xC365));
    assert_encdec(&op, vec![0x12, 0x3E, 0x65, 0xC3]);
}

#[test]
fn can_encode_cmp8() {
    // r8, imm8
    let op = Instruction::new2(Op::Cmp8, Parameter::Reg8(R::BH), Parameter::Imm8(0xFF));
    assert_encdec(&op, vec![0x80, 0xFF, 0xFF]);

    // r/m8, r8  (dst is r8)
    let op = Instruction::new2(Op::Cmp8, Parameter::Reg8(R::BH), Parameter::Reg8(R::DL));
    assert_encdec(&op, vec![0x38, 0xD7]);

    // r/m8, r8  (dst is AMode::BP + imm8)
    let op = Instruction::new2(Op::Cmp8, Parameter::Ptr8AmodeS8(Segment::Default, AMode::BP, 0x10), Parameter::Reg8(R::BH));
    assert_encdec(&op, vec![0x38, 0x7E, 0x10]);

    // r/m8, r8  (dst is AMode::BP + imm8)    - reversed
    let op = Instruction::new2(Op::Cmp8, Parameter::Reg8(R::BH), Parameter::Ptr8AmodeS8(Segment::Default, AMode::BP, 0x10));
    assert_encdec(&op, vec![0x3A, 0x7E, 0x10]);

    // r8, r/m8
    let op = Instruction::new2(Op::Cmp8, Parameter::Reg8(R::BH), Parameter::Ptr8(Segment::Default, 0xC365));
    assert_encdec(&op, vec![0x3A, 0x3E, 0x65, 0xC3]);

    // r/m8, r8  (dst is AMode::BP + imm8)
    let op = Instruction::new2(Op::Cmp8, Parameter::Ptr8AmodeS16(Segment::Default, AMode::BP, -0x800), Parameter::Reg8(R::BH));
    assert_encdec(&op, vec![0x38, 0xBE, 0x00, 0xF8]);

    // r/m8, r8  (dst is [imm16])
    let op = Instruction::new2(Op::Cmp8, Parameter::Ptr8(Segment::Default, 0x8000), Parameter::Reg8(R::BH));
    assert_encdec(&op, vec![0x38, 0x3E, 0x00, 0x80]);

    // r/m8, r8  (dst is [bx])
    let op = Instruction::new2(Op::Cmp8, Parameter::Ptr8Amode(Segment::Default, AMode::BX), Parameter::Reg8(R::BH));
    assert_encdec(&op, vec![0x38, 0x3F]);
}

#[test]
fn can_encode_cmp16() {
    // the encoder has no 16-bit compare form
}

#[test]
fn can_encode_inc() {
    let op = Instruction::new1(Op::Inc8, Parameter::Reg8(R::BH));
    assert_encdec(&op, vec![0xFE, 0xC7]);

    let op = Instruction::new1(Op::Inc8, Parameter::Ptr8AmodeS8(Segment::Default, AMode::BP, 0x10));
    assert_encdec(&op, vec![0xFE, 0x46, 0x10]);
    
    let op = Instruction::new1(Op::Inc16, Parameter::Reg16(R::BX));
    assert_encdec(&op, vec![0x43]);

    let op = Instruction::new1(Op::Inc16, Parameter::Ptr16AmodeS8(Segment::Default, AMode::BP, 0x10));
    assert_encdec(&op, vec![0xFF, 0x46, 0x10]);
}

#[test]
fn can_encode_dec() {
    let op = Instruction::new1(Op::Dec8, Parameter::Reg8(R::BH));
    assert_encdec(&op, vec![0xFE, 0xCF]);

    let op = Instruction::new1(Op::Dec16, Parameter::Reg16(R::BX));
    assert_encdec(&op, vec![0x4B]);

    let op = Instruction::new1(Op::Dec16, Parameter::Ptr16AmodeS8(Segment::Default, AMode::BP, 0x10));
    assert_encdec(&op, vec![0xFF, 0x4E, 0x10]);
}



#[test]
fn can_encode_push() {
    let op = Instruction::new1(Op::Push16, Parameter::Imm16(0x8088));
    assert_encdec(&op, vec![0x68, 0x88, 0x80]);
}

#[test]
fn can_encode_pop() {
    let op = Instruction::new(Op::Popf);
    assert_encdec(&op, vec![0x9D]);
}

#[test]
fn can_encode_lea() {
    let op = Instruction::new2(Op::Lea16, Parameter::Reg16(R::DI), Parameter::Ptr16Amode(Segment::Default, AMode::BX));
    assert_encdec(&op, vec![0x8D, 0x3F]);
}

#[test]
fn can_encode_shld() {
    let op = Instruction::new3(Op::Shld, Parameter::Reg16(R::BX), Parameter::Reg16(R::DI), Parameter::Imm8(0x8));
    assert_encdec(&op, vec![0x0F, 0xA4, 0xFB, 0x08]);
}

#[test]
fn can_encode_shrd() {
    let op = Instruction::new3(Op::Shrd, Parameter::Reg16(R::BX), Parameter::Reg16(R::DI), Parameter::Imm8(0x8));
    assert_encdec(&op, vec![0x0F, 0xAC, 0xFB, 0x08]);
}

#[test]
fn can_encode_bitshift_instructions() {
    let op = Instruction::new2(Op::Shr8, Parameter::Reg8(R::AH), Parameter::Imm8(0xFF));
    assert_encdec(&op, vec![0xC0, 0xEC, 0xFF]);

    let op = Instruction::new2(Op::Shl8, Parameter::Reg8(R::AH), Parameter::Imm8(0xFF));
    assert_encdec(&op, vec![0xC0, 0xE4, 0xFF]);
}

#[test]
fn can_encode_int() {
    let op = Instruction::new1(Op::Int, Parameter::Imm8(0x21));
    assert_encdec(&op, vec![0xCD, 0x21]);
}

#[test]
fn can_encode_mov8() {
    // r8, imm8
    let op = Instruction::new2(Op::Mov8, Parameter::Reg8(R::BH), Parameter::Imm8(0xFF));
    assert_encdec(&op, vec![0xB7, 0xFF]);

    // r/m8, r8  (dst is r8)
    let op = Instruction::new2(Op::Mov8, Parameter::Reg8(R::BH), Parameter::Reg8(R::DL));
    assert_encdec(&op, vec![0x88, 0xD7]);

    // r/m8, r8  (dst is AMode::BP + imm8)
    let op = Instruction::new2(Op::Mov8, Parameter::Ptr8AmodeS8(Segment::Default, AMode::BP, 0x10), Parameter::Reg8(R::BH));
    assert_encdec(&op, vec![0x88, 0x7E, 0x10]);

    // r/m8, r8  (dst is AMode::BP + imm8)    - reversed
    let op = Instruction::new2(Op::Mov8, Parameter::Reg8(R::BH), Parameter::Ptr8AmodeS8(Segment::Default, AMode::BP, 0x10));
    assert_encdec(&op, vec![0x8A, 0x7E, 0x10]);

    // r8, r/m8
    let op = Instruction::new2(Op::Mov8, Parameter::Reg8(R::BH), Parameter::Ptr8(Segment::Default, 0xC365));
    assert_encdec(&op, vec![0x8A, 0x3E, 0x65, 0xC3]);

    // r/m8, r8  (dst is AMode::BP + imm8)
    let op = Instruction::new2(Op::Mov8, Parameter::Ptr8AmodeS16(Segment::Default, AMode::BP, -0x800), Parameter::Reg8(R::BH));
    assert_encdec(&op, vec![0x88, 0xBE, 0x00, 0xF8]);

    // r/m8, r8  (dst is [imm16])
    let op = Instruction::new2(Op::Mov8, Parameter::Ptr8(Segment::Default, 0x8000), Parameter::Reg8(R::BH));
    assert_encdec(&op, vec![0x88, 0x3E, 0x00, 0x80]);

    // r/m8, r8  (dst is [bx])
    let op = Instruction::new2(Op::Mov8, Parameter::Ptr8Amode(Segment::Default, AMode::BX), Parameter::Reg8(R::BH));
    assert_encdec(&op, vec![0x88, 0x3F]);
}

#[test]
fn can_encode_mov16() {
    // r16, imm16
    let op = Instruction::new2(Op::Mov16, Parameter::Reg16(R::BX), Parameter::Imm16(0x8844));
    assert_encdec(&op, vec![0xBB, 0x44, 0x88]);
}

/// Encodes `op`, checks the bytes, and decodes them back from memory.
fn assert_encdec(op: &Instruction, expected_bytes: Vec<u8>) {
    let encoder = Encoder::new();
    let code = encoder.encode(op).unwrap();
    assert_eq!(expected_bytes, code, "encoded byte sequence does not match expected bytes");

    let mut mem = Memory::new();
    let cs: u16 = 0x085F;
    mem.write(cs, 0x100, &code);
    let mut decoder = Decoder::default();
    let ops = decoder.decode_to_block(&mem, cs, 0x100, 1);
    let decoded_op = &ops[0].instruction;
    assert_eq!(op, decoded_op, "decoded resulting op from instruction encode does not match input op");
    assert_eq!(code, ops[0].bytes, "the decoder takes exactly the encoded bytes");
}
