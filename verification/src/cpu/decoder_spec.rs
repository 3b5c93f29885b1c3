use vstd::prelude::*;

use crate::cpu::decoder::{AddressSize, OperandSize};
use crate::cpu::instruction::{InstructionView, RepeatMode};
use crate::cpu::op::{Invalid, Op, OpView};
use crate::cpu::parameter::{Parameter, ParameterSet};
use crate::cpu::register::{spec_amode_from, spec_r16, spec_r32, spec_r8, spec_sr, R};
use crate::cpu::segment::Segment;
use crate::memory::{flat, le16, le32};

verus! {

/// The 16-bit offset `k` bytes after `pos`, wrapping within the segment.
pub open spec fn add16(pos: u16, k: int) -> u16 {
    ((pos + k) % 65536) as u16
}

/// Offsets add up within a segment.
pub proof fn lemma_add16(pos: u16, a: int, b: int)
    requires
        0 <= a,
        0 <= b,
    ensures
        add16(add16(pos, a), b) == add16(pos, a + b),
{
    assert(((pos + a) % 65536 + b) % 65536 == (pos + a + b) % 65536) by {
        vstd::arithmetic::div_mod::lemma_add_mod_noop(pos + a, b, 65536);
        vstd::arithmetic::div_mod::lemma_add_mod_noop(pos + a, b, 65536);
        vstd::arithmetic::div_mod::lemma_mod_twice(pos + a, 65536);
    }
}

/// The code byte at `seg:pos`.
pub open spec fn code_u8(mem: Seq<u8>, seg: u16, pos: u16) -> u8 {
    mem[flat(seg, pos)]
}

/// The little-endian code word at `seg:pos`.
pub open spec fn code_u16(mem: Seq<u8>, seg: u16, pos: u16) -> u16 {
    le16(code_u8(mem, seg, pos), code_u8(mem, seg, add16(pos, 1)))
}

/// The little-endian code dword at `seg:pos`.
pub open spec fn code_u32(mem: Seq<u8>, seg: u16, pos: u16) -> u32 {
    le32(code_u16(mem, seg, pos), code_u16(mem, seg, add16(pos, 2)))
}

/// The target of a relative jump whose displacement ends at `after`.
pub open spec fn rel_target(after: u16, disp: int) -> u16 {
    ((after + disp) % 65536) as u16
}

/// The fields of a ModR/M byte.
pub open spec fn modrm_md(b: u8) -> u8 {
    b / 64
}

pub open spec fn modrm_reg(b: u8) -> u8 {
    (b / 8) % 8
}

pub open spec fn modrm_rm(b: u8) -> u8 {
    b % 8
}

/// The state that prefix bytes set up for the instruction they precede.
pub ghost struct Prefixes {
    pub segment_prefix: Segment,
    pub repeat: RepeatMode,
    pub lock: bool,
    pub op_size: OperandSize,
    pub address_size: AddressSize,
}

/// The state before any prefix.
pub open spec fn initial_prefixes() -> Prefixes {
    Prefixes {
        segment_prefix: Segment::Default,
        repeat: RepeatMode::NoRepeat,
        lock: false,
        op_size: OperandSize::_16bit,
        address_size: AddressSize::_16bit,
    }
}

/// What an opcode and its operands decode to, and how many bytes they take.
pub ghost struct Body {
    pub cmd: OpView,
    pub params: ParameterSet,
    pub len: nat,
}

pub open spec fn no_params() -> ParameterSet {
    ParameterSet { dst: Parameter::Empty, src: Parameter::Empty, src2: Parameter::Empty }
}

pub open spec fn p1(dst: Parameter) -> ParameterSet {
    ParameterSet { dst, src: Parameter::Empty, src2: Parameter::Empty }
}

pub open spec fn p2(dst: Parameter, src: Parameter) -> ParameterSet {
    ParameterSet { dst, src, src2: Parameter::Empty }
}

pub open spec fn valid(op: Op, params: ParameterSet, len: nat) -> Option<Body> {
    Some(Body { cmd: OpView::Valid(op), params, len })
}

pub open spec fn invalid(bytes: Seq<u8>, kind: Invalid, params: ParameterSet, len: nat) -> Option<
    Body,
> {
    Some(Body { cmd: OpView::Invalid(bytes, kind), params, len })
}

/// A r/m8 operand whose displacement starts at `pos`, and its displacement length.
pub open spec fn spec_rm8(mem: Seq<u8>, seg: u16, pos: u16, segp: Segment, md: u8, rm: u8) -> (
    Parameter,
    nat,
) {
    let am = spec_amode_from(AddressSize::_16bit, rm);
    if md == 0 {
        if rm == 6 {
            (Parameter::Ptr8(segp, code_u16(mem, seg, pos)), 2)
        } else {
            (Parameter::Ptr8Amode(segp, am), 0)
        }
    } else if md == 1 {
        (Parameter::Ptr8AmodeS8(segp, am, code_u8(mem, seg, pos) as i8), 1)
    } else if md == 2 {
        (Parameter::Ptr8AmodeS16(segp, am, code_u16(mem, seg, pos) as i16), 2)
    } else {
        (Parameter::Reg8(spec_r8(rm)), 0)
    }
}

/// A r/m16 operand whose displacement starts at `pos`, and its displacement length.
pub open spec fn spec_rm16(
    mem: Seq<u8>,
    seg: u16,
    pos: u16,
    segp: Segment,
    asize: AddressSize,
    md: u8,
    rm: u8,
) -> (Parameter, nat) {
    let am = spec_amode_from(asize, rm);
    if md == 0 {
        if rm == 6 {
            (Parameter::Ptr16(segp, code_u16(mem, seg, pos)), 2)
        } else {
            (Parameter::Ptr16Amode(segp, am), 0)
        }
    } else if md == 1 {
        (Parameter::Ptr16AmodeS8(segp, am, code_u8(mem, seg, pos) as i8), 1)
    } else if md == 2 {
        (Parameter::Ptr16AmodeS16(segp, am, code_u16(mem, seg, pos) as i16), 2)
    } else {
        (Parameter::Reg16(spec_r16(rm)), 0)
    }
}

/// A r/m32 operand whose displacement starts at `pos`, and its displacement length.
pub open spec fn spec_rm32(
    mem: Seq<u8>,
    seg: u16,
    pos: u16,
    segp: Segment,
    asize: AddressSize,
    md: u8,
    rm: u8,
) -> (Parameter, nat) {
    let am = spec_amode_from(asize, rm);
    if md == 0 {
        if rm == 6 {
            (Parameter::Ptr32(segp, code_u16(mem, seg, pos)), 2)
        } else {
            (Parameter::Ptr32Amode(segp, am), 0)
        }
    } else if md == 1 {
        (Parameter::Ptr32AmodeS8(segp, am, code_u8(mem, seg, pos) as i8), 1)
    } else if md == 2 {
        (Parameter::Ptr32AmodeS16(segp, am, code_u16(mem, seg, pos) as i16), 2)
    } else {
        (Parameter::Reg32(spec_r32(rm)), 0)
    }
}

/// The width of a register operand or r/m operand.
#[derive(Copy, Clone, Debug, PartialEq, Eq, Structural)]
pub enum Width {
    W8,
    W16,
    W32,
}

/// The r/m operand of the given width that follows the ModR/M byte at `q`,
/// and the number of bytes from `q` on.
pub open spec fn spec_rm(mem: Seq<u8>, seg: u16, q: u16, pre: Prefixes, w: Width) -> (
    Parameter,
    nat,
) {
    let b = code_u8(mem, seg, q);
    let r = match w {
        Width::W8 => spec_rm8(mem, seg, add16(q, 1), pre.segment_prefix, modrm_md(b), modrm_rm(b)),
        Width::W16 => spec_rm16(
            mem,
            seg,
            add16(q, 1),
            pre.segment_prefix,
            pre.address_size,
            modrm_md(b),
            modrm_rm(b),
        ),
        Width::W32 => spec_rm32(
            mem,
            seg,
            add16(q, 1),
            pre.segment_prefix,
            pre.address_size,
            modrm_md(b),
            modrm_rm(b),
        ),
    };
    (r.0, r.1 + 1)
}

/// The register operand named by the reg field of the ModR/M byte at `q`.
pub open spec fn spec_reg(mem: Seq<u8>, seg: u16, q: u16, w: Width) -> Parameter {
    let reg = modrm_reg(code_u8(mem, seg, q));
    match w {
        Width::W8 => Parameter::Reg8(spec_r8(reg)),
        Width::W16 => Parameter::Reg16(spec_r16(reg)),
        Width::W32 => Parameter::Reg32(spec_r32(reg)),
    }
}

/// "r/m, reg" operands from the ModR/M byte at `q`.
pub open spec fn spec_rm_r(mem: Seq<u8>, seg: u16, q: u16, pre: Prefixes, w: Width) -> (
    ParameterSet,
    nat,
) {
    let (rm, n) = spec_rm(mem, seg, q, pre, w);
    (p2(rm, spec_reg(mem, seg, q, w)), n)
}

/// "reg, r/m" operands from the ModR/M byte at `q`; the r/m width may differ.
pub open spec fn spec_r_rm(mem: Seq<u8>, seg: u16, q: u16, pre: Prefixes, wr: Width, wm: Width) -> (
    ParameterSet,
    nat,
) {
    let (rm, n) = spec_rm(mem, seg, q, pre, wm);
    (p2(spec_reg(mem, seg, q, wr), rm), n)
}

/// An operation with "r/m, reg" operands after a one-byte opcode at `pos`.
pub open spec fn op_rm_r(mem: Seq<u8>, seg: u16, pos: u16, pre: Prefixes, op: Op, w: Width) -> Option<
    Body,
> {
    let (ps, n) = spec_rm_r(mem, seg, add16(pos, 1), pre, w);
    valid(op, ps, 1 + n)
}

/// An operation with "reg, r/m" operands after a one-byte opcode at `pos`.
pub open spec fn op_r_rm(
    mem: Seq<u8>,
    seg: u16,
    pos: u16,
    pre: Prefixes,
    op: Op,
    wr: Width,
    wm: Width,
) -> Option<Body> {
    let (ps, n) = spec_r_rm(mem, seg, add16(pos, 1), pre, wr, wm);
    valid(op, ps, 1 + n)
}

/// "r/m16, r16" or, under a 32-bit operand size, "r/m32, r32".
pub open spec fn op_rm_r_16_32(
    mem: Seq<u8>,
    seg: u16,
    pos: u16,
    pre: Prefixes,
    op16: Op,
    op32: Op,
) -> Option<Body> {
    match pre.op_size {
        OperandSize::_16bit => op_rm_r(mem, seg, pos, pre, op16, Width::W16),
        OperandSize::_32bit => op_rm_r(mem, seg, pos, pre, op32, Width::W32),
    }
}

/// "r16, r/m16" or, under a 32-bit operand size, "r32, r/m32".
pub open spec fn op_r_rm_16_32(
    mem: Seq<u8>,
    seg: u16,
    pos: u16,
    pre: Prefixes,
    op16: Op,
    op32: Op,
) -> Option<Body> {
    match pre.op_size {
        OperandSize::_16bit => op_r_rm(mem, seg, pos, pre, op16, Width::W16, Width::W16),
        OperandSize::_32bit => op_r_rm(mem, seg, pos, pre, op32, Width::W32, Width::W32),
    }
}

/// "AL, imm8" after the opcode at `pos`.
pub open spec fn op_al_imm8(mem: Seq<u8>, seg: u16, pos: u16, op: Op) -> Option<Body> {
    valid(op, p2(Parameter::Reg8(R::AL), Parameter::Imm8(code_u8(mem, seg, add16(pos, 1)))), 2)
}

/// "AX, imm16" after the opcode at `pos`.
pub open spec fn op_ax_imm16(mem: Seq<u8>, seg: u16, pos: u16, op: Op) -> Option<Body> {
    valid(op, p2(Parameter::Reg16(R::AX), Parameter::Imm16(code_u16(mem, seg, add16(pos, 1)))), 3)
}

/// "AX, imm16" or, under a 32-bit operand size, "EAX, imm32".
pub open spec fn op_acc_imm_16_32(
    mem: Seq<u8>,
    seg: u16,
    pos: u16,
    pre: Prefixes,
    op16: Op,
    op32: Op,
) -> Option<Body> {
    match pre.op_size {
        OperandSize::_16bit => op_ax_imm16(mem, seg, pos, op16),
        OperandSize::_32bit => valid(
            op32,
            p2(Parameter::Reg32(R::EAX), Parameter::Imm32(code_u32(mem, seg, add16(pos, 1)))),
            5,
        ),
    }
}

/// An operation with one fixed operand and no operand bytes.
pub open spec fn op_fixed(op: Op, dst: Parameter) -> Option<Body> {
    valid(op, p1(dst), 1)
}

/// An operation without operands.
pub open spec fn op_plain(op: Op) -> Option<Body> {
    valid(op, no_params(), 1)
}

/// An operation without operands whose form depends on the operand size.
pub open spec fn op_plain_16_32(pre: Prefixes, op16: Op, op32: Op) -> Option<Body> {
    match pre.op_size {
        OperandSize::_16bit => op_plain(op16),
        OperandSize::_32bit => op_plain(op32),
    }
}

/// A jump to an 8-bit relative target after the opcode at `pos`.
pub open spec fn op_rel8(mem: Seq<u8>, seg: u16, pos: u16, op: Op) -> Option<Body> {
    let d = code_u8(mem, seg, add16(pos, 1)) as i8;
    valid(op, p1(Parameter::Imm16(rel_target(add16(pos, 2), d as int))), 2)
}

/// A jump to a 16-bit relative target whose displacement starts at `q`;
/// `hdr` bytes precede it.
pub open spec fn op_rel16_at(mem: Seq<u8>, seg: u16, q: u16, op: Op, hdr: nat) -> Option<Body> {
    let d = code_u16(mem, seg, q) as i16;
    valid(op, p1(Parameter::Imm16(rel_target(add16(q, 2), d as int))), hdr + 2)
}

/// An operation on the register in the low 3 bits of the opcode `b`.
pub open spec fn op_low_reg_16_32(pre: Prefixes, b: u8, op16: Op, op32: Op) -> Option<Body> {
    match pre.op_size {
        OperandSize::_16bit => op_fixed(op16, Parameter::Reg16(spec_r16(b % 8))),
        OperandSize::_32bit => op_fixed(op32, Parameter::Reg32(spec_r32(b % 8))),
    }
}

/// The arithmetic group: add, or, adc, sbb, and, sub, xor, cmp.
pub open spec fn arith8(reg: u8) -> Op {
    if reg == 0 { Op::Add8 }
    else if reg == 1 { Op::Or8 }
    else if reg == 2 { Op::Adc8 }
    else if reg == 3 { Op::Sbb8 }
    else if reg == 4 { Op::And8 }
    else if reg == 5 { Op::Sub8 }
    else if reg == 6 { Op::Xor8 }
    else { Op::Cmp8 }
}

pub open spec fn arith16(reg: u8) -> Op {
    if reg == 0 { Op::Add16 }
    else if reg == 1 { Op::Or16 }
    else if reg == 2 { Op::Adc16 }
    else if reg == 3 { Op::Sbb16 }
    else if reg == 4 { Op::And16 }
    else if reg == 5 { Op::Sub16 }
    else if reg == 6 { Op::Xor16 }
    else { Op::Cmp16 }
}

/// The bit shift group: rol, ror, rcl, rcr, shl, shr, -, sar.
pub open spec fn shift8(reg: u8, b: u8) -> OpView {
    if reg == 0 { OpView::Valid(Op::Rol8) }
    else if reg == 1 { OpView::Valid(Op::Ror8) }
    else if reg == 2 { OpView::Valid(Op::Rcl8) }
    else if reg == 3 { OpView::Valid(Op::Rcr8) }
    else if reg == 4 { OpView::Valid(Op::Shl8) }
    else if reg == 5 { OpView::Valid(Op::Shr8) }
    else if reg == 7 { OpView::Valid(Op::Sar8) }
    else { OpView::Invalid(seq![b], Invalid::Reg(reg)) }
}

pub open spec fn shift16(reg: u8, b: u8) -> OpView {
    if reg == 0 { OpView::Valid(Op::Rol16) }
    else if reg == 1 { OpView::Valid(Op::Ror16) }
    else if reg == 2 { OpView::Valid(Op::Rcl16) }
    else if reg == 3 { OpView::Valid(Op::Rcr16) }
    else if reg == 4 { OpView::Valid(Op::Shl16) }
    else if reg == 5 { OpView::Valid(Op::Shr16) }
    else if reg == 7 { OpView::Valid(Op::Sar16) }
    else { OpView::Invalid(seq![b], Invalid::Reg(reg)) }
}

/// The conditional jumps 0x70..0x7F in opcode order.
pub open spec fn jcc(low: u8) -> Op {
    if low == 0 { Op::Jo }
    else if low == 1 { Op::Jno }
    else if low == 2 { Op::Jc }
    else if low == 3 { Op::Jnc }
    else if low == 4 { Op::Jz }
    else if low == 5 { Op::Jnz }
    else if low == 6 { Op::Jna }
    else if low == 7 { Op::Ja }
    else if low == 8 { Op::Js }
    else if low == 9 { Op::Jns }
    else if low == 10 { Op::Jpe }
    else if low == 11 { Op::Jpo }
    else if low == 12 { Op::Jl }
    else if low == 13 { Op::Jnl }
    else if low == 14 { Op::Jng }
    else { Op::Jg }
}

/// The immediate operand that ends a group instruction.
#[derive(Copy, Clone, Debug, PartialEq, Eq, Structural)]
pub enum ImmKind {
    /// no immediate bytes; the source operand is fixed
    Fixed(Parameter),
    U8,
    S8,
    U16,
    U32,
}

/// The immediate operand of kind `k` at `at`, and its length.
pub open spec fn imm_param(mem: Seq<u8>, seg: u16, at: u16, k: ImmKind) -> (Parameter, nat) {
    match k {
        ImmKind::Fixed(p) => (p, 0),
        ImmKind::U8 => (Parameter::Imm8(code_u8(mem, seg, at)), 1),
        ImmKind::S8 => (Parameter::ImmS8(code_u8(mem, seg, at) as i8), 1),
        ImmKind::U16 => (Parameter::Imm16(code_u16(mem, seg, at)), 2),
        ImmKind::U32 => (Parameter::Imm32(code_u32(mem, seg, at)), 4),
    }
}

/// A group opcode at `pos`: the ModR/M byte follows it, the r/m operand of
/// width `w` is the destination, and an immediate of `imm_len` bytes ends it.
pub open spec fn group(
    mem: Seq<u8>,
    seg: u16,
    pos: u16,
    pre: Prefixes,
    w: Width,
    cmd: OpView,
    src: Parameter,
    imm_len: nat,
) -> Option<Body> {
    let (dst, n) = spec_rm(mem, seg, add16(pos, 1), pre, w);
    Some(Body { cmd, params: p2(dst, src), len: 1 + n + imm_len })
}

/// The ModR/M reg field of the byte after `pos`.
pub open spec fn reg_after(mem: Seq<u8>, seg: u16, pos: u16) -> u8 {
    modrm_reg(code_u8(mem, seg, add16(pos, 1)))
}

/// Where the immediate of a group instruction with opcode at `pos` starts.
pub open spec fn imm_pos(mem: Seq<u8>, seg: u16, pos: u16, pre: Prefixes, w: Width) -> u16 {
    add16(pos, (1 + spec_rm(mem, seg, add16(pos, 1), pre, w).1) as int)
}


/// What a one-byte opcode in 0x00..=0x3F (other than a prefix) decodes to.
#[verifier::opaque]
pub open spec fn body_00_3f(mem: Seq<u8>, seg: u16, pos: u16, pre: Prefixes) -> Option<Body> {
    let b = code_u8(mem, seg, pos);
    if b == 0x00 { op_rm_r(mem, seg, pos, pre, Op::Add8, Width::W8) }
    else if b == 0x01 { op_rm_r_16_32(mem, seg, pos, pre, Op::Add16, Op::Add32) }
    else if b == 0x02 { op_r_rm(mem, seg, pos, pre, Op::Add8, Width::W8, Width::W8) }
    else if b == 0x03 { op_r_rm_16_32(mem, seg, pos, pre, Op::Add16, Op::Add32) }
    else if b == 0x04 { op_al_imm8(mem, seg, pos, Op::Add8) }
    else if b == 0x05 { op_acc_imm_16_32(mem, seg, pos, pre, Op::Add16, Op::Add32) }
    else if b == 0x06 { op_fixed(Op::Push16, Parameter::SReg16(R::ES)) }
    else if b == 0x07 { op_fixed(Op::Pop16, Parameter::SReg16(R::ES)) }
    else if b == 0x08 { op_rm_r(mem, seg, pos, pre, Op::Or8, Width::W8) }
    else if b == 0x09 { op_rm_r(mem, seg, pos, pre, Op::Or16, Width::W16) }
    else if b == 0x0A { op_r_rm(mem, seg, pos, pre, Op::Or8, Width::W8, Width::W8) }
    else if b == 0x0B { op_r_rm(mem, seg, pos, pre, Op::Or16, Width::W16, Width::W16) }
    else if b == 0x0C { op_al_imm8(mem, seg, pos, Op::Or8) }
    else if b == 0x0D { op_ax_imm16(mem, seg, pos, Op::Or16) }
    else if b == 0x0E { op_fixed(Op::Push16, Parameter::SReg16(R::CS)) }
    else if b == 0x0F { body_0f(mem, seg, pos, pre) }
    else if b == 0x10 { op_rm_r(mem, seg, pos, pre, Op::Adc8, Width::W8) }
    else if b == 0x11 { op_rm_r(mem, seg, pos, pre, Op::Adc16, Width::W16) }
    else if b == 0x12 { op_r_rm(mem, seg, pos, pre, Op::Adc8, Width::W8, Width::W8) }
    else if b == 0x13 { op_r_rm(mem, seg, pos, pre, Op::Adc16, Width::W16, Width::W16) }
    else if b == 0x14 { op_al_imm8(mem, seg, pos, Op::Adc8) }
    else if b == 0x15 { op_ax_imm16(mem, seg, pos, Op::Adc16) }
    else if b == 0x16 { op_fixed(Op::Push16, Parameter::SReg16(R::SS)) }
    else if b == 0x17 { op_fixed(Op::Pop16, Parameter::SReg16(R::SS)) }
    else if b == 0x18 { op_rm_r(mem, seg, pos, pre, Op::Sbb8, Width::W8) }
    else if b == 0x19 { op_rm_r(mem, seg, pos, pre, Op::Sbb16, Width::W16) }
    else if b == 0x1A { op_r_rm(mem, seg, pos, pre, Op::Sbb8, Width::W8, Width::W8) }
    else if b == 0x1B { op_r_rm(mem, seg, pos, pre, Op::Sbb16, Width::W16, Width::W16) }
    else if b == 0x1C { op_al_imm8(mem, seg, pos, Op::Sbb8) }
    else if b == 0x1D { op_ax_imm16(mem, seg, pos, Op::Sbb16) }
    else if b == 0x1E { op_fixed(Op::Push16, Parameter::SReg16(R::DS)) }
    else if b == 0x1F { op_fixed(Op::Pop16, Parameter::SReg16(R::DS)) }
    else if b == 0x20 { op_rm_r(mem, seg, pos, pre, Op::And8, Width::W8) }
    else if b == 0x21 { op_rm_r(mem, seg, pos, pre, Op::And16, Width::W16) }
    else if b == 0x22 { op_r_rm(mem, seg, pos, pre, Op::And8, Width::W8, Width::W8) }
    else if b == 0x23 { op_r_rm(mem, seg, pos, pre, Op::And16, Width::W16, Width::W16) }
    else if b == 0x24 { op_al_imm8(mem, seg, pos, Op::And8) }
    else if b == 0x25 { op_ax_imm16(mem, seg, pos, Op::And16) }
    else if b == 0x27 { op_plain(Op::Daa) }
    else if b == 0x28 { op_rm_r(mem, seg, pos, pre, Op::Sub8, Width::W8) }
    else if b == 0x29 { op_rm_r(mem, seg, pos, pre, Op::Sub16, Width::W16) }
    else if b == 0x2A { op_r_rm(mem, seg, pos, pre, Op::Sub8, Width::W8, Width::W8) }
    else if b == 0x2B { op_r_rm_16_32(mem, seg, pos, pre, Op::Sub16, Op::Sub32) }
    else if b == 0x2C { op_al_imm8(mem, seg, pos, Op::Sub8) }
    else if b == 0x2D { op_acc_imm_16_32(mem, seg, pos, pre, Op::Sub16, Op::Sub32) }
    else if b == 0x2F { op_plain(Op::Das) }
    else if b == 0x30 { op_rm_r(mem, seg, pos, pre, Op::Xor8, Width::W8) }
    else if b == 0x31 { op_rm_r_16_32(mem, seg, pos, pre, Op::Xor16, Op::Xor32) }
    else if b == 0x32 { op_r_rm(mem, seg, pos, pre, Op::Xor8, Width::W8, Width::W8) }
    else if b == 0x33 { op_r_rm_16_32(mem, seg, pos, pre, Op::Xor16, Op::Xor32) }
    else if b == 0x34 { op_al_imm8(mem, seg, pos, Op::Xor8) }
    else if b == 0x35 { op_ax_imm16(mem, seg, pos, Op::Xor16) }
    else if b == 0x37 { op_plain(Op::Aaa) }
    else if b == 0x38 { op_rm_r(mem, seg, pos, pre, Op::Cmp8, Width::W8) }
    else if b == 0x39 { op_rm_r(mem, seg, pos, pre, Op::Cmp16, Width::W16) }
    else if b == 0x3A { op_r_rm(mem, seg, pos, pre, Op::Cmp8, Width::W8, Width::W8) }
    else if b == 0x3B { op_r_rm_16_32(mem, seg, pos, pre, Op::Cmp16, Op::Cmp32) }
    else if b == 0x3C { op_al_imm8(mem, seg, pos, Op::Cmp8) }
    else if b == 0x3D { op_acc_imm_16_32(mem, seg, pos, pre, Op::Cmp16, Op::Cmp32) }
    else { op_plain(Op::Aas) }
}

/// What a one-byte opcode in 0x40..=0x7F (other than a prefix) decodes to.
#[verifier::opaque]
pub open spec fn body_40_7f(mem: Seq<u8>, seg: u16, pos: u16, pre: Prefixes) -> Option<Body> {
    let b = code_u8(mem, seg, pos);
    if 0x40 <= b <= 0x47 { op_low_reg_16_32(pre, b, Op::Inc16, Op::Inc32) }
    else if 0x48 <= b <= 0x4F { op_low_reg_16_32(pre, b, Op::Dec16, Op::Dec32) }
    else if 0x50 <= b <= 0x57 { op_low_reg_16_32(pre, b, Op::Push16, Op::Push32) }
    else if 0x58 <= b <= 0x5F { op_low_reg_16_32(pre, b, Op::Pop16, Op::Pop32) }
    else if b == 0x60 { op_plain_16_32(pre, Op::Pusha16, Op::Pushad32) }
    else if b == 0x61 { op_plain_16_32(pre, Op::Popa16, Op::Popad32) }
    else if b == 0x62 { op_r_rm(mem, seg, pos, pre, Op::Bound, Width::W16, Width::W16) }
    else if b == 0x63 { op_rm_r(mem, seg, pos, pre, Op::Arpl, Width::W16) }
    else if b == 0x68 { valid(Op::Push16, p1(Parameter::Imm16(code_u16(mem, seg, add16(pos, 1)))), 3) }
    else if b == 0x69 {
        match pre.op_size {
            OperandSize::_16bit => {
                let (ps, n) = spec_r_rm(mem, seg, add16(pos, 1), pre, Width::W16, Width::W16);
                valid(Op::Imul16, ParameterSet { src2: Parameter::Imm16(code_u16(mem, seg, add16(pos, (1 + n) as int))), ..ps }, 1 + n + 2)
            },
            OperandSize::_32bit => {
                let (ps, n) = spec_r_rm(mem, seg, add16(pos, 1), pre, Width::W32, Width::W32);
                valid(Op::Imul32, ParameterSet { src2: Parameter::Imm32(code_u32(mem, seg, add16(pos, (1 + n) as int))), ..ps }, 1 + n + 4)
            },
        }
    }
    else if b == 0x6A { valid(Op::Push16, p1(Parameter::ImmS8(code_u8(mem, seg, add16(pos, 1)) as i8)), 2) }
    else if b == 0x6B {
        match pre.op_size {
            OperandSize::_16bit => {
                let (ps, n) = spec_r_rm(mem, seg, add16(pos, 1), pre, Width::W16, Width::W16);
                valid(Op::Imul16, ParameterSet { src2: Parameter::Imm8(code_u8(mem, seg, add16(pos, (1 + n) as int))), ..ps }, 1 + n + 1)
            },
            OperandSize::_32bit => {
                let (ps, n) = spec_r_rm(mem, seg, add16(pos, 1), pre, Width::W32, Width::W32);
                valid(Op::Imul32, ParameterSet { src2: Parameter::Imm8(code_u8(mem, seg, add16(pos, (1 + n) as int))), ..ps }, 1 + n + 1)
            },
        }
    }
    else if b == 0x6C { op_plain(Op::Insb) }
    else if b == 0x6D { op_plain(Op::Insw) }
    else if b == 0x6E { op_plain(Op::Outsb) }
    else if b == 0x6F { op_plain(Op::Outsw) }
    else { op_rel8(mem, seg, pos, jcc((b - 0x70) as u8)) }
}


/// "reg, r/m" operands from the ModR/M byte at `q`, after `hdr` opcode bytes.
pub open spec fn op_r_rm_q(
    mem: Seq<u8>,
    seg: u16,
    q: u16,
    hdr: nat,
    pre: Prefixes,
    op: Op,
    wr: Width,
    wm: Width,
) -> Option<Body> {
    let (ps, n) = spec_r_rm(mem, seg, q, pre, wr, wm);
    valid(op, ps, hdr + n)
}

/// "r/m, reg" operands from the ModR/M byte at `q`, after `hdr` opcode bytes.
pub open spec fn op_rm_r_q(
    mem: Seq<u8>,
    seg: u16,
    q: u16,
    hdr: nat,
    pre: Prefixes,
    op: Op,
    w: Width,
) -> Option<Body> {
    let (ps, n) = spec_rm_r(mem, seg, q, pre, w);
    valid(op, ps, hdr + n)
}

/// The operation of a 32-bit 0x81 group instruction.
pub open spec fn grp81_32(reg: u8) -> OpView {
    if reg == 0 { OpView::Valid(Op::Add32) }
    else if reg == 5 { OpView::Valid(Op::Sub32) }
    else if reg == 7 { OpView::Valid(Op::Cmp32) }
    else { OpView::Invalid(seq![0x81u8], Invalid::Reg(reg)) }
}

/// What a one-byte opcode in 0x80..=0xBF decodes to.
#[verifier::opaque]
pub open spec fn body_80_bf(mem: Seq<u8>, seg: u16, pos: u16, pre: Prefixes) -> Option<Body> {
    let b = code_u8(mem, seg, pos);
    let reg = reg_after(mem, seg, pos);
    if b == 0x80 {
        group(mem, seg, pos, pre, Width::W8, OpView::Valid(arith8(reg)),
            Parameter::Imm8(code_u8(mem, seg, imm_pos(mem, seg, pos, pre, Width::W8))), 1)
    } else if b == 0x81 {
        match pre.op_size {
            OperandSize::_16bit => group(mem, seg, pos, pre, Width::W16, OpView::Valid(arith16(reg)),
                Parameter::Imm16(code_u16(mem, seg, imm_pos(mem, seg, pos, pre, Width::W16))), 2),
            OperandSize::_32bit => group(mem, seg, pos, pre, Width::W32, grp81_32(reg),
                Parameter::Imm32(code_u32(mem, seg, imm_pos(mem, seg, pos, pre, Width::W32))), 4),
        }
    } else if b == 0x82 {
        invalid(seq![0x82u8], Invalid::Op, no_params(), 1)
    } else if b == 0x83 {
        match pre.op_size {
            OperandSize::_16bit => group(mem, seg, pos, pre, Width::W16, OpView::Valid(arith16(reg)),
                Parameter::ImmS8(code_u8(mem, seg, imm_pos(mem, seg, pos, pre, Width::W16)) as i8), 1),
            OperandSize::_32bit => group(mem, seg, pos, pre, Width::W32,
                if reg == 0 { OpView::Valid(Op::Add32) } else { OpView::Invalid(seq![0x83u8], Invalid::Reg(reg)) },
                Parameter::ImmS8(code_u8(mem, seg, imm_pos(mem, seg, pos, pre, Width::W32)) as i8), 1),
        }
    }
    else if b == 0x84 { op_rm_r(mem, seg, pos, pre, Op::Test8, Width::W8) }
    else if b == 0x85 { op_rm_r(mem, seg, pos, pre, Op::Test16, Width::W16) }
    else if b == 0x86 { op_rm_r(mem, seg, pos, pre, Op::Xchg8, Width::W8) }
    else if b == 0x87 { op_rm_r(mem, seg, pos, pre, Op::Xchg16, Width::W16) }
    else if b == 0x88 { op_rm_r(mem, seg, pos, pre, Op::Mov8, Width::W8) }
    else if b == 0x89 { op_rm_r_16_32(mem, seg, pos, pre, Op::Mov16, Op::Mov32) }
    else if b == 0x8A { op_r_rm(mem, seg, pos, pre, Op::Mov8, Width::W8, Width::W8) }
    else if b == 0x8B { op_r_rm_16_32(mem, seg, pos, pre, Op::Mov16, Op::Mov32) }
    else if b == 0x8C {
        if reg < 6 {
            let (dst, n) = spec_rm(mem, seg, add16(pos, 1), pre, Width::W16);
            valid(Op::Mov16, p2(dst, Parameter::SReg16(spec_sr(reg))), 1 + n)
        } else {
            None
        }
    }
    else if b == 0x8D { op_r_rm(mem, seg, pos, pre, Op::Lea16, Width::W16, Width::W16) }
    else if b == 0x8E {
        if reg < 6 {
            let (src, n) = spec_rm(mem, seg, add16(pos, 1), pre, Width::W16);
            valid(Op::Mov16, p2(Parameter::SReg16(spec_sr(reg)), src), 1 + n)
        } else {
            None
        }
    }
    else if b == 0x8F {
        group(mem, seg, pos, pre, Width::W16,
            if reg == 0 { OpView::Valid(Op::Pop16) } else { OpView::Invalid(seq![0x8Fu8], Invalid::FPUOp) },
            Parameter::Empty, 0)
    }
    else if b == 0x90 { op_plain(Op::Nop) }
    else if 0x91 <= b <= 0x97 {
        match pre.op_size {
            OperandSize::_16bit => valid(Op::Xchg16, p2(Parameter::Reg16(R::AX), Parameter::Reg16(spec_r16(b % 8))), 1),
            OperandSize::_32bit => valid(Op::Xchg32, p2(Parameter::Reg32(R::EAX), Parameter::Reg32(spec_r32(b % 8))), 1),
        }
    }
    else if b == 0x98 { op_plain_16_32(pre, Op::Cbw, Op::Cwde32) }
    else if b == 0x99 { op_plain(Op::Cwd16) }
    else if b == 0x9A {
        valid(Op::CallFar, p1(Parameter::Ptr16Imm(code_u16(mem, seg, add16(pos, 3)), code_u16(mem, seg, add16(pos, 1)))), 5)
    }
    else if b == 0x9B { invalid(seq![0x9Bu8], Invalid::FPUOp, no_params(), 1) }
    else if b == 0x9C { op_plain(Op::Pushf) }
    else if b == 0x9D { op_plain(Op::Popf) }
    else if b == 0x9E { op_plain(Op::Sahf) }
    else if b == 0x9F { op_plain(Op::Lahf) }
    else if b == 0xA0 {
        valid(Op::Mov8, p2(Parameter::Reg8(R::AL), Parameter::Ptr8(pre.segment_prefix, code_u16(mem, seg, add16(pos, 1)))), 3)
    }
    else if b == 0xA1 {
        match pre.op_size {
            OperandSize::_16bit => valid(Op::Mov16, p2(Parameter::Reg16(R::AX), Parameter::Ptr16(pre.segment_prefix, code_u16(mem, seg, add16(pos, 1)))), 3),
            OperandSize::_32bit => valid(Op::Mov32, p2(Parameter::Reg32(R::EAX), Parameter::Ptr32(pre.segment_prefix, code_u16(mem, seg, add16(pos, 1)))), 3),
        }
    }
    else if b == 0xA2 {
        valid(Op::Mov8, p2(Parameter::Ptr8(pre.segment_prefix, code_u16(mem, seg, add16(pos, 1))), Parameter::Reg8(R::AL)), 3)
    }
    else if b == 0xA3 {
        match pre.op_size {
            OperandSize::_16bit => valid(Op::Mov16, p2(Parameter::Ptr16(pre.segment_prefix, code_u16(mem, seg, add16(pos, 1))), Parameter::Reg16(R::AX)), 3),
            OperandSize::_32bit => valid(Op::Mov32, p2(Parameter::Ptr32(pre.segment_prefix, code_u16(mem, seg, add16(pos, 1))), Parameter::Reg32(R::EAX)), 3),
        }
    }
    else if b == 0xA4 { op_plain(Op::Movsb) }
    else if b == 0xA5 { op_plain_16_32(pre, Op::Movsw, Op::Movsd) }
    else if b == 0xA6 { op_plain(Op::Cmpsb) }
    else if b == 0xA7 { op_plain(Op::Cmpsw) }
    else if b == 0xA8 { op_al_imm8(mem, seg, pos, Op::Test8) }
    else if b == 0xA9 { op_ax_imm16(mem, seg, pos, Op::Test16) }
    else if b == 0xAA { op_plain(Op::Stosb) }
    else if b == 0xAB { op_plain_16_32(pre, Op::Stosw, Op::Stosd) }
    else if b == 0xAC { op_plain(Op::Lodsb) }
    else if b == 0xAD { op_plain_16_32(pre, Op::Lodsw, Op::Lodsd) }
    else if b == 0xAE { op_plain(Op::Scasb) }
    else if b == 0xAF { op_plain(Op::Scasw) }
    else if 0xB0 <= b <= 0xB7 {
        valid(Op::Mov8, p2(Parameter::Reg8(spec_r8(b % 8)), Parameter::Imm8(code_u8(mem, seg, add16(pos, 1)))), 2)
    }
    else {
        match pre.op_size {
            OperandSize::_16bit => valid(Op::Mov16, p2(Parameter::Reg16(spec_r16(b % 8)), Parameter::Imm16(code_u16(mem, seg, add16(pos, 1)))), 3),
            OperandSize::_32bit => valid(Op::Mov32, p2(Parameter::Reg32(spec_r32(b % 8)), Parameter::Imm32(code_u32(mem, seg, add16(pos, 1)))), 5),
        }
    }
}

/// The operation of a 32-bit 0xC1 shift; `None` where the decoder has none.
pub open spec fn shift32(reg: u8) -> Option<Op> {
    if reg == 3 { Some(Op::Rcr32) }
    else if reg == 4 { Some(Op::Shl32) }
    else if reg == 5 { Some(Op::Shr32) }
    else if reg == 7 { Some(Op::Sar32) }
    else { None }
}

/// The operation of an 0xF6 / 0xF7 math group instruction for reg 2..=7.
pub open spec fn math8(reg: u8) -> Op {
    if reg == 2 { Op::Not8 }
    else if reg == 3 { Op::Neg8 }
    else if reg == 4 { Op::Mul8 }
    else if reg == 5 { Op::Imul8 }
    else if reg == 6 { Op::Div8 }
    else { Op::Idiv8 }
}

pub open spec fn math16(reg: u8) -> Op {
    if reg == 2 { Op::Not16 }
    else if reg == 3 { Op::Neg16 }
    else if reg == 4 { Op::Mul16 }
    else if reg == 5 { Op::Imul16 }
    else if reg == 6 { Op::Div16 }
    else { Op::Idiv16 }
}

pub open spec fn math32(reg: u8) -> OpView {
    if reg == 3 { OpView::Valid(Op::Neg32) }
    else if reg == 4 { OpView::Valid(Op::Mul32) }
    else if reg == 5 { OpView::Valid(Op::Imul32) }
    else if reg == 6 { OpView::Valid(Op::Div32) }
    else if reg == 7 { OpView::Valid(Op::Idiv32) }
    else { OpView::Invalid(seq![0xF7u8], Invalid::Reg(reg)) }
}

/// The operation of a 16-bit 0xFF group instruction.
pub open spec fn grp_ff16(reg: u8) -> OpView {
    if reg == 0 { OpView::Valid(Op::Inc16) }
    else if reg == 1 { OpView::Valid(Op::Dec16) }
    else if reg == 2 { OpView::Valid(Op::CallNear) }
    else if reg == 3 { OpView::Valid(Op::CallFar) }
    else if reg == 4 { OpView::Valid(Op::JmpNear) }
    else if reg == 5 { OpView::Valid(Op::JmpFar) }
    else if reg == 6 { OpView::Valid(Op::Push16) }
    else { OpView::Invalid(seq![0xFFu8], Invalid::Reg(reg)) }
}

/// What a one-byte opcode in 0xC0..=0xFF (other than a prefix) decodes to.
#[verifier::opaque]
pub open spec fn body_c0_ff(mem: Seq<u8>, seg: u16, pos: u16, pre: Prefixes) -> Option<Body> {
    let b = code_u8(mem, seg, pos);
    let reg = reg_after(mem, seg, pos);
    if b == 0xC0 {
        group(mem, seg, pos, pre, Width::W8, shift8(reg, 0xC0),
            Parameter::Imm8(code_u8(mem, seg, imm_pos(mem, seg, pos, pre, Width::W8))), 1)
    } else if b == 0xC1 {
        match pre.op_size {
            OperandSize::_16bit => group(mem, seg, pos, pre, Width::W16, shift16(reg, 0xC1),
                Parameter::Imm8(code_u8(mem, seg, imm_pos(mem, seg, pos, pre, Width::W16))), 1),
            OperandSize::_32bit => match shift32(reg) {
                Some(op) => group(mem, seg, pos, pre, Width::W32, OpView::Valid(op),
                    Parameter::Imm8(code_u8(mem, seg, imm_pos(mem, seg, pos, pre, Width::W32))), 1),
                None => None,
            },
        }
    }
    else if b == 0xC2 { valid(Op::Retn, p1(Parameter::Imm16(code_u16(mem, seg, add16(pos, 1)))), 3) }
    else if b == 0xC3 { op_plain(Op::Retn) }
    else if b == 0xC4 { op_r_rm(mem, seg, pos, pre, Op::Les, Width::W16, Width::W16) }
    else if b == 0xC5 { op_r_rm(mem, seg, pos, pre, Op::Lds, Width::W16, Width::W16) }
    else if b == 0xC6 {
        group(mem, seg, pos, pre, Width::W8,
            if reg == 0 { OpView::Valid(Op::Mov8) } else { OpView::Invalid(seq![0xC6u8], Invalid::Reg(reg)) },
            Parameter::Imm8(code_u8(mem, seg, imm_pos(mem, seg, pos, pre, Width::W8))), 1)
    } else if b == 0xC7 {
        match pre.op_size {
            OperandSize::_16bit => group(mem, seg, pos, pre, Width::W16,
                if reg == 0 { OpView::Valid(Op::Mov16) } else { OpView::Invalid(seq![0xC7u8], Invalid::Reg(reg)) },
                Parameter::Imm16(code_u16(mem, seg, imm_pos(mem, seg, pos, pre, Width::W16))), 2),
            OperandSize::_32bit => group(mem, seg, pos, pre, Width::W32,
                if reg == 0 { OpView::Valid(Op::Mov32) } else { OpView::Invalid(seq![0xC7u8], Invalid::Reg(reg)) },
                Parameter::Imm32(code_u32(mem, seg, imm_pos(mem, seg, pos, pre, Width::W32))), 4),
        }
    }
    else if b == 0xC8 {
        valid(Op::Enter, p2(Parameter::Imm16(code_u16(mem, seg, add16(pos, 1))), Parameter::Imm8(code_u8(mem, seg, add16(pos, 3)))), 4)
    }
    else if b == 0xC9 { op_plain(Op::Leave) }
    else if b == 0xCA { valid(Op::Retf, p1(Parameter::Imm16(code_u16(mem, seg, add16(pos, 1)))), 3) }
    else if b == 0xCB { op_plain(Op::Retf) }
    else if b == 0xCC { op_fixed(Op::Int, Parameter::Imm8(3)) }
    else if b == 0xCD { valid(Op::Int, p1(Parameter::Imm8(code_u8(mem, seg, add16(pos, 1)))), 2) }
    else if b == 0xCE { op_plain(Op::Into) }
    else if b == 0xCF { op_plain(Op::Iret) }
    else if b == 0xD0 { group(mem, seg, pos, pre, Width::W8, shift8(reg, 0xD0), Parameter::Imm8(1), 0) }
    else if b == 0xD1 { group(mem, seg, pos, pre, Width::W16, shift16(reg, 0xD1), Parameter::Imm16(1), 0) }
    else if b == 0xD2 { group(mem, seg, pos, pre, Width::W8, shift8(reg, 0xD2), Parameter::Reg8(R::CL), 0) }
    else if b == 0xD3 { group(mem, seg, pos, pre, Width::W16, shift16(reg, 0xD3), Parameter::Reg8(R::CL), 0) }
    else if b == 0xD4 { valid(Op::Aam, p1(Parameter::Imm8(code_u8(mem, seg, add16(pos, 1)))), 2) }
    else if b == 0xD5 { valid(Op::Aad, p1(Parameter::Imm8(code_u8(mem, seg, add16(pos, 1)))), 2) }
    else if b == 0xD6 { op_plain(Op::Salc) }
    else if b == 0xD7 { op_plain(Op::Xlatb) }
    else if 0xD8 <= b <= 0xDF { invalid(seq![b], Invalid::FPUOp, no_params(), 1) }
    else if b == 0xE0 { op_rel8(mem, seg, pos, Op::Loopne) }
    else if b == 0xE1 { op_rel8(mem, seg, pos, Op::Loope) }
    else if b == 0xE2 { op_rel8(mem, seg, pos, Op::Loop) }
    else if b == 0xE3 { op_rel8(mem, seg, pos, Op::Jcxz) }
    else if b == 0xE4 { op_al_imm8(mem, seg, pos, Op::In8) }
    else if b == 0xE5 { valid(Op::In16, p2(Parameter::Reg16(R::AX), Parameter::Imm8(code_u8(mem, seg, add16(pos, 1)))), 2) }
    else if b == 0xE6 { valid(Op::Out8, p2(Parameter::Imm8(code_u8(mem, seg, add16(pos, 1))), Parameter::Reg8(R::AL)), 2) }
    else if b == 0xE7 { valid(Op::Out16, p2(Parameter::Imm8(code_u8(mem, seg, add16(pos, 1))), Parameter::Reg16(R::AX)), 2) }
    else if b == 0xE8 { op_rel16_at(mem, seg, add16(pos, 1), Op::CallNear, 1) }
    else if b == 0xE9 { op_rel16_at(mem, seg, add16(pos, 1), Op::JmpNear, 1) }
    else if b == 0xEA {
        valid(Op::JmpFar, p1(Parameter::Ptr16Imm(code_u16(mem, seg, add16(pos, 3)), code_u16(mem, seg, add16(pos, 1)))), 5)
    }
    else if b == 0xEB { op_rel8(mem, seg, pos, Op::JmpShort) }
    else if b == 0xEC { valid(Op::In8, p2(Parameter::Reg8(R::AL), Parameter::Reg16(R::DX)), 1) }
    else if b == 0xED { valid(Op::In16, p2(Parameter::Reg16(R::AX), Parameter::Reg16(R::DX)), 1) }
    else if b == 0xEE { valid(Op::Out8, p2(Parameter::Reg16(R::DX), Parameter::Reg8(R::AL)), 1) }
    else if b == 0xEF { valid(Op::Out16, p2(Parameter::Reg16(R::DX), Parameter::Reg16(R::AX)), 1) }
    else if b == 0xF1 { op_fixed(Op::Int, Parameter::Imm8(1)) }
    else if b == 0xF4 { op_plain(Op::Hlt) }
    else if b == 0xF5 { op_plain(Op::Cmc) }
    else if b == 0xF6 {
        if reg < 2 {
            group(mem, seg, pos, pre, Width::W8, OpView::Valid(Op::Test8),
                Parameter::Imm8(code_u8(mem, seg, imm_pos(mem, seg, pos, pre, Width::W8))), 1)
        } else {
            group(mem, seg, pos, pre, Width::W8, OpView::Valid(math8(reg)), Parameter::Empty, 0)
        }
    } else if b == 0xF7 {
        match pre.op_size {
            OperandSize::_16bit => if reg < 2 {
                group(mem, seg, pos, pre, Width::W16, OpView::Valid(Op::Test16),
                    Parameter::Imm16(code_u16(mem, seg, imm_pos(mem, seg, pos, pre, Width::W16))), 2)
            } else {
                group(mem, seg, pos, pre, Width::W16, OpView::Valid(math16(reg)), Parameter::Empty, 0)
            },
            OperandSize::_32bit => group(mem, seg, pos, pre, Width::W32, math32(reg), Parameter::Empty, 0),
        }
    }
    else if b == 0xF8 { op_plain(Op::Clc) }
    else if b == 0xF9 { op_plain(Op::Stc) }
    else if b == 0xFA { op_plain(Op::Cli) }
    else if b == 0xFB { op_plain(Op::Sti) }
    else if b == 0xFC { op_plain(Op::Cld) }
    else if b == 0xFD { op_plain(Op::Std) }
    else if b == 0xFE {
        group(mem, seg, pos, pre, Width::W8,
            if reg == 0 || reg == 2 { OpView::Valid(Op::Inc8) }
            else if reg == 1 { OpView::Valid(Op::Dec8) }
            else { OpView::Invalid(seq![0xFEu8], Invalid::Reg(reg)) },
            Parameter::Empty, 0)
    } else {
        match pre.op_size {
            OperandSize::_16bit => group(mem, seg, pos, pre, Width::W16, grp_ff16(reg), Parameter::Empty, 0),
            OperandSize::_32bit => group(mem, seg, pos, pre, Width::W32,
                if reg == 0 { OpView::Valid(Op::Inc32) }
                else if reg == 1 { OpView::Valid(Op::Dec32) }
                else { OpView::Invalid(seq![0xFFu8], Invalid::Reg(reg)) },
                Parameter::Empty, 0),
        }
    }
}

/// What a two-byte opcode 0x0F xx at `pos` decodes to.
#[verifier::opaque]
pub open spec fn body_0f(mem: Seq<u8>, seg: u16, pos: u16, pre: Prefixes) -> Option<Body> {
    let b2 = code_u8(mem, seg, add16(pos, 1));
    let q = add16(pos, 2);
    let reg = modrm_reg(code_u8(mem, seg, q));
    if b2 == 0x00 {
        let (dst, n) = spec_rm(mem, seg, q, pre, Width::W16);
        Some(Body {
            cmd: if reg == 0 { OpView::Valid(Op::Sldt) } else { OpView::Invalid(seq![0x0Fu8, 0x00u8], Invalid::Reg(reg)) },
            params: p1(dst),
            len: 2 + n,
        })
    }
    else if b2 == 0x82 { op_rel16_at(mem, seg, q, Op::Jc, 2) }
    else if b2 == 0x83 { op_rel16_at(mem, seg, q, Op::Jnc, 2) }
    else if b2 == 0x84 { op_rel16_at(mem, seg, q, Op::Jz, 2) }
    else if b2 == 0x85 { op_rel16_at(mem, seg, q, Op::Jnz, 2) }
    else if b2 == 0x86 { op_rel16_at(mem, seg, q, Op::Jna, 2) }
    else if b2 == 0x87 { op_rel16_at(mem, seg, q, Op::Ja, 2) }
    else if b2 == 0x89 { op_rel16_at(mem, seg, q, Op::Jns, 2) }
    else if b2 == 0x8C { op_rel16_at(mem, seg, q, Op::Jl, 2) }
    else if b2 == 0x92 {
        let (dst, n) = spec_rm(mem, seg, q, pre, Width::W8);
        valid(Op::Setc, p1(dst), 2 + n)
    }
    else if b2 == 0x95 {
        let (dst, n) = spec_rm(mem, seg, q, pre, Width::W8);
        valid(Op::Setnz, p1(dst), 2 + n)
    }
    else if b2 == 0xA0 { valid(Op::Push16, p1(Parameter::SReg16(R::FS)), 2) }
    else if b2 == 0xA1 { valid(Op::Pop16, p1(Parameter::SReg16(R::FS)), 2) }
    else if b2 == 0xA3 { op_rm_r_q(mem, seg, q, 2, pre, Op::Bt, Width::W16) }
    else if b2 == 0xA4 || b2 == 0xAC {
        let (ps, n) = spec_rm_r(mem, seg, q, pre, Width::W16);
        valid(if b2 == 0xA4 { Op::Shld } else { Op::Shrd },
            ParameterSet { src2: Parameter::Imm8(code_u8(mem, seg, add16(q, n as int))), ..ps }, 2 + n + 1)
    }
    else if b2 == 0xA8 { valid(Op::Push16, p1(Parameter::SReg16(R::GS)), 2) }
    else if b2 == 0xA9 { valid(Op::Pop16, p1(Parameter::SReg16(R::GS)), 2) }
    else if b2 == 0xAF {
        match pre.op_size {
            OperandSize::_16bit => op_r_rm_q(mem, seg, q, 2, pre, Op::Imul16, Width::W16, Width::W16),
            OperandSize::_32bit => op_r_rm_q(mem, seg, q, 2, pre, Op::Imul32, Width::W32, Width::W32),
        }
    }
    else if b2 == 0xB6 {
        match pre.op_size {
            OperandSize::_16bit => op_r_rm_q(mem, seg, q, 2, pre, Op::Movzx16, Width::W16, Width::W8),
            OperandSize::_32bit => op_r_rm_q(mem, seg, q, 2, pre, Op::Movzx32, Width::W32, Width::W8),
        }
    }
    else if b2 == 0xBA {
        let (dst, n) = spec_rm(mem, seg, q, pre, Width::W16);
        valid(Op::Bts, p2(dst, Parameter::Imm8(code_u8(mem, seg, add16(q, n as int)))), 2 + n + 1)
    }
    else if b2 == 0xBC { op_r_rm_q(mem, seg, q, 2, pre, Op::Bsf, Width::W16, Width::W16) }
    else if b2 == 0xBE {
        match pre.op_size {
            OperandSize::_16bit => op_r_rm_q(mem, seg, q, 2, pre, Op::Movsx16, Width::W16, Width::W8),
            OperandSize::_32bit => op_r_rm_q(mem, seg, q, 2, pre, Op::Movsx32, Width::W32, Width::W8),
        }
    }
    else if b2 == 0xBF {
        match pre.op_size {
            OperandSize::_16bit => invalid(seq![0x0Fu8, 0xBFu8], Invalid::Op, no_params(), 2),
            OperandSize::_32bit => op_r_rm_q(mem, seg, q, 2, pre, Op::Movsx32, Width::W32, Width::W16),
        }
    }
    else { invalid(seq![0x0Fu8, b2], Invalid::Op, no_params(), 2) }
}

/// A byte that prefixes an instruction.
pub open spec fn is_prefix(b: u8) -> bool {
    b == 0x26 || b == 0x2E || b == 0x36 || b == 0x3E || b == 0x64 || b == 0x65 || b == 0x66
        || b == 0x67 || b == 0xF0 || b == 0xF2 || b == 0xF3
}

/// What an opcode byte at `pos` that is no prefix decodes to; `None` where
/// the decoder has no result.
#[verifier::opaque]
pub open spec fn spec_body(mem: Seq<u8>, seg: u16, pos: u16, pre: Prefixes) -> Option<Body> {
    let b = code_u8(mem, seg, pos);
    if b < 0x40 {
        body_00_3f(mem, seg, pos, pre)
    } else if b < 0x80 {
        body_40_7f(mem, seg, pos, pre)
    } else if b < 0xC0 {
        body_80_bf(mem, seg, pos, pre)
    } else {
        body_c0_ff(mem, seg, pos, pre)
    }
}

/// The prefix state after the prefix byte `b` (other than 0xF3).
pub open spec fn apply_prefix(pre: Prefixes, b: u8) -> Prefixes {
    if b == 0x26 { Prefixes { segment_prefix: Segment::ES, ..pre } }
    else if b == 0x2E { Prefixes { segment_prefix: Segment::CS, ..pre } }
    else if b == 0x36 { Prefixes { segment_prefix: Segment::SS, ..pre } }
    else if b == 0x3E { Prefixes { segment_prefix: Segment::DS, ..pre } }
    else if b == 0x64 { Prefixes { segment_prefix: Segment::FS, ..pre } }
    else if b == 0x65 { Prefixes { segment_prefix: Segment::GS, ..pre } }
    else if b == 0x66 { Prefixes { op_size: OperandSize::_32bit, ..pre } }
    else if b == 0x67 { Prefixes { address_size: AddressSize::_32bit, ..pre } }
    else if b == 0xF0 { Prefixes { lock: true, ..pre } }
    else { Prefixes { repeat: RepeatMode::Repne, ..pre } }
}

/// The string operations that a REP prefix repeats.
pub open spec fn is_rep_op(op: Op) -> bool {
    op is Insb || op is Insw || op is Outsb || op is Outsw || op is Movsb || op is Movsw
        || op is Movsd || op is Stosb || op is Stosw || op is Stosd || op is Lodsb || op is Lodsw
        || op is Lodsd
}

/// The string comparisons that a REPE prefix repeats.
pub open spec fn is_repe_op(op: Op) -> bool {
    op is Cmpsb || op is Cmpsw || op is Scasb || op is Scasw
}

/// An instruction after an 0xF3 prefix: REP or REPE for string operations,
/// an invalid operation otherwise.
pub open spec fn rep_fixup(iv: InstructionView) -> InstructionView {
    match iv.command {
        OpView::Valid(op) => if is_rep_op(op) {
            InstructionView { repeat: RepeatMode::Rep, ..iv }
        } else if is_repe_op(op) {
            InstructionView { repeat: RepeatMode::Repe, ..iv }
        } else {
            InstructionView { command: OpView::Invalid(seq![0xF3u8], Invalid::Op), ..iv }
        },
        _ => InstructionView { command: OpView::Invalid(seq![0xF3u8], Invalid::Op), ..iv },
    }
}

/// The instruction made of prefixes and a decoded opcode.
pub open spec fn assemble(pre: Prefixes, body: Body) -> InstructionView {
    InstructionView {
        command: body.cmd,
        params: body.params,
        segment_prefix: pre.segment_prefix,
        repeat: pre.repeat,
        lock: pre.lock,
        op_size: pre.op_size,
        address_size: pre.address_size,
    }
}

/// The instruction at `seg:pos` under the prefix state `pre`, and the number of
/// bytes it takes; `None` where the decoder has no result, which includes a
/// run of more than `fuel` prefix bytes.
pub open spec fn spec_decode(mem: Seq<u8>, seg: u16, pos: u16, pre: Prefixes, fuel: nat) -> Option<
    (InstructionView, nat),
>
    decreases fuel,
{
    let b = code_u8(mem, seg, pos);
    if is_prefix(b) {
        if fuel == 0 {
            None
        } else if b == 0xF3 {
            match spec_decode(mem, seg, add16(pos, 1), pre, (fuel - 1) as nat) {
                Some((iv, n)) => Some((rep_fixup(iv), n + 1)),
                None => None,
            }
        } else {
            match spec_decode(mem, seg, add16(pos, 1), apply_prefix(pre, b), (fuel - 1) as nat) {
                Some((iv, n)) => Some((iv, n + 1)),
                None => None,
            }
        }
    } else {
        match spec_body(mem, seg, pos, pre) {
            Some(body) => Some((assemble(pre, body), body.len)),
            None => None,
        }
    }
}

/// The instruction at `seg:pos` and its length in bytes, as the decoder finds
/// it: prefixes first, at most one full segment of them.
pub open spec fn decode_at(mem: Seq<u8>, seg: u16, pos: u16) -> Option<(InstructionView, nat)> {
    spec_decode(mem, seg, pos, initial_prefixes(), 65536)
}

} // verus!
