use vstd::prelude::*;

use crate::cpu::decoder_spec::{
    Body, ImmKind, Prefixes, Width, imm_param, add16, apply_prefix, arith16, arith8, assemble, body_00_3f, body_0f, body_40_7f, body_80_bf, body_c0_ff, code_u16, code_u32, code_u8, decode_at, group, grp81_32, grp_ff16, imm_pos, initial_prefixes, lemma_add16, invalid, is_prefix, is_rep_op, is_repe_op, jcc, math16, math32, math8, modrm_md, modrm_reg, modrm_rm, no_params, op_acc_imm_16_32, op_al_imm8, op_ax_imm16, op_fixed, op_low_reg_16_32, op_plain, op_plain_16_32, op_r_rm, op_r_rm_16_32, op_r_rm_q, op_rel16_at, op_rel8, op_rm_r, op_rm_r_16_32, op_rm_r_q, p1, p2, reg_after, rel_target, rep_fixup, shift16, shift32, shift8, spec_body, spec_decode, spec_r_rm, spec_reg, spec_rm, spec_rm16, spec_rm32, spec_rm8, spec_rm_r, valid,
};
use crate::cpu::format::{info_text, instruction_info_to_str, join_lines};
use crate::cpu::instruction::{Instruction, InstructionInfo, InstructionView, ModRegRm, RepeatMode};
use crate::cpu::op::{Invalid, Op, OpView};
use crate::cpu::parameter::{Parameter, ParameterSet};
use crate::cpu::register::{r16, r32, r8, sr, spec_amode_from, R};
use crate::cpu::segment::Segment;
use crate::memory::{flat, segment_bytes, Memory};

verus! {

/// The operand size of an instruction (0x66 prefix selects 32 bits).
#[derive(Copy, Clone, Debug, PartialEq, Eq, Structural)]
pub enum OperandSize {
    _16bit,
    _32bit,
}

/// The address size of an instruction (0x67 prefix selects 32 bits).
#[derive(Copy, Clone, Debug, PartialEq, Eq, Structural)]
pub enum AddressSize {
    _16bit,
    _32bit,
}

/// The prefix state held by an instruction under construction.
pub open spec fn pre_of(op: Instruction) -> Prefixes {
    Prefixes {
        segment_prefix: op.segment_prefix,
        repeat: op.repeat,
        lock: op.lock,
        op_size: op.op_size,
        address_size: op.address_size,
    }
}

/// Decodes machine code into instructions.
#[derive(Clone)]
pub struct Decoder {
    // starting instruction decoding offset
    current_seg: u16,
    current_offset: u16,
}

impl Default for Decoder {
    /// A decoder at `0000:0000`.
    fn default() -> (r: Self)
        ensures
            r.seg() == 0,
            r.off() == 0,
    {
        Decoder { current_seg: 0, current_offset: 0 }
    }
}

/// `op_new` holds the decoded `body` and the prefixes of `op_old`, and the
/// decoder has moved past the body.
pub open spec fn body_done(
    seg: u16,
    seg_new: u16,
    off_new: u16,
    op_old: Instruction,
    op_new: Instruction,
    pos: u16,
    body: Option<Body>,
) -> bool {
    &&& body is Some
    &&& op_new.command@ == body.unwrap().cmd
    &&& op_new.params == body.unwrap().params
    &&& pre_of(op_new) == pre_of(op_old)
    &&& seg_new == seg
    &&& off_new == add16(pos, body.unwrap().len as int)
}

impl Decoder {
    pub closed spec fn seg(&self) -> u16 {
        self.current_seg
    }

    pub closed spec fn off(&self) -> u16 {
        self.current_offset
    }

    fn advance(&mut self)
        ensures
            final(self).current_seg == old(self).current_seg,
            final(self).current_offset == add16(old(self).current_offset, 1),
    {
        if self.current_offset == 0xFFFF {
            self.current_offset = 0;
        } else {
            self.current_offset = self.current_offset + 1;
        }
    }

    fn read_u8(&mut self, mem: &Memory) -> (r: u8)
        ensures
            r == code_u8(mem@, old(self).current_seg, old(self).current_offset),
            final(self).current_seg == old(self).current_seg,
            final(self).current_offset == add16(old(self).current_offset, 1),
    {
        let b = mem.read_u8(self.current_seg, self.current_offset);
        self.advance();
        b
    }

    fn read_s8(&mut self, mem: &Memory) -> (r: i8)
        ensures
            r == code_u8(mem@, old(self).current_seg, old(self).current_offset) as i8,
            final(self).current_seg == old(self).current_seg,
            final(self).current_offset == add16(old(self).current_offset, 1),
    {
        self.read_u8(mem) as i8
    }

    fn read_u16(&mut self, mem: &Memory) -> (r: u16)
        ensures
            r == code_u16(mem@, old(self).current_seg, old(self).current_offset),
            final(self).current_seg == old(self).current_seg,
            final(self).current_offset == add16(old(self).current_offset, 2),
    {
        let lo = self.read_u8(mem);
        let hi = self.read_u8(mem);
        proof { lemma_add16(old(self).current_offset, 1, 1); }
        (lo as u16) + (hi as u16) * 256
    }

    fn read_s16(&mut self, mem: &Memory) -> (r: i16)
        ensures
            r == code_u16(mem@, old(self).current_seg, old(self).current_offset) as i16,
            final(self).current_seg == old(self).current_seg,
            final(self).current_offset == add16(old(self).current_offset, 2),
    {
        self.read_u16(mem) as i16
    }

    fn read_u32(&mut self, mem: &Memory) -> (r: u32)
        ensures
            r == code_u32(mem@, old(self).current_seg, old(self).current_offset),
            final(self).current_seg == old(self).current_seg,
            final(self).current_offset == add16(old(self).current_offset, 4),
    {
        let lo = self.read_u16(mem);
        let hi = self.read_u16(mem);
        proof { lemma_add16(old(self).current_offset, 2, 2); }
        (lo as u32) + (hi as u32) * 65536
    }

    /// The target of a jump relative to the offset after its displacement.
    fn relative(after: u16, disp: i32) -> (r: u16)
        requires
            -32768 <= disp < 32768,
        ensures
            r == rel_target(after, disp as int),
    {
        (((after as i32) + disp + 65536) % 65536) as u16
    }

    fn read_rel8(&mut self, mem: &Memory) -> (r: u16)
        ensures
            r == rel_target(
                add16(old(self).current_offset, 1),
                code_u8(mem@, old(self).current_seg, old(self).current_offset) as i8 as int,
            ),
            final(self).current_seg == old(self).current_seg,
            final(self).current_offset == add16(old(self).current_offset, 1),
    {
        let val = self.read_s8(mem);
        Self::relative(self.current_offset, val as i32)
    }

    fn read_rel16(&mut self, mem: &Memory) -> (r: u16)
        ensures
            r == rel_target(
                add16(old(self).current_offset, 2),
                code_u16(mem@, old(self).current_seg, old(self).current_offset) as i16 as int,
            ),
            final(self).current_seg == old(self).current_seg,
            final(self).current_offset == add16(old(self).current_offset, 2),
    {
        let val = self.read_s16(mem);
        Self::relative(self.current_offset, val as i32)
    }

    fn read_mod_reg_rm(&mut self, mem: &Memory) -> (r: ModRegRm)
        ensures
            r.md == modrm_md(code_u8(mem@, old(self).current_seg, old(self).current_offset)),
            r.reg == modrm_reg(code_u8(mem@, old(self).current_seg, old(self).current_offset)),
            r.rm == modrm_rm(code_u8(mem@, old(self).current_seg, old(self).current_offset)),
            r.md < 4,
            r.reg < 8,
            r.rm < 8,
            final(self).current_seg == old(self).current_seg,
            final(self).current_offset == add16(old(self).current_offset, 1),
    {
        let b = self.read_u8(mem);
        assert(b >> 6u8 == b / 64 && (b >> 3u8) & 7 == (b / 8) % 8 && b & 7 == b % 8)
            by (bit_vector);
        ModRegRm {
            md: b >> 6u8,  // high 2 bits
            reg: (b >> 3u8) & 7,  // mid 3 bits
            rm: b & 7,  // low 3 bits
        }
    }

    // decode rm8
    fn rm8(&mut self, mem: &Memory, seg: Segment, rm: u8, md: u8) -> (r: Parameter)
        requires
            rm < 8,
            md < 4,
        ensures
            r == spec_rm8(mem@, old(self).current_seg, old(self).current_offset, seg, md, rm).0,
            final(self).current_seg == old(self).current_seg,
            final(self).current_offset == add16(
                old(self).current_offset,
                spec_rm8(mem@, old(self).current_seg, old(self).current_offset, seg, md, rm).1
                    as int,
            ),
    {
        let adr_size = AddressSize::_16bit;
        proof { assert(add16(old(self).current_offset, 0) == old(self).current_offset); }
        match md {
            0 => {
                if rm == 6 {
                    // [u16]
                    Parameter::Ptr8(seg, self.read_u16(mem))
                } else {
                    // [amode]
                    Parameter::Ptr8Amode(seg, adr_size.amode_from(rm))
                }
            },
            // [amode+s8]
            1 => Parameter::Ptr8AmodeS8(seg, adr_size.amode_from(rm), self.read_s8(mem)),
            // [amode+s16]
            2 => Parameter::Ptr8AmodeS16(seg, adr_size.amode_from(rm), self.read_s16(mem)),
            // reg
            _ => Parameter::Reg8(r8(rm)),
        }
    }

    // decode rm16
    fn rm16(&mut self, mem: &Memory, op: &Instruction, rm: u8, md: u8) -> (r: Parameter)
        requires
            rm < 8,
            md < 4,
        ensures
            r == spec_rm16(
                mem@,
                old(self).current_seg,
                old(self).current_offset,
                op.segment_prefix,
                op.address_size,
                md,
                rm,
            ).0,
            final(self).current_seg == old(self).current_seg,
            final(self).current_offset == add16(
                old(self).current_offset,
                spec_rm16(
                    mem@,
                    old(self).current_seg,
                    old(self).current_offset,
                    op.segment_prefix,
                    op.address_size,
                    md,
                    rm,
                ).1 as int,
            ),
    {
        proof { assert(add16(old(self).current_offset, 0) == old(self).current_offset); }
        match md {
            0 => {
                if rm == 6 {
                    // [u16]
                    Parameter::Ptr16(op.segment_prefix, self.read_u16(mem))
                } else {
                    // [amode]
                    Parameter::Ptr16Amode(op.segment_prefix, op.address_size.amode_from(rm))
                }
            },
            // [amode+s8]
            1 => Parameter::Ptr16AmodeS8(
                op.segment_prefix,
                op.address_size.amode_from(rm),
                self.read_s8(mem),
            ),
            // [amode+s16]
            2 => Parameter::Ptr16AmodeS16(
                op.segment_prefix,
                op.address_size.amode_from(rm),
                self.read_s16(mem),
            ),
            // [reg]
            _ => Parameter::Reg16(r16(rm)),
        }
    }

    // decode rm32
    fn rm32(&mut self, mem: &Memory, op: &Instruction, rm: u8, md: u8) -> (r: Parameter)
        requires
            rm < 8,
            md < 4,
        ensures
            r == spec_rm32(
                mem@,
                old(self).current_seg,
                old(self).current_offset,
                op.segment_prefix,
                op.address_size,
                md,
                rm,
            ).0,
            final(self).current_seg == old(self).current_seg,
            final(self).current_offset == add16(
                old(self).current_offset,
                spec_rm32(
                    mem@,
                    old(self).current_seg,
                    old(self).current_offset,
                    op.segment_prefix,
                    op.address_size,
                    md,
                    rm,
                ).1 as int,
            ),
    {
        proof { assert(add16(old(self).current_offset, 0) == old(self).current_offset); }
        match md {
            0 => {
                if rm == 6 {
                    // [u16]
                    Parameter::Ptr32(op.segment_prefix, self.read_u16(mem))
                } else {
                    // [amode]
                    Parameter::Ptr32Amode(op.segment_prefix, op.address_size.amode_from(rm))
                }
            },
            // [amode+s8]
            1 => Parameter::Ptr32AmodeS8(
                op.segment_prefix,
                op.address_size.amode_from(rm),
                self.read_s8(mem),
            ),
            // [amode+s16]
            2 => Parameter::Ptr32AmodeS16(
                op.segment_prefix,
                op.address_size.amode_from(rm),
                self.read_s16(mem),
            ),
            // [reg]
            _ => Parameter::Reg32(r32(rm)),
        }
    }

    /// Reads a ModR/M byte and the r/m operand of width `w` that it selects;
    /// returns the operand and the reg field.
    fn read_rm(&mut self, mem: &Memory, op: &Instruction, w: Width) -> (r: (Parameter, u8))
        ensures
            r.0 == spec_rm(mem@, old(self).current_seg, old(self).current_offset, pre_of(*op), w).0,
            r.1 == modrm_reg(code_u8(mem@, old(self).current_seg, old(self).current_offset)),
            r.1 < 8,
            final(self).current_seg == old(self).current_seg,
            final(self).current_offset == add16(
                old(self).current_offset,
                spec_rm(mem@, old(self).current_seg, old(self).current_offset, pre_of(*op), w).1
                    as int,
            ),
    {
        let x = self.read_mod_reg_rm(mem);
        let p = match w {
            Width::W8 => self.rm8(mem, op.segment_prefix, x.rm, x.md),
            Width::W16 => self.rm16(mem, op, x.rm, x.md),
            Width::W32 => self.rm32(mem, op, x.rm, x.md),
        };
        proof {
            let n = spec_rm(mem@, old(self).current_seg, old(self).current_offset, pre_of(*op), w).1;
            lemma_add16(old(self).current_offset, 1, n - 1);
        }
        (p, x.reg)
    }

    /// The register operand of width `w` with encoding number `reg`.
    fn reg_param(reg: u8, w: Width) -> (r: Parameter)
        requires
            reg < 8,
        ensures
            r == match w {
                Width::W8 => Parameter::Reg8(crate::cpu::register::spec_r8(reg)),
                Width::W16 => Parameter::Reg16(crate::cpu::register::spec_r16(reg)),
                Width::W32 => Parameter::Reg32(crate::cpu::register::spec_r32(reg)),
            },
    {
        match w {
            Width::W8 => Parameter::Reg8(r8(reg)),
            Width::W16 => Parameter::Reg16(r16(reg)),
            Width::W32 => Parameter::Reg32(r32(reg)),
        }
    }

    /// Reads "r/m, reg" operands.
    fn rm_r(&mut self, mem: &Memory, op: &Instruction, w: Width) -> (r: ParameterSet)
        ensures
            r == spec_rm_r(mem@, old(self).current_seg, old(self).current_offset, pre_of(*op), w).0,
            final(self).current_seg == old(self).current_seg,
            final(self).current_offset == add16(
                old(self).current_offset,
                spec_rm_r(mem@, old(self).current_seg, old(self).current_offset, pre_of(*op), w).1
                    as int,
            ),
    {
        let (dst, reg) = self.read_rm(mem, op, w);
        ParameterSet { dst, src: Self::reg_param(reg, w), src2: Parameter::Empty }
    }

    /// Reads "reg, r/m" operands.
    fn r_rm(&mut self, mem: &Memory, op: &Instruction, wr: Width, wm: Width) -> (r: ParameterSet)
        ensures
            r == spec_r_rm(
                mem@,
                old(self).current_seg,
                old(self).current_offset,
                pre_of(*op),
                wr,
                wm,
            ).0,
            final(self).current_seg == old(self).current_seg,
            final(self).current_offset == add16(
                old(self).current_offset,
                spec_r_rm(
                    mem@,
                    old(self).current_seg,
                    old(self).current_offset,
                    pre_of(*op),
                    wr,
                    wm,
                ).1 as int,
            ),
    {
        let (src, reg) = self.read_rm(mem, op, wm);
        ParameterSet { dst: Self::reg_param(reg, wr), src, src2: Parameter::Empty }
    }
}


/// A vector holding one byte.
fn bytes1(b: u8) -> (v: Vec<u8>)
    ensures
        v@ == seq![b],
{
    let mut v = Vec::new();
    v.push(b);
    v
}

/// A vector holding two bytes.
fn bytes2(b: u8, b2: u8) -> (v: Vec<u8>)
    ensures
        v@ == seq![b, b2],
{
    let mut v = Vec::new();
    v.push(b);
    v.push(b2);
    v
}

fn arith8_op(reg: u8) -> (r: Op)
    ensures
        r == arith8(reg),
{
    match reg {
        0 => Op::Add8,
        1 => Op::Or8,
        2 => Op::Adc8,
        3 => Op::Sbb8,
        4 => Op::And8,
        5 => Op::Sub8,
        6 => Op::Xor8,
        _ => Op::Cmp8,
    }
}

fn arith16_op(reg: u8) -> (r: Op)
    ensures
        r == arith16(reg),
{
    match reg {
        0 => Op::Add16,
        1 => Op::Or16,
        2 => Op::Adc16,
        3 => Op::Sbb16,
        4 => Op::And16,
        5 => Op::Sub16,
        6 => Op::Xor16,
        _ => Op::Cmp16,
    }
}

fn shift8_op(reg: u8, b: u8) -> (r: Op)
    ensures
        r@ == shift8(reg, b),
{
    match reg {
        0 => Op::Rol8,
        1 => Op::Ror8,
        2 => Op::Rcl8,
        3 => Op::Rcr8,
        4 => Op::Shl8,
        5 => Op::Shr8,
        7 => Op::Sar8,
        _ => Op::Invalid(bytes1(b), Invalid::Reg(reg)),
    }
}

fn shift16_op(reg: u8, b: u8) -> (r: Op)
    ensures
        r@ == shift16(reg, b),
{
    match reg {
        0 => Op::Rol16,
        1 => Op::Ror16,
        2 => Op::Rcl16,
        3 => Op::Rcr16,
        4 => Op::Shl16,
        5 => Op::Shr16,
        7 => Op::Sar16,
        _ => Op::Invalid(bytes1(b), Invalid::Reg(reg)),
    }
}

fn math8_op(reg: u8) -> (r: Op)
    ensures
        r == math8(reg),
{
    match reg {
        2 => Op::Not8,
        3 => Op::Neg8,
        4 => Op::Mul8,
        5 => Op::Imul8,
        6 => Op::Div8,
        _ => Op::Idiv8,
    }
}

fn math16_op(reg: u8) -> (r: Op)
    ensures
        r == math16(reg),
{
    match reg {
        2 => Op::Not16,
        3 => Op::Neg16,
        4 => Op::Mul16,
        5 => Op::Imul16,
        6 => Op::Div16,
        _ => Op::Idiv16,
    }
}

fn math32_op(reg: u8) -> (r: Op)
    ensures
        r@ == math32(reg),
{
    match reg {
        3 => Op::Neg32,
        4 => Op::Mul32,
        5 => Op::Imul32,
        6 => Op::Div32,
        7 => Op::Idiv32,
        _ => Op::Invalid(bytes1(0xF7), Invalid::Reg(reg)),
    }
}

fn grp81_32_op(reg: u8) -> (r: Op)
    ensures
        r@ == grp81_32(reg),
{
    match reg {
        0 => Op::Add32,
        5 => Op::Sub32,
        7 => Op::Cmp32,
        _ => Op::Invalid(bytes1(0x81), Invalid::Reg(reg)),
    }
}

fn grp_ff16_op(reg: u8) -> (r: Op)
    ensures
        r@ == grp_ff16(reg),
{
    match reg {
        0 => Op::Inc16,
        1 => Op::Dec16,
        2 => Op::CallNear,
        3 => Op::CallFar,
        4 => Op::JmpNear,
        5 => Op::JmpFar,
        6 => Op::Push16,
        _ => Op::Invalid(bytes1(0xFF), Invalid::Reg(reg)),
    }
}

fn jcc_op(low: u8) -> (r: Op)
    ensures
        r == jcc(low),
{
    match low {
        0 => Op::Jo,
        1 => Op::Jno,
        2 => Op::Jc,
        3 => Op::Jnc,
        4 => Op::Jz,
        5 => Op::Jnz,
        6 => Op::Jna,
        7 => Op::Ja,
        8 => Op::Js,
        9 => Op::Jns,
        10 => Op::Jpe,
        11 => Op::Jpo,
        12 => Op::Jl,
        13 => Op::Jnl,
        14 => Op::Jng,
        _ => Op::Jg,
    }
}

fn empty_params() -> (r: ParameterSet)
    ensures
        r == no_params(),
{
    ParameterSet { dst: Parameter::Empty, src: Parameter::Empty, src2: Parameter::Empty }
}

impl Decoder {
    /// Reads the immediate operand of kind `k`.
    fn read_imm(&mut self, mem: &Memory, k: ImmKind) -> (r: Parameter)
        ensures
            r == imm_param(mem@, old(self).current_seg, old(self).current_offset, k).0,
            final(self).current_seg == old(self).current_seg,
            final(self).current_offset == add16(
                old(self).current_offset,
                imm_param(mem@, old(self).current_seg, old(self).current_offset, k).1 as int,
            ),
    {
        proof { assert(add16(old(self).current_offset, 0) == old(self).current_offset); }
        match k {
            ImmKind::Fixed(p) => p,
            ImmKind::U8 => Parameter::Imm8(self.read_u8(mem)),
            ImmKind::S8 => Parameter::ImmS8(self.read_s8(mem)),
            ImmKind::U16 => Parameter::Imm16(self.read_u16(mem)),
            ImmKind::U32 => Parameter::Imm32(self.read_u32(mem)),
        }
    }

    /// Reads the operands of a group instruction whose opcode is at `pos`:
    /// the r/m destination and the immediate source; returns the reg field.
    fn x_group(&mut self, mem: &Memory, op: &mut Instruction, w: Width, k: ImmKind, Ghost(pos): Ghost<u16>) -> (reg: u8)
        requires
            old(self).current_offset == add16(pos, 1),
        ensures
            reg == reg_after(mem@, old(self).current_seg, pos),
            reg < 8,
            ({
                let seg = old(self).current_seg;
                let pre = pre_of(*old(op));
                let (dst, n) = spec_rm(mem@, seg, add16(pos, 1), pre, w);
                let (src, m) = imm_param(mem@, seg, imm_pos(mem@, seg, pos, pre, w), k);
                &&& final(op).params == p2(dst, src)
                &&& final(self).current_offset == add16(pos, (1 + n + m) as int)
            }),
            final(op).command == old(op).command,
            pre_of(*final(op)) == pre_of(*old(op)),
            final(self).current_seg == old(self).current_seg,
    {
        let ghost pre = pre_of(*op);
        let ghost seg = self.current_seg;
        let (dst, reg) = self.read_rm(mem, op, w);
        let ghost n = spec_rm(mem@, seg, add16(pos, 1), pre, w).1;
        proof { lemma_add16(pos, 1, n as int); }
        let src = self.read_imm(mem, k);
        proof {
            let m = imm_param(mem@, seg, imm_pos(mem@, seg, pos, pre, w), k).1;
            lemma_add16(pos, (1 + n) as int, m as int);
        }
        op.params = ParameterSet { dst, src, src2: Parameter::Empty };
        reg
    }

    fn x_rm_r(&mut self, mem: &Memory, op: &mut Instruction, cmd: Op, w: Width, Ghost(pos): Ghost<u16>)
        requires
            old(self).current_offset == add16(pos, 1),
            !(cmd is Invalid),
        ensures
            body_done(old(self).current_seg, final(self).current_seg, final(self).current_offset,
                *old(op), *final(op), pos, op_rm_r(mem@, old(self).current_seg, pos, pre_of(*old(op)), cmd, w)),
    {
        let ghost seg = self.current_seg;
        let ps = self.rm_r(mem, op, w);
        proof { lemma_add16(pos, 1, spec_rm_r(mem@, seg, add16(pos, 1), pre_of(*op), w).1 as int); }
        op.command = cmd;
        op.params = ps;
    }

    fn x_r_rm(&mut self, mem: &Memory, op: &mut Instruction, cmd: Op, wr: Width, wm: Width, Ghost(pos): Ghost<u16>)
        requires
            old(self).current_offset == add16(pos, 1),
            !(cmd is Invalid),
        ensures
            body_done(old(self).current_seg, final(self).current_seg, final(self).current_offset,
                *old(op), *final(op), pos, op_r_rm(mem@, old(self).current_seg, pos, pre_of(*old(op)), cmd, wr, wm)),
    {
        let ghost seg = self.current_seg;
        let ps = self.r_rm(mem, op, wr, wm);
        proof { lemma_add16(pos, 1, spec_r_rm(mem@, seg, add16(pos, 1), pre_of(*op), wr, wm).1 as int); }
        op.command = cmd;
        op.params = ps;
    }

    /// "reg, r/m" operands from the ModR/M byte at the current offset `q`,
    /// after `hdr` opcode bytes.
    fn x_r_rm_q(&mut self, mem: &Memory, op: &mut Instruction, cmd: Op, wr: Width, wm: Width, Ghost(pos): Ghost<u16>, Ghost(hdr): Ghost<nat>)
        requires
            old(self).current_offset == add16(pos, hdr as int),
            !(cmd is Invalid),
        ensures
            body_done(old(self).current_seg, final(self).current_seg, final(self).current_offset,
                *old(op), *final(op), pos, op_r_rm_q(mem@, old(self).current_seg, add16(pos, hdr as int), hdr, pre_of(*old(op)), cmd, wr, wm)),
    {
        let ghost seg = self.current_seg;
        let ps = self.r_rm(mem, op, wr, wm);
        proof { lemma_add16(pos, hdr as int, spec_r_rm(mem@, seg, add16(pos, hdr as int), pre_of(*op), wr, wm).1 as int); }
        op.command = cmd;
        op.params = ps;
    }

    fn x_rm_r_16_32(&mut self, mem: &Memory, op: &mut Instruction, op16: Op, op32: Op, Ghost(pos): Ghost<u16>)
        requires
            old(self).current_offset == add16(pos, 1),
            !(op16 is Invalid),
            !(op32 is Invalid),
        ensures
            body_done(old(self).current_seg, final(self).current_seg, final(self).current_offset,
                *old(op), *final(op), pos, op_rm_r_16_32(mem@, old(self).current_seg, pos, pre_of(*old(op)), op16, op32)),
    {
        match op.op_size {
            OperandSize::_16bit => self.x_rm_r(mem, op, op16, Width::W16, Ghost(pos)),
            OperandSize::_32bit => self.x_rm_r(mem, op, op32, Width::W32, Ghost(pos)),
        }
    }

    fn x_r_rm_16_32(&mut self, mem: &Memory, op: &mut Instruction, op16: Op, op32: Op, Ghost(pos): Ghost<u16>)
        requires
            old(self).current_offset == add16(pos, 1),
            !(op16 is Invalid),
            !(op32 is Invalid),
        ensures
            body_done(old(self).current_seg, final(self).current_seg, final(self).current_offset,
                *old(op), *final(op), pos, op_r_rm_16_32(mem@, old(self).current_seg, pos, pre_of(*old(op)), op16, op32)),
    {
        match op.op_size {
            OperandSize::_16bit => self.x_r_rm(mem, op, op16, Width::W16, Width::W16, Ghost(pos)),
            OperandSize::_32bit => self.x_r_rm(mem, op, op32, Width::W32, Width::W32, Ghost(pos)),
        }
    }

    fn x_al_imm8(&mut self, mem: &Memory, op: &mut Instruction, cmd: Op, Ghost(pos): Ghost<u16>)
        requires
            old(self).current_offset == add16(pos, 1),
            !(cmd is Invalid),
        ensures
            body_done(old(self).current_seg, final(self).current_seg, final(self).current_offset,
                *old(op), *final(op), pos, op_al_imm8(mem@, old(self).current_seg, pos, cmd)),
    {
        let imm = self.read_u8(mem);
        proof { lemma_add16(pos, 1, 1); }
        op.command = cmd;
        op.params = ParameterSet { dst: Parameter::Reg8(R::AL), src: Parameter::Imm8(imm), src2: Parameter::Empty };
    }

    fn x_ax_imm16(&mut self, mem: &Memory, op: &mut Instruction, cmd: Op, Ghost(pos): Ghost<u16>)
        requires
            old(self).current_offset == add16(pos, 1),
            !(cmd is Invalid),
        ensures
            body_done(old(self).current_seg, final(self).current_seg, final(self).current_offset,
                *old(op), *final(op), pos, op_ax_imm16(mem@, old(self).current_seg, pos, cmd)),
    {
        let imm = self.read_u16(mem);
        proof { lemma_add16(pos, 1, 2); }
        op.command = cmd;
        op.params = ParameterSet { dst: Parameter::Reg16(R::AX), src: Parameter::Imm16(imm), src2: Parameter::Empty };
    }

    fn x_acc_imm_16_32(&mut self, mem: &Memory, op: &mut Instruction, op16: Op, op32: Op, Ghost(pos): Ghost<u16>)
        requires
            old(self).current_offset == add16(pos, 1),
            !(op16 is Invalid),
            !(op32 is Invalid),
        ensures
            body_done(old(self).current_seg, final(self).current_seg, final(self).current_offset,
                *old(op), *final(op), pos, op_acc_imm_16_32(mem@, old(self).current_seg, pos, pre_of(*old(op)), op16, op32)),
    {
        match op.op_size {
            OperandSize::_16bit => self.x_ax_imm16(mem, op, op16, Ghost(pos)),
            OperandSize::_32bit => {
                let imm = self.read_u32(mem);
                proof { lemma_add16(pos, 1, 4); }
                op.command = op32;
                op.params = ParameterSet { dst: Parameter::Reg32(R::EAX), src: Parameter::Imm32(imm), src2: Parameter::Empty };
            },
        }
    }

    fn x_fixed(&mut self, op: &mut Instruction, cmd: Op, dst: Parameter, Ghost(pos): Ghost<u16>)
        requires
            old(self).current_offset == add16(pos, 1),
            !(cmd is Invalid),
        ensures
            body_done(old(self).current_seg, final(self).current_seg, final(self).current_offset,
                *old(op), *final(op), pos, op_fixed(cmd, dst)),
    {
        op.command = cmd;
        op.params = ParameterSet { dst, src: Parameter::Empty, src2: Parameter::Empty };
    }

    fn x_plain(&mut self, op: &mut Instruction, cmd: Op, Ghost(pos): Ghost<u16>)
        requires
            old(self).current_offset == add16(pos, 1),
            !(cmd is Invalid),
        ensures
            body_done(old(self).current_seg, final(self).current_seg, final(self).current_offset,
                *old(op), *final(op), pos, op_plain(cmd)),
    {
        op.command = cmd;
        op.params = empty_params();
    }

    fn x_plain_16_32(&mut self, op: &mut Instruction, op16: Op, op32: Op, Ghost(pos): Ghost<u16>)
        requires
            old(self).current_offset == add16(pos, 1),
            !(op16 is Invalid),
            !(op32 is Invalid),
        ensures
            body_done(old(self).current_seg, final(self).current_seg, final(self).current_offset,
                *old(op), *final(op), pos, op_plain_16_32(pre_of(*old(op)), op16, op32)),
    {
        match op.op_size {
            OperandSize::_16bit => self.x_plain(op, op16, Ghost(pos)),
            OperandSize::_32bit => self.x_plain(op, op32, Ghost(pos)),
        }
    }

    fn x_rel8(&mut self, mem: &Memory, op: &mut Instruction, cmd: Op, Ghost(pos): Ghost<u16>)
        requires
            old(self).current_offset == add16(pos, 1),
            !(cmd is Invalid),
        ensures
            body_done(old(self).current_seg, final(self).current_seg, final(self).current_offset,
                *old(op), *final(op), pos, op_rel8(mem@, old(self).current_seg, pos, cmd)),
    {
        let t = self.read_rel8(mem);
        proof { lemma_add16(pos, 1, 1); }
        op.command = cmd;
        op.params = ParameterSet { dst: Parameter::Imm16(t), src: Parameter::Empty, src2: Parameter::Empty };
    }

    /// A jump to a 16-bit relative target at the current offset, after `hdr`
    /// opcode bytes.
    fn x_rel16(&mut self, mem: &Memory, op: &mut Instruction, cmd: Op, Ghost(pos): Ghost<u16>, Ghost(hdr): Ghost<nat>)
        requires
            old(self).current_offset == add16(pos, hdr as int),
            !(cmd is Invalid),
        ensures
            body_done(old(self).current_seg, final(self).current_seg, final(self).current_offset,
                *old(op), *final(op), pos, op_rel16_at(mem@, old(self).current_seg, add16(pos, hdr as int), cmd, hdr)),
    {
        let t = self.read_rel16(mem);
        proof { lemma_add16(pos, hdr as int, 2); }
        op.command = cmd;
        op.params = ParameterSet { dst: Parameter::Imm16(t), src: Parameter::Empty, src2: Parameter::Empty };
    }

    fn x_low_reg_16_32(&mut self, op: &mut Instruction, b: u8, op16: Op, op32: Op, Ghost(pos): Ghost<u16>)
        requires
            old(self).current_offset == add16(pos, 1),
            !(op16 is Invalid),
            !(op32 is Invalid),
        ensures
            body_done(old(self).current_seg, final(self).current_seg, final(self).current_offset,
                *old(op), *final(op), pos, op_low_reg_16_32(pre_of(*old(op)), b, op16, op32)),
    {
        proof { assert(b & 7 == b % 8 && b & 7 < 8) by (bit_vector); }
        match op.op_size {
            OperandSize::_16bit => self.x_fixed(op, op16, Parameter::Reg16(r16(b & 7)), Ghost(pos)),
            OperandSize::_32bit => self.x_fixed(op, op32, Parameter::Reg32(r32(b & 7)), Ghost(pos)),
        }
    }
}


impl Decoder {
    fn x_rm_r_q(&mut self, mem: &Memory, op: &mut Instruction, cmd: Op, w: Width, Ghost(pos): Ghost<u16>, Ghost(hdr): Ghost<nat>)
        requires
            old(self).current_offset == add16(pos, hdr as int),
            !(cmd is Invalid),
        ensures
            body_done(old(self).current_seg, final(self).current_seg, final(self).current_offset,
                *old(op), *final(op), pos, op_rm_r_q(mem@, old(self).current_seg, add16(pos, hdr as int), hdr, pre_of(*old(op)), cmd, w)),
    {
        let ghost seg = self.current_seg;
        let ps = self.rm_r(mem, op, w);
        proof { lemma_add16(pos, hdr as int, spec_rm_r(mem@, seg, add16(pos, hdr as int), pre_of(*op), w).1 as int); }
        op.command = cmd;
        op.params = ps;
    }

    /// Decodes a one-byte opcode in 0x00..=0x3F.
    #[verifier::rlimit(40)]
    fn decode_00_3f(&mut self, mem: &Memory, op: &mut Instruction, b: u8, Ghost(pos): Ghost<u16>)
        requires
            old(self).current_offset == add16(pos, 1),
            b == code_u8(mem@, old(self).current_seg, pos),
            b < 0x40,
            !is_prefix(b),
            body_00_3f(mem@, old(self).current_seg, pos, pre_of(*old(op))) is Some,
        ensures
            body_done(old(self).current_seg, final(self).current_seg, final(self).current_offset,
                *old(op), *final(op), pos, body_00_3f(mem@, old(self).current_seg, pos, pre_of(*old(op)))),
    {
        proof { reveal(body_00_3f); }
        match b {
            0x00 => self.x_rm_r(mem, op, Op::Add8, Width::W8, Ghost(pos)),
            0x01 => self.x_rm_r_16_32(mem, op, Op::Add16, Op::Add32, Ghost(pos)),
            0x02 => self.x_r_rm(mem, op, Op::Add8, Width::W8, Width::W8, Ghost(pos)),
            0x03 => self.x_r_rm_16_32(mem, op, Op::Add16, Op::Add32, Ghost(pos)),
            0x04 => self.x_al_imm8(mem, op, Op::Add8, Ghost(pos)),
            0x05 => self.x_acc_imm_16_32(mem, op, Op::Add16, Op::Add32, Ghost(pos)),
            0x06 => self.x_fixed(op, Op::Push16, Parameter::SReg16(R::ES), Ghost(pos)),
            0x07 => self.x_fixed(op, Op::Pop16, Parameter::SReg16(R::ES), Ghost(pos)),
            0x08 => self.x_rm_r(mem, op, Op::Or8, Width::W8, Ghost(pos)),
            0x09 => self.x_rm_r(mem, op, Op::Or16, Width::W16, Ghost(pos)),
            0x0A => self.x_r_rm(mem, op, Op::Or8, Width::W8, Width::W8, Ghost(pos)),
            0x0B => self.x_r_rm(mem, op, Op::Or16, Width::W16, Width::W16, Ghost(pos)),
            0x0C => self.x_al_imm8(mem, op, Op::Or8, Ghost(pos)),
            0x0D => self.x_ax_imm16(mem, op, Op::Or16, Ghost(pos)),
            0x0E => self.x_fixed(op, Op::Push16, Parameter::SReg16(R::CS), Ghost(pos)),
            0x0F => self.decode_0f(mem, op, Ghost(pos)),
            0x10 => self.x_rm_r(mem, op, Op::Adc8, Width::W8, Ghost(pos)),
            0x11 => self.x_rm_r(mem, op, Op::Adc16, Width::W16, Ghost(pos)),
            0x12 => self.x_r_rm(mem, op, Op::Adc8, Width::W8, Width::W8, Ghost(pos)),
            0x13 => self.x_r_rm(mem, op, Op::Adc16, Width::W16, Width::W16, Ghost(pos)),
            0x14 => self.x_al_imm8(mem, op, Op::Adc8, Ghost(pos)),
            0x15 => self.x_ax_imm16(mem, op, Op::Adc16, Ghost(pos)),
            0x16 => self.x_fixed(op, Op::Push16, Parameter::SReg16(R::SS), Ghost(pos)),
            0x17 => self.x_fixed(op, Op::Pop16, Parameter::SReg16(R::SS), Ghost(pos)),
            0x18 => self.x_rm_r(mem, op, Op::Sbb8, Width::W8, Ghost(pos)),
            0x19 => self.x_rm_r(mem, op, Op::Sbb16, Width::W16, Ghost(pos)),
            0x1A => self.x_r_rm(mem, op, Op::Sbb8, Width::W8, Width::W8, Ghost(pos)),
            0x1B => self.x_r_rm(mem, op, Op::Sbb16, Width::W16, Width::W16, Ghost(pos)),
            0x1C => self.x_al_imm8(mem, op, Op::Sbb8, Ghost(pos)),
            0x1D => self.x_ax_imm16(mem, op, Op::Sbb16, Ghost(pos)),
            0x1E => self.x_fixed(op, Op::Push16, Parameter::SReg16(R::DS), Ghost(pos)),
            0x1F => self.x_fixed(op, Op::Pop16, Parameter::SReg16(R::DS), Ghost(pos)),
            0x20 => self.x_rm_r(mem, op, Op::And8, Width::W8, Ghost(pos)),
            0x21 => self.x_rm_r(mem, op, Op::And16, Width::W16, Ghost(pos)),
            0x22 => self.x_r_rm(mem, op, Op::And8, Width::W8, Width::W8, Ghost(pos)),
            0x23 => self.x_r_rm(mem, op, Op::And16, Width::W16, Width::W16, Ghost(pos)),
            0x24 => self.x_al_imm8(mem, op, Op::And8, Ghost(pos)),
            0x25 => self.x_ax_imm16(mem, op, Op::And16, Ghost(pos)),
            0x27 => self.x_plain(op, Op::Daa, Ghost(pos)),
            0x28 => self.x_rm_r(mem, op, Op::Sub8, Width::W8, Ghost(pos)),
            0x29 => self.x_rm_r(mem, op, Op::Sub16, Width::W16, Ghost(pos)),
            0x2A => self.x_r_rm(mem, op, Op::Sub8, Width::W8, Width::W8, Ghost(pos)),
            0x2B => self.x_r_rm_16_32(mem, op, Op::Sub16, Op::Sub32, Ghost(pos)),
            0x2C => self.x_al_imm8(mem, op, Op::Sub8, Ghost(pos)),
            0x2D => self.x_acc_imm_16_32(mem, op, Op::Sub16, Op::Sub32, Ghost(pos)),
            0x2F => self.x_plain(op, Op::Das, Ghost(pos)),
            0x30 => self.x_rm_r(mem, op, Op::Xor8, Width::W8, Ghost(pos)),
            0x31 => self.x_rm_r_16_32(mem, op, Op::Xor16, Op::Xor32, Ghost(pos)),
            0x32 => self.x_r_rm(mem, op, Op::Xor8, Width::W8, Width::W8, Ghost(pos)),
            0x33 => self.x_r_rm_16_32(mem, op, Op::Xor16, Op::Xor32, Ghost(pos)),
            0x34 => self.x_al_imm8(mem, op, Op::Xor8, Ghost(pos)),
            0x35 => self.x_ax_imm16(mem, op, Op::Xor16, Ghost(pos)),
            0x37 => self.x_plain(op, Op::Aaa, Ghost(pos)),
            0x38 => self.x_rm_r(mem, op, Op::Cmp8, Width::W8, Ghost(pos)),
            0x39 => self.x_rm_r(mem, op, Op::Cmp16, Width::W16, Ghost(pos)),
            0x3A => self.x_r_rm(mem, op, Op::Cmp8, Width::W8, Width::W8, Ghost(pos)),
            0x3B => self.x_r_rm_16_32(mem, op, Op::Cmp16, Op::Cmp32, Ghost(pos)),
            0x3C => self.x_al_imm8(mem, op, Op::Cmp8, Ghost(pos)),
            0x3D => self.x_acc_imm_16_32(mem, op, Op::Cmp16, Op::Cmp32, Ghost(pos)),
            _ => self.x_plain(op, Op::Aas, Ghost(pos)),
        }
    }

    /// Decodes a one-byte opcode in 0x40..=0x7F.
    #[verifier::rlimit(40)]
    fn decode_40_7f(&mut self, mem: &Memory, op: &mut Instruction, b: u8, Ghost(pos): Ghost<u16>)
        requires
            old(self).current_offset == add16(pos, 1),
            b == code_u8(mem@, old(self).current_seg, pos),
            0x40 <= b < 0x80,
            !is_prefix(b),
            body_40_7f(mem@, old(self).current_seg, pos, pre_of(*old(op))) is Some,
        ensures
            body_done(old(self).current_seg, final(self).current_seg, final(self).current_offset,
                *old(op), *final(op), pos, body_40_7f(mem@, old(self).current_seg, pos, pre_of(*old(op)))),
    {
        proof { reveal(body_40_7f); }
        let ghost seg = self.current_seg;
        let ghost pre = pre_of(*op);
        match b {
            0x40..=0x47 => self.x_low_reg_16_32(op, b, Op::Inc16, Op::Inc32, Ghost(pos)),
            0x48..=0x4F => self.x_low_reg_16_32(op, b, Op::Dec16, Op::Dec32, Ghost(pos)),
            0x50..=0x57 => self.x_low_reg_16_32(op, b, Op::Push16, Op::Push32, Ghost(pos)),
            0x58..=0x5F => self.x_low_reg_16_32(op, b, Op::Pop16, Op::Pop32, Ghost(pos)),
            0x60 => self.x_plain_16_32(op, Op::Pusha16, Op::Pushad32, Ghost(pos)),
            0x61 => self.x_plain_16_32(op, Op::Popa16, Op::Popad32, Ghost(pos)),
            0x62 => self.x_r_rm(mem, op, Op::Bound, Width::W16, Width::W16, Ghost(pos)),
            0x63 => self.x_rm_r(mem, op, Op::Arpl, Width::W16, Ghost(pos)),
            0x68 => {
                // push imm16
                let imm = self.read_u16(mem);
                proof { lemma_add16(pos, 1, 2); }
                op.command = Op::Push16;
                op.params = ParameterSet { dst: Parameter::Imm16(imm), src: Parameter::Empty, src2: Parameter::Empty };
            },
            0x69 => match op.op_size {
                OperandSize::_16bit => {
                    // imul r16, r/m16, imm16
                    self.x_r_rm(mem, op, Op::Imul16, Width::W16, Width::W16, Ghost(pos));
                    let imm = self.read_u16(mem);
                    proof { lemma_add16(pos, (1 + spec_r_rm(mem@, seg, add16(pos, 1), pre, Width::W16, Width::W16).1) as int, 2); }
                    op.params = ParameterSet { src2: Parameter::Imm16(imm), ..op.params };
                },
                OperandSize::_32bit => {
                    // imul r32, r/m32, imm32
                    self.x_r_rm(mem, op, Op::Imul32, Width::W32, Width::W32, Ghost(pos));
                    let imm = self.read_u32(mem);
                    proof { lemma_add16(pos, (1 + spec_r_rm(mem@, seg, add16(pos, 1), pre, Width::W32, Width::W32).1) as int, 4); }
                    op.params = ParameterSet { src2: Parameter::Imm32(imm), ..op.params };
                },
            },
            0x6A => {
                // push imm8
                let imm = self.read_s8(mem);
                proof { lemma_add16(pos, 1, 1); }
                op.command = Op::Push16;
                op.params = ParameterSet { dst: Parameter::ImmS8(imm), src: Parameter::Empty, src2: Parameter::Empty };
            },
            0x6B => match op.op_size {
                OperandSize::_16bit => {
                    // imul r16, r/m16, imm8
                    self.x_r_rm(mem, op, Op::Imul16, Width::W16, Width::W16, Ghost(pos));
                    let imm = self.read_u8(mem);
                    proof { lemma_add16(pos, (1 + spec_r_rm(mem@, seg, add16(pos, 1), pre, Width::W16, Width::W16).1) as int, 1); }
                    op.params = ParameterSet { src2: Parameter::Imm8(imm), ..op.params };
                },
                OperandSize::_32bit => {
                    // imul r32, r/m32, imm8
                    self.x_r_rm(mem, op, Op::Imul32, Width::W32, Width::W32, Ghost(pos));
                    let imm = self.read_u8(mem);
                    proof { lemma_add16(pos, (1 + spec_r_rm(mem@, seg, add16(pos, 1), pre, Width::W32, Width::W32).1) as int, 1); }
                    op.params = ParameterSet { src2: Parameter::Imm8(imm), ..op.params };
                },
            },
            0x6C => self.x_plain(op, Op::Insb, Ghost(pos)),
            0x6D => self.x_plain(op, Op::Insw, Ghost(pos)),
            0x6E => self.x_plain(op, Op::Outsb, Ghost(pos)),
            0x6F => self.x_plain(op, Op::Outsw, Ghost(pos)),
            _ => self.x_rel8(mem, op, jcc_op(b - 0x70), Ghost(pos)),
        }
    }
}


impl Decoder {
    /// Sets a command and operands that take no bytes after the opcode.
    fn x_set(&mut self, op: &mut Instruction, cmd: Op, params: ParameterSet)
        ensures
            final(op).command == cmd,
            final(op).params == params,
            pre_of(*final(op)) == pre_of(*old(op)),
            *final(self) == *old(self),
    {
        op.command = cmd;
        op.params = params;
    }

    /// Decodes a one-byte opcode in 0x80..=0xBF.
    #[verifier::rlimit(60)]
    fn decode_80_bf(&mut self, mem: &Memory, op: &mut Instruction, b: u8, Ghost(pos): Ghost<u16>)
        requires
            old(self).current_offset == add16(pos, 1),
            b == code_u8(mem@, old(self).current_seg, pos),
            0x80 <= b < 0xC0,
            !is_prefix(b),
            body_80_bf(mem@, old(self).current_seg, pos, pre_of(*old(op))) is Some,
        ensures
            body_done(old(self).current_seg, final(self).current_seg, final(self).current_offset,
                *old(op), *final(op), pos, body_80_bf(mem@, old(self).current_seg, pos, pre_of(*old(op)))),
    {
        proof { reveal(body_80_bf); }
        let ghost seg = self.current_seg;
        let ghost pre = pre_of(*op);
        match b {
            0x80 => {
                // <arithmetic> r/m8, imm8
                let reg = self.x_group(mem, op, Width::W8, ImmKind::U8, Ghost(pos));
                op.command = arith8_op(reg);
            },
            0x81 => match op.op_size {
                OperandSize::_16bit => {
                    // <arithmetic> r/m16, imm16
                    let reg = self.x_group(mem, op, Width::W16, ImmKind::U16, Ghost(pos));
                    op.command = arith16_op(reg);
                },
                OperandSize::_32bit => {
                    // <arithmetic> r/m32, imm32
                    let reg = self.x_group(mem, op, Width::W32, ImmKind::U32, Ghost(pos));
                    op.command = grp81_32_op(reg);
                },
            },
            0x82 => self.x_set(op, Op::Invalid(bytes1(b), Invalid::Op), empty_params()),
            0x83 => match op.op_size {
                OperandSize::_16bit => {
                    // <arithmetic> r/m16, imm8
                    let reg = self.x_group(mem, op, Width::W16, ImmKind::S8, Ghost(pos));
                    op.command = arith16_op(reg);
                },
                OperandSize::_32bit => {
                    // <arithmetic> r/m32, imm8
                    let reg = self.x_group(mem, op, Width::W32, ImmKind::S8, Ghost(pos));
                    op.command = if reg == 0 {
                        Op::Add32
                    } else {
                        Op::Invalid(bytes1(b), Invalid::Reg(reg))
                    };
                },
            },
            0x84 => self.x_rm_r(mem, op, Op::Test8, Width::W8, Ghost(pos)),
            0x85 => self.x_rm_r(mem, op, Op::Test16, Width::W16, Ghost(pos)),
            0x86 => self.x_rm_r(mem, op, Op::Xchg8, Width::W8, Ghost(pos)),
            0x87 => self.x_rm_r(mem, op, Op::Xchg16, Width::W16, Ghost(pos)),
            0x88 => self.x_rm_r(mem, op, Op::Mov8, Width::W8, Ghost(pos)),
            0x89 => self.x_rm_r_16_32(mem, op, Op::Mov16, Op::Mov32, Ghost(pos)),
            0x8A => self.x_r_rm(mem, op, Op::Mov8, Width::W8, Width::W8, Ghost(pos)),
            0x8B => self.x_r_rm_16_32(mem, op, Op::Mov16, Op::Mov32, Ghost(pos)),
            0x8C => {
                // mov r/m16, sreg
                let (dst, reg) = self.read_rm(mem, op, Width::W16);
                proof { lemma_add16(pos, 1, spec_rm(mem@, seg, add16(pos, 1), pre, Width::W16).1 as int); }
                op.command = Op::Mov16;
                op.params = ParameterSet { dst, src: Parameter::SReg16(sr(reg)), src2: Parameter::Empty };
            },
            0x8D => self.x_r_rm(mem, op, Op::Lea16, Width::W16, Width::W16, Ghost(pos)),
            0x8E => {
                // mov sreg, r/m16
                let (src, reg) = self.read_rm(mem, op, Width::W16);
                proof { lemma_add16(pos, 1, spec_rm(mem@, seg, add16(pos, 1), pre, Width::W16).1 as int); }
                op.command = Op::Mov16;
                op.params = ParameterSet { dst: Parameter::SReg16(sr(reg)), src, src2: Parameter::Empty };
            },
            0x8F => {
                let reg = self.x_group(mem, op, Width::W16, ImmKind::Fixed(Parameter::Empty), Ghost(pos));
                op.command = if reg == 0 {
                    Op::Pop16  // pop r/m16
                } else {
                    Op::Invalid(bytes1(b), Invalid::FPUOp)
                };
            },
            0x90 => self.x_plain(op, Op::Nop, Ghost(pos)),
            0x91..=0x97 => {
                proof { assert(b & 7 == b % 8 && b & 7 < 8) by (bit_vector); }
                match op.op_size {
                    OperandSize::_16bit => {
                        // xchg AX, r16 | xchg r16, AX
                        // NOTE: "xchg ax,ax" is an alias of "nop"
                        self.x_set(op, Op::Xchg16, ParameterSet { dst: Parameter::Reg16(R::AX), src: Parameter::Reg16(r16(b & 7)), src2: Parameter::Empty });
                    },
                    OperandSize::_32bit => {
                        self.x_set(op, Op::Xchg32, ParameterSet { dst: Parameter::Reg32(R::EAX), src: Parameter::Reg32(r32(b & 7)), src2: Parameter::Empty });
                    },
                }
            },
            0x98 => self.x_plain_16_32(op, Op::Cbw, Op::Cwde32, Ghost(pos)),
            0x99 => self.x_plain(op, Op::Cwd16, Ghost(pos)),
            0x9A => {
                // call ptr16:16
                let imm = self.read_u16(mem);
                let seg16 = self.read_u16(mem);
                proof { lemma_add16(pos, 1, 2); lemma_add16(pos, 3, 2); }
                self.x_set(op, Op::CallFar, ParameterSet { dst: Parameter::Ptr16Imm(seg16, imm), src: Parameter::Empty, src2: Parameter::Empty });
            },
            0x9B => self.x_set(op, Op::Invalid(bytes1(b), Invalid::FPUOp), empty_params()),
            0x9C => self.x_plain(op, Op::Pushf, Ghost(pos)),
            0x9D => self.x_plain(op, Op::Popf, Ghost(pos)),
            0x9E => self.x_plain(op, Op::Sahf, Ghost(pos)),
            0x9F => self.x_plain(op, Op::Lahf, Ghost(pos)),
            0xA0 => {
                // mov AL, [moffs8]
                let imm = self.read_u16(mem);
                proof { lemma_add16(pos, 1, 2); }
                let sp = op.segment_prefix;
                self.x_set(op, Op::Mov8, ParameterSet { dst: Parameter::Reg8(R::AL), src: Parameter::Ptr8(sp, imm), src2: Parameter::Empty });
            },
            0xA1 => {
                let imm = self.read_u16(mem);
                proof { lemma_add16(pos, 1, 2); }
                let sp = op.segment_prefix;
                match op.op_size {
                    // mov AX, [moffs16]
                    OperandSize::_16bit => self.x_set(op, Op::Mov16, ParameterSet { dst: Parameter::Reg16(R::AX), src: Parameter::Ptr16(sp, imm), src2: Parameter::Empty }),
                    // mov EAX, [moffs32]
                    OperandSize::_32bit => self.x_set(op, Op::Mov32, ParameterSet { dst: Parameter::Reg32(R::EAX), src: Parameter::Ptr32(sp, imm), src2: Parameter::Empty }),
                }
            },
            0xA2 => {
                // mov [moffs8], AL
                let imm = self.read_u16(mem);
                proof { lemma_add16(pos, 1, 2); }
                let sp = op.segment_prefix;
                self.x_set(op, Op::Mov8, ParameterSet { dst: Parameter::Ptr8(sp, imm), src: Parameter::Reg8(R::AL), src2: Parameter::Empty });
            },
            0xA3 => {
                let imm = self.read_u16(mem);
                proof { lemma_add16(pos, 1, 2); }
                let sp = op.segment_prefix;
                match op.op_size {
                    // mov [moffs16], AX
                    OperandSize::_16bit => self.x_set(op, Op::Mov16, ParameterSet { dst: Parameter::Ptr16(sp, imm), src: Parameter::Reg16(R::AX), src2: Parameter::Empty }),
                    // mov [moffs32], EAX
                    OperandSize::_32bit => self.x_set(op, Op::Mov32, ParameterSet { dst: Parameter::Ptr32(sp, imm), src: Parameter::Reg32(R::EAX), src2: Parameter::Empty }),
                }
            },
            0xA4 => self.x_plain(op, Op::Movsb, Ghost(pos)),
            0xA5 => self.x_plain_16_32(op, Op::Movsw, Op::Movsd, Ghost(pos)),
            0xA6 => self.x_plain(op, Op::Cmpsb, Ghost(pos)),
            0xA7 => self.x_plain(op, Op::Cmpsw, Ghost(pos)),
            0xA8 => self.x_al_imm8(mem, op, Op::Test8, Ghost(pos)),
            0xA9 => self.x_ax_imm16(mem, op, Op::Test16, Ghost(pos)),
            0xAA => self.x_plain(op, Op::Stosb, Ghost(pos)),
            0xAB => self.x_plain_16_32(op, Op::Stosw, Op::Stosd, Ghost(pos)),
            0xAC => self.x_plain(op, Op::Lodsb, Ghost(pos)),
            0xAD => self.x_plain_16_32(op, Op::Lodsw, Op::Lodsd, Ghost(pos)),
            0xAE => self.x_plain(op, Op::Scasb, Ghost(pos)),
            0xAF => self.x_plain(op, Op::Scasw, Ghost(pos)),
            0xB0..=0xB7 => {
                // mov r8, u8
                proof { assert(b & 7 == b % 8 && b & 7 < 8) by (bit_vector); }
                let imm = self.read_u8(mem);
                proof { lemma_add16(pos, 1, 1); }
                self.x_set(op, Op::Mov8, ParameterSet { dst: Parameter::Reg8(r8(b & 7)), src: Parameter::Imm8(imm), src2: Parameter::Empty });
            },
            _ => {
                proof { assert(b & 7 == b % 8 && b & 7 < 8) by (bit_vector); }
                match op.op_size {
                    OperandSize::_16bit => {
                        // mov r16, u16
                        let imm = self.read_u16(mem);
                        proof { lemma_add16(pos, 1, 2); }
                        self.x_set(op, Op::Mov16, ParameterSet { dst: Parameter::Reg16(r16(b & 7)), src: Parameter::Imm16(imm), src2: Parameter::Empty });
                    },
                    OperandSize::_32bit => {
                        // mov r32, u32
                        let imm = self.read_u32(mem);
                        proof { lemma_add16(pos, 1, 4); }
                        self.x_set(op, Op::Mov32, ParameterSet { dst: Parameter::Reg32(r32(b & 7)), src: Parameter::Imm32(imm), src2: Parameter::Empty });
                    },
                }
            },
        }
    }

    /// Decodes a one-byte opcode in 0xC0..=0xFF.
    #[verifier::rlimit(60)]
    fn decode_c0_ff(&mut self, mem: &Memory, op: &mut Instruction, b: u8, Ghost(pos): Ghost<u16>)
        requires
            old(self).current_offset == add16(pos, 1),
            b == code_u8(mem@, old(self).current_seg, pos),
            0xC0 <= b,
            !is_prefix(b),
            body_c0_ff(mem@, old(self).current_seg, pos, pre_of(*old(op))) is Some,
        ensures
            body_done(old(self).current_seg, final(self).current_seg, final(self).current_offset,
                *old(op), *final(op), pos, body_c0_ff(mem@, old(self).current_seg, pos, pre_of(*old(op)))),
    {
        proof { reveal(body_c0_ff); }
        let ghost seg = self.current_seg;
        let ghost pre = pre_of(*op);
        match b {
            0xC0 => {
                // r8, byte imm8
                let reg = self.x_group(mem, op, Width::W8, ImmKind::U8, Ghost(pos));
                op.command = shift8_op(reg, b);
            },
            0xC1 => match op.op_size {
                OperandSize::_16bit => {
                    // r16, byte imm8
                    let reg = self.x_group(mem, op, Width::W16, ImmKind::U8, Ghost(pos));
                    op.command = shift16_op(reg, b);
                },
                OperandSize::_32bit => {
                    // r32, byte imm8
                    let reg = self.x_group(mem, op, Width::W32, ImmKind::U8, Ghost(pos));
                    op.command = match reg {
                        3 => Op::Rcr32,
                        4 => Op::Shl32,
                        5 => Op::Shr32,
                        _ => Op::Sar32,
                    };
                },
            },
            0xC2 => {
                // ret [near] imm16
                let imm = self.read_u16(mem);
                proof { lemma_add16(pos, 1, 2); }
                self.x_set(op, Op::Retn, ParameterSet { dst: Parameter::Imm16(imm), src: Parameter::Empty, src2: Parameter::Empty });
            },
            0xC3 => self.x_plain(op, Op::Retn, Ghost(pos)),  // ret [near]
            0xC4 => self.x_r_rm(mem, op, Op::Les, Width::W16, Width::W16, Ghost(pos)),  // les r16, m16
            0xC5 => self.x_r_rm(mem, op, Op::Lds, Width::W16, Width::W16, Ghost(pos)),  // lds r16, m16
            0xC6 => {
                let reg = self.x_group(mem, op, Width::W8, ImmKind::U8, Ghost(pos));
                op.command = if reg == 0 {
                    Op::Mov8  // mov r/m8, imm8
                } else {
                    Op::Invalid(bytes1(b), Invalid::Reg(reg))
                };
            },
            0xC7 => match op.op_size {
                OperandSize::_16bit => {
                    let reg = self.x_group(mem, op, Width::W16, ImmKind::U16, Ghost(pos));
                    op.command = if reg == 0 {
                        Op::Mov16  // mov r/m16, imm16
                    } else {
                        Op::Invalid(bytes1(b), Invalid::Reg(reg))
                    };
                },
                OperandSize::_32bit => {
                    let reg = self.x_group(mem, op, Width::W32, ImmKind::U32, Ghost(pos));
                    op.command = if reg == 0 {
                        Op::Mov32  // mov r/m32, imm32
                    } else {
                        Op::Invalid(bytes1(b), Invalid::Reg(reg))
                    };
                },
            },
            0xC8 => {
                // enter imm16, imm8
                let imm16 = self.read_u16(mem);
                let imm8 = self.read_u8(mem);
                proof { lemma_add16(pos, 1, 2); lemma_add16(pos, 3, 1); }
                self.x_set(op, Op::Enter, ParameterSet { dst: Parameter::Imm16(imm16), src: Parameter::Imm8(imm8), src2: Parameter::Empty });
            },
            0xC9 => self.x_plain(op, Op::Leave, Ghost(pos)),
            0xCA => {
                // ret [far] imm16
                let imm = self.read_u16(mem);
                proof { lemma_add16(pos, 1, 2); }
                self.x_set(op, Op::Retf, ParameterSet { dst: Parameter::Imm16(imm), src: Parameter::Empty, src2: Parameter::Empty });
            },
            0xCB => self.x_plain(op, Op::Retf, Ghost(pos)),
            0xCC => self.x_fixed(op, Op::Int, Parameter::Imm8(3), Ghost(pos)),
            0xCD => {
                // int imm8
                let imm = self.read_u8(mem);
                proof { lemma_add16(pos, 1, 1); }
                self.x_set(op, Op::Int, ParameterSet { dst: Parameter::Imm8(imm), src: Parameter::Empty, src2: Parameter::Empty });
            },
            0xCE => self.x_plain(op, Op::Into, Ghost(pos)),
            0xCF => self.x_plain(op, Op::Iret, Ghost(pos)),
            0xD0 => {
                // bit shift byte by 1
                let reg = self.x_group(mem, op, Width::W8, ImmKind::Fixed(Parameter::Imm8(1)), Ghost(pos));
                op.command = shift8_op(reg, b);
            },
            0xD1 => {
                // bit shift word by 1
                let reg = self.x_group(mem, op, Width::W16, ImmKind::Fixed(Parameter::Imm16(1)), Ghost(pos));
                op.command = shift16_op(reg, b);
            },
            0xD2 => {
                // bit shift byte by CL
                let reg = self.x_group(mem, op, Width::W8, ImmKind::Fixed(Parameter::Reg8(R::CL)), Ghost(pos));
                op.command = shift8_op(reg, b);
            },
            0xD3 => {
                // bit shift word by CL
                let reg = self.x_group(mem, op, Width::W16, ImmKind::Fixed(Parameter::Reg8(R::CL)), Ghost(pos));
                op.command = shift16_op(reg, b);
            },
            0xD4 | 0xD5 => {
                // aam imm8 | aad imm8
                let imm = self.read_u8(mem);
                proof { lemma_add16(pos, 1, 1); }
                let cmd = if b == 0xD4 { Op::Aam } else { Op::Aad };
                self.x_set(op, cmd, ParameterSet { dst: Parameter::Imm8(imm), src: Parameter::Empty, src2: Parameter::Empty });
            },
            0xD6 => self.x_plain(op, Op::Salc, Ghost(pos)),
            0xD7 => self.x_plain(op, Op::Xlatb, Ghost(pos)),
            0xD8..=0xDF => {
                // fpu
                self.x_set(op, Op::Invalid(bytes1(b), Invalid::FPUOp), empty_params());
            },
            0xE0 => self.x_rel8(mem, op, Op::Loopne, Ghost(pos)),
            0xE1 => self.x_rel8(mem, op, Op::Loope, Ghost(pos)),
            0xE2 => self.x_rel8(mem, op, Op::Loop, Ghost(pos)),
            0xE3 => self.x_rel8(mem, op, Op::Jcxz, Ghost(pos)),  // jcxz rel8
            0xE4 => self.x_al_imm8(mem, op, Op::In8, Ghost(pos)),  // in AL, imm8
            0xE5 | 0xE6 | 0xE7 => {
                let imm = self.read_u8(mem);
                proof { lemma_add16(pos, 1, 1); }
                match b {
                    // in AX, imm8
                    0xE5 => self.x_set(op, Op::In16, ParameterSet { dst: Parameter::Reg16(R::AX), src: Parameter::Imm8(imm), src2: Parameter::Empty }),
                    // OUT imm8, AL
                    0xE6 => self.x_set(op, Op::Out8, ParameterSet { dst: Parameter::Imm8(imm), src: Parameter::Reg8(R::AL), src2: Parameter::Empty }),
                    // OUT imm8, AX
                    _ => self.x_set(op, Op::Out16, ParameterSet { dst: Parameter::Imm8(imm), src: Parameter::Reg16(R::AX), src2: Parameter::Empty }),
                }
            },
            0xE8 => self.x_rel16(mem, op, Op::CallNear, Ghost(pos), Ghost(1)),  // call near s16
            0xE9 => self.x_rel16(mem, op, Op::JmpNear, Ghost(pos), Ghost(1)),  // jmp near rel16
            0xEA => {
                // jmp far ptr16:16
                let imm = self.read_u16(mem);
                let seg16 = self.read_u16(mem);
                proof { lemma_add16(pos, 1, 2); lemma_add16(pos, 3, 2); }
                self.x_set(op, Op::JmpFar, ParameterSet { dst: Parameter::Ptr16Imm(seg16, imm), src: Parameter::Empty, src2: Parameter::Empty });
            },
            0xEB => self.x_rel8(mem, op, Op::JmpShort, Ghost(pos)),  // jmp short rel8
            // in AL, DX
            0xEC => self.x_set(op, Op::In8, ParameterSet { dst: Parameter::Reg8(R::AL), src: Parameter::Reg16(R::DX), src2: Parameter::Empty }),
            // in AX, DX
            0xED => self.x_set(op, Op::In16, ParameterSet { dst: Parameter::Reg16(R::AX), src: Parameter::Reg16(R::DX), src2: Parameter::Empty }),
            // out DX, AL
            0xEE => self.x_set(op, Op::Out8, ParameterSet { dst: Parameter::Reg16(R::DX), src: Parameter::Reg8(R::AL), src2: Parameter::Empty }),
            // out DX, AX
            0xEF => self.x_set(op, Op::Out16, ParameterSet { dst: Parameter::Reg16(R::DX), src: Parameter::Reg16(R::AX), src2: Parameter::Empty }),
            0xF1 => self.x_fixed(op, Op::Int, Parameter::Imm8(1), Ghost(pos)),
            0xF4 => self.x_plain(op, Op::Hlt, Ghost(pos)),
            0xF5 => self.x_plain(op, Op::Cmc, Ghost(pos)),
            0xF6 => {
                // <math> r/m8
                let (dst, reg) = self.read_rm(mem, op, Width::W8);
                let ghost n = spec_rm(mem@, seg, add16(pos, 1), pre, Width::W8).1;
                proof { lemma_add16(pos, 1, n as int); }
                if reg < 2 {
                    // test r/m8, imm8
                    let imm = self.read_u8(mem);
                    proof { lemma_add16(pos, (1 + n) as int, 1); }
                    self.x_set(op, Op::Test8, ParameterSet { dst, src: Parameter::Imm8(imm), src2: Parameter::Empty });
                } else {
                    self.x_set(op, math8_op(reg), ParameterSet { dst, src: Parameter::Empty, src2: Parameter::Empty });
                }
            },
            0xF7 => match op.op_size {
                OperandSize::_16bit => {
                    // <math> r/m16
                    let (dst, reg) = self.read_rm(mem, op, Width::W16);
                    let ghost n = spec_rm(mem@, seg, add16(pos, 1), pre, Width::W16).1;
                    proof { lemma_add16(pos, 1, n as int); }
                    if reg < 2 {
                        // test r/m16, imm16
                        let imm = self.read_u16(mem);
                        proof { lemma_add16(pos, (1 + n) as int, 2); }
                        self.x_set(op, Op::Test16, ParameterSet { dst, src: Parameter::Imm16(imm), src2: Parameter::Empty });
                    } else {
                        self.x_set(op, math16_op(reg), ParameterSet { dst, src: Parameter::Empty, src2: Parameter::Empty });
                    }
                },
                OperandSize::_32bit => {
                    let reg = self.x_group(mem, op, Width::W32, ImmKind::Fixed(Parameter::Empty), Ghost(pos));
                    op.command = math32_op(reg);
                },
            },
            0xF8 => self.x_plain(op, Op::Clc, Ghost(pos)),
            0xF9 => self.x_plain(op, Op::Stc, Ghost(pos)),
            0xFA => self.x_plain(op, Op::Cli, Ghost(pos)),
            0xFB => self.x_plain(op, Op::Sti, Ghost(pos)),
            0xFC => self.x_plain(op, Op::Cld, Ghost(pos)),
            0xFD => self.x_plain(op, Op::Std, Ghost(pos)),
            0xFE => {
                // r/m8
                let reg = self.x_group(mem, op, Width::W8, ImmKind::Fixed(Parameter::Empty), Ghost(pos));
                op.command = match reg {
                    // NOTE: 2 is a deprecated but valid encoding, example:
                    // https://www.pouet.net/prod.php?which=65203
                    // 00000140  FEC5              inc ch
                    0 | 2 => Op::Inc8,
                    1 => Op::Dec8,
                    _ => Op::Invalid(bytes1(b), Invalid::Reg(reg)),
                };
            },
            _ => match op.op_size {
                OperandSize::_16bit => {
                    // r/m16
                    let reg = self.x_group(mem, op, Width::W16, ImmKind::Fixed(Parameter::Empty), Ghost(pos));
                    op.command = grp_ff16_op(reg);
                },
                OperandSize::_32bit => {
                    let reg = self.x_group(mem, op, Width::W32, ImmKind::Fixed(Parameter::Empty), Ghost(pos));
                    op.command = match reg {
                        0 => Op::Inc32,
                        1 => Op::Dec32,
                        _ => Op::Invalid(bytes1(b), Invalid::Reg(reg)),
                    };
                },
            },
        }
    }

    /// Decodes a two-byte opcode 0x0F xx whose first byte is at `pos`.
    #[verifier::rlimit(60)]
    fn decode_0f(&mut self, mem: &Memory, op: &mut Instruction, Ghost(pos): Ghost<u16>)
        requires
            old(self).current_offset == add16(pos, 1),
            code_u8(mem@, old(self).current_seg, pos) == 0x0F,
        ensures
            body_done(old(self).current_seg, final(self).current_seg, final(self).current_offset,
                *old(op), *final(op), pos, body_0f(mem@, old(self).current_seg, pos, pre_of(*old(op)))),
    {
        proof { reveal(body_0f); }
        let ghost seg = self.current_seg;
        let ghost pre = pre_of(*op);
        let b2 = self.read_u8(mem);
        proof { lemma_add16(pos, 1, 1); }
        let ghost q = add16(pos, 2);
        match b2 {
            0x00 => {
                let (dst, reg) = self.read_rm(mem, op, Width::W16);
                proof { lemma_add16(pos, 2, spec_rm(mem@, seg, q, pre, Width::W16).1 as int); }
                let cmd = if reg == 0 {
                    Op::Sldt  // sldt r/m16
                } else {
                    Op::Invalid(bytes2(0x0F, b2), Invalid::Reg(reg))
                };
                self.x_set(op, cmd, ParameterSet { dst, src: Parameter::Empty, src2: Parameter::Empty });
            },
            0x82 => self.x_rel16(mem, op, Op::Jc, Ghost(pos), Ghost(2)),  // jc rel16
            0x83 => self.x_rel16(mem, op, Op::Jnc, Ghost(pos), Ghost(2)),  // jnc rel16
            0x84 => self.x_rel16(mem, op, Op::Jz, Ghost(pos), Ghost(2)),  // jz rel16
            0x85 => self.x_rel16(mem, op, Op::Jnz, Ghost(pos), Ghost(2)),  // jnz rel16
            0x86 => self.x_rel16(mem, op, Op::Jna, Ghost(pos), Ghost(2)),  // jna rel16
            0x87 => self.x_rel16(mem, op, Op::Ja, Ghost(pos), Ghost(2)),  // ja rel16
            0x89 => self.x_rel16(mem, op, Op::Jns, Ghost(pos), Ghost(2)),  // jns rel16
            0x8C => self.x_rel16(mem, op, Op::Jl, Ghost(pos), Ghost(2)),  // jl rel16
            0x92 | 0x95 => {
                // setc r/m8 | setnz r/m8 (alias setne)
                let (dst, reg) = self.read_rm(mem, op, Width::W8);
                proof { lemma_add16(pos, 2, spec_rm(mem@, seg, q, pre, Width::W8).1 as int); }
                let cmd = if b2 == 0x92 { Op::Setc } else { Op::Setnz };
                self.x_set(op, cmd, ParameterSet { dst, src: Parameter::Empty, src2: Parameter::Empty });
            },
            // push fs
            0xA0 => self.x_set(op, Op::Push16, ParameterSet { dst: Parameter::SReg16(R::FS), src: Parameter::Empty, src2: Parameter::Empty }),
            // pop fs
            0xA1 => self.x_set(op, Op::Pop16, ParameterSet { dst: Parameter::SReg16(R::FS), src: Parameter::Empty, src2: Parameter::Empty }),
            // bt r/m16, r16
            0xA3 => self.x_rm_r_q(mem, op, Op::Bt, Width::W16, Ghost(pos), Ghost(2)),
            0xA4 | 0xAC => {
                // shld r/m16, r16, imm8 | shrd r/m16, r16, imm8
                let cmd = if b2 == 0xA4 { Op::Shld } else { Op::Shrd };
                self.x_rm_r_q(mem, op, cmd, Width::W16, Ghost(pos), Ghost(2));
                let imm = self.read_u8(mem);
                proof { lemma_add16(pos, (2 + spec_rm_r(mem@, seg, q, pre, Width::W16).1) as int, 1); }
                op.params = ParameterSet { src2: Parameter::Imm8(imm), ..op.params };
            },
            // push gs
            0xA8 => self.x_set(op, Op::Push16, ParameterSet { dst: Parameter::SReg16(R::GS), src: Parameter::Empty, src2: Parameter::Empty }),
            // pop gs
            0xA9 => self.x_set(op, Op::Pop16, ParameterSet { dst: Parameter::SReg16(R::GS), src: Parameter::Empty, src2: Parameter::Empty }),
            0xAF => match op.op_size {
                // imul r16, r/m16
                OperandSize::_16bit => self.x_r_rm_q(mem, op, Op::Imul16, Width::W16, Width::W16, Ghost(pos), Ghost(2)),
                // imul r32, r/m32
                OperandSize::_32bit => self.x_r_rm_q(mem, op, Op::Imul32, Width::W32, Width::W32, Ghost(pos), Ghost(2)),
            },
            0xB6 => match op.op_size {
                // movzx r16, r/m8
                OperandSize::_16bit => self.x_r_rm_q(mem, op, Op::Movzx16, Width::W16, Width::W8, Ghost(pos), Ghost(2)),
                // movzx r32, r/m8
                OperandSize::_32bit => self.x_r_rm_q(mem, op, Op::Movzx32, Width::W32, Width::W8, Ghost(pos), Ghost(2)),
            },
            0xBA => {
                // bts r/m16, imm8
                let (dst, reg) = self.read_rm(mem, op, Width::W16);
                let ghost n = spec_rm(mem@, seg, q, pre, Width::W16).1;
                proof { lemma_add16(pos, 2, n as int); }
                let imm = self.read_u8(mem);
                proof { lemma_add16(pos, (2 + n) as int, 1); }
                self.x_set(op, Op::Bts, ParameterSet { dst, src: Parameter::Imm8(imm), src2: Parameter::Empty });
            },
            // bsf r16, r/m16
            0xBC => self.x_r_rm_q(mem, op, Op::Bsf, Width::W16, Width::W16, Ghost(pos), Ghost(2)),
            0xBE => match op.op_size {
                // movsx r16, r/m8
                OperandSize::_16bit => self.x_r_rm_q(mem, op, Op::Movsx16, Width::W16, Width::W8, Ghost(pos), Ghost(2)),
                // movsx r32, r/m8
                OperandSize::_32bit => self.x_r_rm_q(mem, op, Op::Movsx32, Width::W32, Width::W8, Ghost(pos), Ghost(2)),
            },
            0xBF => match op.op_size {
                OperandSize::_16bit => self.x_set(op, Op::Invalid(bytes2(0x0F, b2), Invalid::Op), empty_params()),
                // movsx r32, r/m16
                OperandSize::_32bit => self.x_r_rm_q(mem, op, Op::Movsx32, Width::W32, Width::W16, Ghost(pos), Ghost(2)),
            },
            _ => self.x_set(op, Op::Invalid(bytes2(0x0F, b2), Invalid::Op), empty_params()),
        }
    }
}


/// The instruction at `seg:off` with its location and the bytes it takes
/// (its length modulo 256).
pub open spec fn info_at(info: InstructionInfo, mem: Seq<u8>, seg: u16, off: u16) -> bool {
    let (iv, n) = decode_at(mem, seg, off).unwrap();
    &&& info.segment == seg
    &&& info.offset == off
    &&& info.instruction@ == iv
    &&& info.bytes@ == segment_bytes(mem, seg, off, n % 256)
}

/// The offsets of `n` instructions decoded one after another from
/// `seg:(off + delta)` on; `None` where one has no decoding or an offset
/// passes the end of the segment.
pub open spec fn block_at(mem: Seq<u8>, seg: u16, off: u16, delta: nat, n: nat) -> Option<Seq<nat>>
    decreases n,
{
    if n == 0 {
        Some(seq![])
    } else if off + delta > 65535 {
        None
    } else {
        match decode_at(mem, seg, (off + delta) as u16) {
            None => None,
            Some((_, len)) => {
                let l = len % 256;
                if delta + l > 65535 {
                    None
                } else {
                    match block_at(mem, seg, off, delta + l, (n - 1) as nat) {
                        Some(rest) => Some(seq![(off + delta) as nat] + rest),
                        None => None,
                    }
                }
            },
        }
    }
}

/// The listing lines of the instructions at the offsets `offs`.
pub open spec fn block_lines(mem: Seq<u8>, seg: u16, offs: Seq<nat>) -> Seq<Seq<char>> {
    offs.map_values(
        |o: nat|
            {
                let (iv, n) = decode_at(mem, seg, o as u16).unwrap();
                info_text(seg as nat, o, segment_bytes(mem, seg, o as u16, n % 256), iv)
            },
    )
}

/// The lines of decoded instructions are the listing lines of their offsets.
proof fn lemma_listing_lines(ops: Seq<InstructionInfo>, mem: Seq<u8>, seg: u16, offs: Seq<nat>)
    requires
        ops.len() == offs.len(),
        forall|k: int| 0 <= k < offs.len() ==> #[trigger] offs[k] <= 65535,
        forall|k: int| 0 <= k < offs.len() ==> #[trigger] info_at(ops[k], mem, seg, offs[k] as u16),
    ensures
        ops.map_values(
            |op: InstructionInfo| info_text(op.segment as nat, op.offset as nat, op.bytes@, op.instruction@),
        ) == block_lines(mem, seg, offs),
{
    let a = ops.map_values(
        |op: InstructionInfo| info_text(op.segment as nat, op.offset as nat, op.bytes@, op.instruction@),
    );
    let b = block_lines(mem, seg, offs);
    assert forall|k: int| 0 <= k < offs.len() implies a[k] == b[k] by {
        assert(info_at(ops[k], mem, seg, offs[k] as u16));
        assert(offs[k] <= 65535);
    }
    assert(a =~= b);
}

/// A block of `n` instructions has `n` offsets, each within the segment.
proof fn lemma_block_len(mem: Seq<u8>, seg: u16, off: u16, delta: nat, n: nat)
    requires
        block_at(mem, seg, off, delta, n) is Some,
    ensures
        block_at(mem, seg, off, delta, n).unwrap().len() == n,
        forall|k: int| 0 <= k < n ==> #[trigger] block_at(mem, seg, off, delta, n).unwrap()[k] <= 65535,
    decreases n,
{
    if n > 0 {
        let l = decode_at(mem, seg, (off + delta) as u16).unwrap().1 % 256;
        lemma_block_len(mem, seg, off, delta + l, (n - 1) as nat);
    }
}

/// `(l + 1) % 256` for a byte.
fn wrapping_inc(l: u8) -> (r: u8)
    ensures
        r == (l + 1) % 256,
{
    if l == 255 {
        0
    } else {
        l + 1
    }
}

/// Two offsets `1` and `n` bytes after `pos` lie `n - 1` bytes apart, modulo
/// the segment size.
proof fn lemma_add16_gap(pos: u16, n: int)
    requires
        1 <= n <= 12,
    ensures
        add16(pos, n) >= add16(pos, 1) ==> add16(pos, n) - add16(pos, 1) == n - 1,
        add16(pos, n) < add16(pos, 1) ==> add16(pos, n) + 65536 - add16(pos, 1) == n - 1,
{
}

/// A decoded body is at least 1 and at most 12 bytes long.
proof fn lemma_body_len(mem: Seq<u8>, seg: u16, pos: u16, pre: Prefixes)
    requires
        spec_body(mem, seg, pos, pre) is Some,
    ensures
        1 <= spec_body(mem, seg, pos, pre).unwrap().len <= 12,
{
    reveal(spec_body);
    reveal(body_00_3f);
    reveal(body_40_7f);
    reveal(body_80_bf);
    reveal(body_c0_ff);
    reveal(body_0f);
    let b = code_u8(mem, seg, pos);
    if b == 0x0F {
        assert(body_0f(mem, seg, pos, pre).unwrap().len <= 12);
    }
}

/// Whether the decoder has a result for the opcode byte `b` (no prefix)
/// whose ModR/M byte has the reg field `reg`: a move from or to a segment
/// register names one of the six, and a 32-bit 0xC1 shift is one of the
/// four the decoder knows.
pub open spec fn body_defined(b: u8, reg: u8, op_size: OperandSize) -> bool {
    &&& !((b == 0x8C || b == 0x8E) && reg >= 6)
    &&& !(b == 0xC1 && op_size is _32bit && shift32(reg) is None)
}

/// The decoder has a result for an opcode byte exactly where `body_defined`
/// holds.
proof fn lemma_body_defined(mem: Seq<u8>, seg: u16, pos: u16, pre: Prefixes)
    ensures
        spec_body(mem, seg, pos, pre) is Some <==> body_defined(
            code_u8(mem, seg, pos),
            reg_after(mem, seg, pos),
            pre.op_size,
        ),
{
    reveal(spec_body);
    reveal(body_00_3f);
    reveal(body_40_7f);
    reveal(body_80_bf);
    reveal(body_c0_ff);
    reveal(body_0f);
}

/// A short conditional jump (opcodes 0x70 to 0x7F) decodes to its
/// condition with the target as an immediate word: the offset after the two
/// bytes plus the signed displacement, within the segment.
pub proof fn lemma_decode_short_jump(mem: Seq<u8>, seg: u16, off: u16)
    requires
        0x70 <= code_u8(mem, seg, off) <= 0x7F,
    ensures
        decode_at(mem, seg, off) == Some((
            InstructionView {
                command: OpView::Valid(jcc((code_u8(mem, seg, off) - 0x70) as u8)),
                params: p1(Parameter::Imm16(rel_target(add16(off, 2), code_u8(mem, seg, add16(off, 1)) as i8 as int))),
                segment_prefix: Segment::Default,
                repeat: RepeatMode::NoRepeat,
                lock: false,
                op_size: OperandSize::_16bit,
                address_size: AddressSize::_16bit,
            },
            2nat,
        )),
{
    reveal(spec_body);
    reveal(body_40_7f);
}

/// Whether the instruction at `seg:offset` decodes, as `decode_at` has it.
pub fn decodable(mem: &Memory, seg: u16, offset: u16) -> (b: bool)
    ensures
        b == decode_at(mem@, seg, offset) is Some,
{
    let mut pos: u16 = offset;
    let mut op = Instruction::new(Op::Uninitialized);
    let mut fuel: u32 = 65536;
    assert(pre_of(op) == initial_prefixes());
    loop
        invariant
            fuel <= 65536,
            (decode_at(mem@, seg, offset) is Some) == (spec_decode(mem@, seg, pos, pre_of(op), fuel as nat) is Some),
        decreases fuel,
    {
        let b = mem.read_u8(seg, pos);
        let next: u16 = if pos == 0xFFFF { 0 } else { pos + 1 };
        assert(next == add16(pos, 1));
        if b == 0x26 || b == 0x2E || b == 0x36 || b == 0x3E || b == 0x64 || b == 0x65
            || b == 0x66 || b == 0x67 || b == 0xF0 || b == 0xF2 || b == 0xF3 {
            if fuel == 0 {
                return false;
            }
            if b != 0xF3 {
                Decoder::set_prefix(&mut op, b);
            }
            pos = next;
            fuel = fuel - 1;
        } else {
            let m = mem.read_u8(seg, next);
            let reg = (m / 8) % 8;
            proof {
                lemma_body_defined(mem@, seg, pos, pre_of(op));
            }
            let c1_known = reg == 3 || reg == 4 || reg == 5 || reg == 7;
            return !((b == 0x8C || b == 0x8E) && reg >= 6)
                && !(b == 0xC1 && op.op_size == OperandSize::_32bit && !c1_known);
        }
    }
}

impl Decoder {
    /// Records the prefix byte `b` (any prefix but 0xF3) in `op`.
    fn set_prefix(op: &mut Instruction, b: u8)
        requires
            is_prefix(b),
            b != 0xF3,
        ensures
            pre_of(*final(op)) == apply_prefix(pre_of(*old(op)), b),
            final(op).command == old(op).command,
            final(op).params == old(op).params,
    {
        match b {
            // segment prefixes
            0x26 => op.segment_prefix = Segment::ES,
            0x2E => op.segment_prefix = Segment::CS,
            0x36 => op.segment_prefix = Segment::SS,
            0x3E => op.segment_prefix = Segment::DS,
            0x64 => op.segment_prefix = Segment::FS,
            0x65 => op.segment_prefix = Segment::GS,
            // 80386+ Operand-size override prefix
            0x66 => op.op_size = OperandSize::_32bit,
            // 80386+ Address-size override prefix
            0x67 => op.address_size = AddressSize::_32bit,
            // lock prefix
            0xF0 => op.lock = true,
            // repne (cmps, scas) prefix
            _ => op.repeat = RepeatMode::Repne,
        }
    }

    /// Applies a REP prefix (0xF3) to the instruction decoded after it.
    fn apply_rep(op: &mut Instruction)
        ensures
            final(op)@ == rep_fixup(old(op)@),
    {
        match op.command {
            Op::Insb | Op::Insw | Op::Outsb | Op::Outsw | Op::Movsb | Op::Movsw | Op::Movsd
            | Op::Stosb | Op::Stosw | Op::Stosd | Op::Lodsb | Op::Lodsw | Op::Lodsd => {
                op.repeat = RepeatMode::Rep;
            },
            Op::Cmpsb | Op::Cmpsw | Op::Scasb | Op::Scasw => {
                op.repeat = RepeatMode::Repe;
            },
            _ => op.command = Op::Invalid(bytes1(0xF3), Invalid::Op),
        }
    }

    /// Decodes the opcode byte `b`, read at `pos`, and its operands; returns
    /// the length of the body.
    fn decode_body(&mut self, mem: &Memory, op: &mut Instruction, b: u8, Ghost(pos): Ghost<u16>) -> (len: u8)
        requires
            old(self).current_offset == add16(pos, 1),
            b == code_u8(mem@, old(self).current_seg, pos),
            !is_prefix(b),
            spec_body(mem@, old(self).current_seg, pos, pre_of(*old(op))) is Some,
        ensures
            body_done(old(self).current_seg, final(self).current_seg, final(self).current_offset,
                *old(op), *final(op), pos, spec_body(mem@, old(self).current_seg, pos, pre_of(*old(op)))),
            len == spec_body(mem@, old(self).current_seg, pos, pre_of(*old(op))).unwrap().len,
    {
        let ghost seg = self.current_seg;
        let ghost pre = pre_of(*op);
        let ghost body = spec_body(mem@, seg, pos, pre);
        let start_offset = self.current_offset;
        if b < 0x40 {
            assert(body == body_00_3f(mem@, seg, pos, pre)) by { reveal(spec_body); }
            self.decode_00_3f(mem, op, b, Ghost(pos));
        } else if b < 0x80 {
            assert(body == body_40_7f(mem@, seg, pos, pre)) by { reveal(spec_body); }
            self.decode_40_7f(mem, op, b, Ghost(pos));
        } else if b < 0xC0 {
            assert(body == body_80_bf(mem@, seg, pos, pre)) by { reveal(spec_body); }
            self.decode_80_bf(mem, op, b, Ghost(pos));
        } else {
            assert(body == body_c0_ff(mem@, seg, pos, pre)) by { reveal(spec_body); }
            self.decode_c0_ff(mem, op, b, Ghost(pos));
        }
        proof { lemma_body_len(mem@, seg, pos, pre); }
        // calculate instruction length: the opcode byte and what followed it
        let end_offset = self.current_offset;
        let d: u16 = if end_offset >= start_offset {
            end_offset - start_offset
        } else {
            ((end_offset as u32) + 65536 - (start_offset as u32)) as u16
        };
        proof { lemma_add16_gap(pos, body.unwrap().len as int); }
        (d + 1) as u8
    }

    /// Decodes the instruction at the current offset into `op`, which holds
    /// the prefixes seen so far; returns its length in bytes, modulo 256.
    #[verifier::spinoff_prover]
    #[verifier::rlimit(40)]
    fn decode(&mut self, mem: &Memory, op: &mut Instruction, Ghost(fuel): Ghost<nat>) -> (len: u8)
        requires
            spec_decode(mem@, old(self).current_seg, old(self).current_offset, pre_of(*old(op)), fuel) is Some,
        ensures
            ({
                let (iv, n) = spec_decode(mem@, old(self).current_seg, old(self).current_offset, pre_of(*old(op)), fuel).unwrap();
                &&& final(op)@ == iv
                &&& len == n % 256
                &&& final(self).current_offset == add16(old(self).current_offset, n as int)
            }),
            final(self).current_seg == old(self).current_seg,
        decreases fuel,
    {
        let ghost pos = self.current_offset;
        let ghost seg = self.current_seg;
        let ghost pre = pre_of(*op);
        let b = self.read_u8(mem);
        if b == 0xF3 {
            // rep (ins, movs, outs, lods, stos), repe (cmps, scas) prefix
            let l = self.decode(mem, op, Ghost((fuel - 1) as nat));
            proof {
                let n = spec_decode(mem@, seg, add16(pos, 1), pre, (fuel - 1) as nat).unwrap().1;
                lemma_add16(pos, 1, n as int);
            }
            Self::apply_rep(op);
            wrapping_inc(l)
        } else if b == 0x26 || b == 0x2E || b == 0x36 || b == 0x3E || b == 0x64 || b == 0x65
            || b == 0x66 || b == 0x67 || b == 0xF0 || b == 0xF2 {
            Self::set_prefix(op, b);
            let l = self.decode(mem, op, Ghost((fuel - 1) as nat));
            proof {
                let n = spec_decode(mem@, seg, add16(pos, 1), apply_prefix(pre, b), (fuel - 1) as nat).unwrap().1;
                lemma_add16(pos, 1, n as int);
            }
            wrapping_inc(l)
        } else {
            self.decode_body(mem, op, b, Ghost(pos))
        }
    }

    /// Decodes the instruction at `iseg:ioffset` with its location and bytes.
    pub fn get_instruction_info(&mut self, mem: &Memory, iseg: u16, ioffset: u16) -> (r: InstructionInfo)
        requires
            decode_at(mem@, iseg, ioffset) is Some,
        ensures
            info_at(r, mem@, iseg, ioffset),
    {
        self.current_seg = iseg;
        self.current_offset = ioffset;
        let mut instr = Instruction::new(Op::Uninitialized);
        let length = self.decode(mem, &mut instr, Ghost(65536));
        InstructionInfo {
            segment: iseg as usize,
            offset: ioffset as usize,
            bytes: mem.read(iseg, ioffset, length as usize),
            instruction: instr,
        }
    }

    /// Decodes the instruction at `iseg:ioffset` with its location and
    /// bytes, where the decoder has a result for it; `None` where it has none.
    pub fn get_instruction_info_checked(&mut self, mem: &Memory, iseg: u16, ioffset: u16) -> (r: Option<InstructionInfo>)
        ensures
            r is Some <==> decode_at(mem@, iseg, ioffset) is Some,
            r matches Some(info) ==> info_at(info, mem@, iseg, ioffset),
    {
        if decodable(mem, iseg, ioffset) {
            Some(self.get_instruction_info(mem, iseg, ioffset))
        } else {
            None
        }
    }

    /// Decodes `n` instructions one after another from `seg:offset` on.
    pub fn decode_to_block(&mut self, mem: &Memory, seg: u16, offset: u16, n: usize) -> (r: Vec<InstructionInfo>)
        requires
            block_at(mem@, seg, offset, 0, n as nat) is Some,
        ensures
            r@.len() == n,
            forall|k: int| 0 <= k < n ==> #[trigger] info_at(
                r@[k],
                mem@,
                seg,
                block_at(mem@, seg, offset, 0, n as nat).unwrap()[k] as u16,
            ),
    {
        let ghost all = block_at(mem@, seg, offset, 0, n as nat).unwrap();
        proof {
            lemma_block_len(mem@, seg, offset, 0, n as nat);
            assert(all.subrange(0, n as int) =~= all);
        }
        let mut ops: Vec<InstructionInfo> = Vec::new();
        let mut inst_offset: u16 = 0;
        let mut k: usize = 0;
        while k < n
            invariant
                k <= n,
                ops@.len() == k,
                block_at(mem@, seg, offset, inst_offset as nat, (n - k) as nat) is Some,
                block_at(mem@, seg, offset, inst_offset as nat, (n - k) as nat).unwrap() =~= all.subrange(
                    k as int,
                    n as int,
                ),
                all.len() == n,
                all == block_at(mem@, seg, offset, 0, n as nat).unwrap(),
                forall|j: int| 0 <= j < k ==> #[trigger] info_at(ops@[j], mem@, seg, all[j] as u16),
            decreases n - k,
        {
            let ghost rest = block_at(mem@, seg, offset, inst_offset as nat, (n - k) as nat).unwrap();
            let op = self.get_instruction_info(mem, seg, offset + inst_offset);
            proof {
                let l = decode_at(mem@, seg, (offset + inst_offset) as u16).unwrap().1 % 256;
                assert(rest.drop_first() =~= block_at(mem@, seg, offset, (inst_offset + l) as nat, (n - k - 1) as nat).unwrap());
                assert(all[k as int] == rest[0]);
            }
            inst_offset = inst_offset + op.bytes.len() as u16;
            ops.push(op);
            k = k + 1;
        }
        ops
    }

    /// The listing of `n` instructions decoded one after another from
    /// `seg:offset` on.
    pub fn disassemble_block_to_str(&mut self, mem: &Memory, seg: u16, offset: u16, n: usize) -> (r: String)
        requires
            block_at(mem@, seg, offset, 0, n as nat) is Some,
        ensures
            r@ == join_lines(block_lines(mem@, seg, block_at(mem@, seg, offset, 0, n as nat).unwrap())),
    {
        let ops = self.decode_to_block(mem, seg, offset, n);
        let r = instruction_info_to_str(ops.as_slice());
        proof {
            let offs = block_at(mem@, seg, offset, 0, n as nat).unwrap();
            lemma_block_len(mem@, seg, offset, 0, n as nat);
            lemma_listing_lines(ops@, mem@, seg, offs);
        }
        r
    }

    /// decodes op at segment:offset into a Instruction
    pub fn get_instruction(&mut self, mem: &Memory, segment: u16, offset: u16) -> (r: Instruction)
        requires
            decode_at(mem@, segment, offset) is Some,
        ensures
            r@ == decode_at(mem@, segment, offset).unwrap().0,
    {
        self.current_seg = segment;
        self.current_offset = offset;
        let mut op = Instruction::new(Op::Uninitialized);
        let _ = self.decode(mem, &mut op, Ghost(65536));
        op
    }
}

} // verus!
