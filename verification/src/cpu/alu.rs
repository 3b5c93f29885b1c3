use vstd::prelude::*;

use crate::cpu::flag::{even_parity, Flags};
use crate::cpu::interpreter::{
    flags_sub16, flags_sub32, flags_sub8, read_value, readable, writable16, writable32,
    writable8, write16, write32, write8, State, CPU,
};
use crate::cpu::op::Op;
use crate::cpu::parameter::{Parameter, ParameterSet};
use crate::cpu::register::RegsView;
use crate::cpu::segment::Segment;
use crate::memory::Memory;

verus! {

/// Sign, zero and parity of an 8-bit result.
pub open spec fn szp8(f: Flags, res: usize) -> Flags {
    Flags { sign: res & 0x80 != 0, zero: res & 0xFF == 0, parity: even_parity(res as u64), ..f }
}

/// Sign, zero and parity of a 16-bit result.
pub open spec fn szp16(f: Flags, res: usize) -> Flags {
    Flags { sign: res & 0x8000 != 0, zero: res & 0xFFFF == 0, parity: even_parity(res as u64), ..f }
}

/// Sign, zero and parity of a 32-bit result.
pub open spec fn szp32(f: Flags, res: usize) -> Flags {
    Flags {
        sign: (res as u64) & 0x8000_0000 != 0,
        zero: (res as u64) & 0xFFFF_FFFF == 0,
        parity: even_parity(res as u64),
        ..f
    }
}

/// The flags of an 8-bit addition `a + b` with result `res`.
pub open spec fn flags_add8(f: Flags, res: usize, a: usize, b: usize) -> Flags {
    Flags {
        carry: res & 0x100 != 0,
        overflow: (res ^ a) & (res ^ b) & 0x80 != 0,
        adjust: (res ^ (a ^ b)) & 0x10 != 0,
        ..szp8(f, res)
    }
}

/// The flags of a 16-bit addition `a + b` with result `res`.
pub open spec fn flags_add16(f: Flags, res: usize, a: usize, b: usize) -> Flags {
    Flags {
        carry: res & 0x1_0000 != 0,
        overflow: (res ^ a) & (res ^ b) & 0x8000 != 0,
        adjust: (res ^ (a ^ b)) & 0x10 != 0,
        ..szp16(f, res)
    }
}

/// The flags of a 32-bit addition `a + b` with result `res`.
pub open spec fn flags_add32(f: Flags, res: usize, a: usize, b: usize) -> Flags {
    Flags {
        carry: (res as u64) & 0x1_0000_0000 != 0,
        overflow: ((res ^ a) & (res ^ b)) as u64 & 0x8000_0000 != 0,
        adjust: (res ^ (a ^ b)) & 0x10 != 0,
        ..szp32(f, res)
    }
}

/// The flags of an 8-bit subtraction `dst - src` with result `res`.
pub open spec fn flags_sub_res8(f: Flags, dst: usize, src: usize, res: usize) -> Flags {
    Flags {
        carry: res & 0x100 != 0,
        overflow: (dst ^ src) & (dst ^ res) & 0x80 != 0,
        adjust: (res ^ (src ^ dst)) & 0x10 != 0,
        ..szp8(f, res)
    }
}

/// The flags of a 16-bit subtraction `dst - src` with result `res`.
pub open spec fn flags_sub_res16(f: Flags, dst: usize, src: usize, res: usize) -> Flags {
    Flags {
        carry: res & 0x1_0000 != 0,
        overflow: (dst ^ src) & (dst ^ res) & 0x8000 != 0,
        adjust: (res ^ (src ^ dst)) & 0x10 != 0,
        ..szp16(f, res)
    }
}

/// The flags of a logic operation: carry and overflow clear.
pub open spec fn flags_logic8(f: Flags, res: usize) -> Flags {
    Flags { carry: false, overflow: false, ..szp8(f, res) }
}

pub open spec fn flags_logic16(f: Flags, res: usize) -> Flags {
    Flags { carry: false, overflow: false, ..szp16(f, res) }
}

pub open spec fn flags_logic32(f: Flags, res: usize) -> Flags {
    Flags { carry: false, overflow: false, ..szp32(f, res) }
}

/// The state with other flags.
pub open spec fn with_flags(st: State, f: Flags) -> State {
    State { regs: RegsView { flags: f, ..st.regs }, ..st }
}

/// The 8-bit two-operand arithmetic and logic operations.
pub open spec fn is_binop8(op: Op) -> bool {
    op is Add8 || op is Adc8 || op is Sub8 || op is Sbb8 || op is And8 || op is Or8 || op is Xor8
        || op is Cmp8 || op is Test8
}

/// The 16-bit two-operand arithmetic and logic operations.
pub open spec fn is_binop16(op: Op) -> bool {
    op is Add16 || op is Adc16 || op is Sub16 || op is Sbb16 || op is And16 || op is Or16
        || op is Xor16 || op is Cmp16 || op is Test16
}

/// The 32-bit two-operand operations.
pub open spec fn is_binop32(op: Op) -> bool {
    op is Add32 || op is Sub32 || op is Xor32 || op is Cmp32
}

/// The operations that only set flags and write no result.
pub open spec fn flags_only(op: Op) -> bool {
    op is Cmp8 || op is Test8 || op is Cmp16 || op is Test16 || op is Cmp32
}

/// The carry flag as a number.
pub open spec fn carry_in(f: Flags) -> usize {
    if f.carry { 1 } else { 0 }
}

/// The flags and the unwrapped result of an 8-bit two-operand operation on
/// `dst` and `src`.
pub open spec fn alu8(op: Op, f: Flags, dst: usize, src: usize) -> (Flags, usize) {
    let cf = carry_in(f);
    match op {
        Op::Add8 => {
            let (s8, d8) = (src as u8, dst as u8);
            let res = (s8 as usize + d8 as usize) as usize;
            (flags_add8(f, res, s8 as usize, d8 as usize), res)
        },
        Op::Adc8 => {
            let res = dst.wrapping_add(src).wrapping_add(cf);
            (flags_add8(f, res, src.wrapping_add(cf), dst), res)
        },
        Op::Sub8 => {
            let res = dst.wrapping_sub(src);
            (flags_sub_res8(f, dst, src, res), res)
        },
        Op::Sbb8 => {
            let res = dst.wrapping_sub(src.wrapping_add(cf));
            (flags_sub_res8(f, dst, src, res), res)
        },
        Op::And8 => (flags_logic8(f, dst & src), dst & src),
        Op::Or8 => (flags_logic8(f, dst | src), dst | src),
        Op::Xor8 => (flags_logic8(f, dst ^ src), dst ^ src),
        Op::Cmp8 => (flags_sub8(f, dst, src), dst.wrapping_sub(src)),
        _ => (szp8(f, dst & src), dst & src),
    }
}

/// The flags and the unwrapped result of a 16-bit two-operand operation.
pub open spec fn alu16(op: Op, f: Flags, dst: usize, src: usize) -> (Flags, usize) {
    let cf = carry_in(f);
    match op {
        Op::Add16 => {
            let (s16, d16) = (src as u16, dst as u16);
            let res = (s16 as usize + d16 as usize) as usize;
            (flags_add16(f, res, s16 as usize, d16 as usize), res)
        },
        Op::Adc16 => {
            let res = dst.wrapping_add(src).wrapping_add(cf);
            (flags_add16(f, res, src.wrapping_add(cf), dst), res)
        },
        Op::Sub16 => {
            let res = dst.wrapping_sub(src);
            (flags_sub_res16(f, dst, src, res), res)
        },
        Op::Sbb16 => {
            let res = dst.wrapping_sub(src.wrapping_add(cf));
            (flags_sub_res16(f, dst, src, res), res)
        },
        Op::And16 => (flags_logic16(f, dst & src), dst & src),
        Op::Or16 => (flags_logic16(f, dst | src), dst | src),
        Op::Xor16 => (flags_logic16(f, dst ^ src), dst ^ src),
        Op::Cmp16 => (flags_sub16(f, dst, src), dst.wrapping_sub(src)),
        _ => (szp16(f, dst & src), dst & src),
    }
}

/// The flags and the unwrapped result of a 32-bit two-operand operation.
pub open spec fn alu32(op: Op, f: Flags, dst: usize, src: usize) -> (Flags, usize) {
    match op {
        Op::Add32 => {
            let (s32, d32) = (src as u32, dst as u32);
            let res = (s32 as usize).wrapping_add(d32 as usize);
            (flags_add32(f, res, s32 as usize, d32 as usize), res)
        },
        Op::Sub32 => (flags_sub32(f, dst, src), dst.wrapping_sub(src)),
        Op::Xor32 => (flags_logic32(f, dst ^ src), dst ^ src),
        _ => (flags_sub32(f, dst, src), dst.wrapping_sub(src)),
    }
}

/// The state after an 8-bit two-operand operation: the flags it computes,
/// and its result written to the destination unless it only compares.
pub open spec fn binop8(st: State, op: Op, ps: ParameterSet) -> State {
    let (f, res) = alu8(
        op,
        st.regs.flags,
        read_value(st.regs, st.mem, ps.dst),
        read_value(st.regs, st.mem, ps.src),
    );
    if flags_only(op) {
        with_flags(st, f)
    } else {
        write8(with_flags(st, f), ps.dst, res as u8)
    }
}

/// The state after a 16-bit two-operand operation; a memory destination is
/// written under the segment override `seg`.
pub open spec fn binop16(st: State, op: Op, ps: ParameterSet, seg: Segment) -> State {
    let (f, res) = alu16(
        op,
        st.regs.flags,
        read_value(st.regs, st.mem, ps.dst),
        read_value(st.regs, st.mem, ps.src),
    );
    if flags_only(op) {
        with_flags(st, f)
    } else {
        write16(with_flags(st, f), seg, ps.dst, res as u16)
    }
}

/// The state after a 32-bit two-operand operation.
pub open spec fn binop32(st: State, op: Op, ps: ParameterSet) -> State {
    let (f, res) = alu32(
        op,
        st.regs.flags,
        read_value(st.regs, st.mem, ps.dst),
        read_value(st.regs, st.mem, ps.src),
    );
    if flags_only(op) {
        with_flags(st, f)
    } else {
        write32(with_flags(st, f), ps.dst, res as u32)
    }
}

/// The operands of a two-operand operation can be read, and the destination
/// written where the operation writes it.
pub open spec fn binop_defined(op: Op, ps: ParameterSet) -> bool {
    &&& readable(ps.src)
    &&& readable(ps.dst)
    &&& (is_binop8(op) && !flags_only(op) ==> writable8(ps.dst))
    &&& (is_binop16(op) && !flags_only(op) ==> writable16(ps.dst))
    &&& (is_binop32(op) && !flags_only(op) ==> writable32(ps.dst))
}

fn szp8_exec(f: Flags, res: usize) -> (r: Flags)
    ensures
        r == szp8(f, res),
{
    let mut f = f;
    f.set_sign_u8(res);
    f.set_zero_u8(res);
    f.set_parity(res);
    f
}

fn szp16_exec(f: Flags, res: usize) -> (r: Flags)
    ensures
        r == szp16(f, res),
{
    let mut f = f;
    f.set_sign_u16(res);
    f.set_zero_u16(res);
    f.set_parity(res);
    f
}

fn szp32_exec(f: Flags, res: usize) -> (r: Flags)
    ensures
        r == szp32(f, res),
{
    let mut f = f;
    f.set_sign_u32(res);
    f.set_zero_u32(res);
    f.set_parity(res);
    f
}

/// The OF, SF, ZF, AF, CF, and PF flags of an addition.
fn add_flags8(f: Flags, res: usize, a: usize, b: usize) -> (r: Flags)
    ensures
        r == flags_add8(f, res, a, b),
{
    let mut f = szp8_exec(f, res);
    f.set_carry_u8(res);
    f.set_adjust(res, a, b);
    f.set_overflow_add_u8(res, a, b);
    f
}

fn add_flags16(f: Flags, res: usize, a: usize, b: usize) -> (r: Flags)
    ensures
        r == flags_add16(f, res, a, b),
{
    let mut f = szp16_exec(f, res);
    f.set_carry_u16(res);
    f.set_adjust(res, a, b);
    f.set_overflow_add_u16(res, a, b);
    f
}

fn add_flags32(f: Flags, res: usize, a: usize, b: usize) -> (r: Flags)
    ensures
        r == flags_add32(f, res, a, b),
{
    let mut f = szp32_exec(f, res);
    f.set_carry_u32(res);
    f.set_adjust(res, a, b);
    f.set_overflow_add_u32(res, a, b);
    f
}

/// The OF, SF, ZF, AF, PF, and CF flags of a subtraction.
fn sub_flags8(f: Flags, dst: usize, src: usize, res: usize) -> (r: Flags)
    ensures
        r == flags_sub_res8(f, dst, src, res),
{
    let mut f = szp8_exec(f, res);
    f.set_overflow_sub_u8(res, src, dst);
    f.set_adjust(res, src, dst);
    f.set_carry_u8(res);
    f
}

fn sub_flags16(f: Flags, dst: usize, src: usize, res: usize) -> (r: Flags)
    ensures
        r == flags_sub_res16(f, dst, src, res),
{
    let mut f = szp16_exec(f, res);
    f.set_overflow_sub_u16(res, src, dst);
    f.set_adjust(res, src, dst);
    f.set_carry_u16(res);
    f
}

fn sub_flags32(f: Flags, dst: usize, src: usize) -> (r: Flags)
    ensures
        r == flags_sub32(f, dst, src),
{
    let res = dst.wrapping_sub(src);
    let mut f = szp32_exec(f, res);
    f.set_overflow_sub_u32(res, src, dst);
    f.set_adjust(res, src, dst);
    f.set_carry_u32(res);
    f
}

/// The OF and CF flags are cleared; the SF, ZF, and PF flags are set
/// according to the result.
fn logic_flags(f: Flags) -> (r: Flags)
    ensures
        r == (Flags { overflow: false, carry: false, ..f }),
{
    let mut f = f;
    f.overflow = false;
    f.carry = false;
    f
}

fn alu8_exec(op: &Op, f: Flags, dst: usize, src: usize) -> (r: (Flags, usize))
    requires
        is_binop8(*op),
    ensures
        r == alu8(*op, f, dst, src),
{
    let cf: usize = if f.carry { 1 } else { 0 };
    match *op {
        Op::Add8 => {
            let (s8, d8) = (src as u8, dst as u8);
            let res = s8 as usize + d8 as usize;
            (add_flags8(f, res, s8 as usize, d8 as usize), res)
        },
        Op::Adc8 => {
            let res = dst.wrapping_add(src).wrapping_add(cf);
            (add_flags8(f, res, src.wrapping_add(cf), dst), res)
        },
        Op::Sub8 => {
            let res = dst.wrapping_sub(src);
            (sub_flags8(f, dst, src, res), res)
        },
        Op::Sbb8 => {
            let res = dst.wrapping_sub(src.wrapping_add(cf));
            (sub_flags8(f, dst, src, res), res)
        },
        Op::Cmp8 => {
            let res = dst.wrapping_sub(src);
            (sub_flags8(f, dst, src, res), res)
        },
        Op::And8 => (szp8_exec(logic_flags(f), dst & src), dst & src),
        Op::Or8 => (szp8_exec(logic_flags(f), dst | src), dst | src),
        Op::Xor8 => (szp8_exec(logic_flags(f), dst ^ src), dst ^ src),
        _ => (szp8_exec(f, dst & src), dst & src),
    }
}

fn alu16_exec(op: &Op, f: Flags, dst: usize, src: usize) -> (r: (Flags, usize))
    requires
        is_binop16(*op),
    ensures
        r == alu16(*op, f, dst, src),
{
    let cf: usize = if f.carry { 1 } else { 0 };
    match *op {
        Op::Add16 => {
            let (s16, d16) = (src as u16, dst as u16);
            let res = s16 as usize + d16 as usize;
            (add_flags16(f, res, s16 as usize, d16 as usize), res)
        },
        Op::Adc16 => {
            let res = dst.wrapping_add(src).wrapping_add(cf);
            (add_flags16(f, res, src.wrapping_add(cf), dst), res)
        },
        Op::Sub16 => {
            let res = dst.wrapping_sub(src);
            (sub_flags16(f, dst, src, res), res)
        },
        Op::Sbb16 => {
            let res = dst.wrapping_sub(src.wrapping_add(cf));
            (sub_flags16(f, dst, src, res), res)
        },
        Op::Cmp16 => {
            let res = dst.wrapping_sub(src);
            (sub_flags16(f, dst, src, res), res)
        },
        Op::And16 => (szp16_exec(logic_flags(f), dst & src), dst & src),
        Op::Or16 => (szp16_exec(logic_flags(f), dst | src), dst | src),
        Op::Xor16 => (szp16_exec(logic_flags(f), dst ^ src), dst ^ src),
        _ => (szp16_exec(f, dst & src), dst & src),
    }
}

fn alu32_exec(op: &Op, f: Flags, dst: usize, src: usize) -> (r: (Flags, usize))
    requires
        is_binop32(*op),
    ensures
        r == alu32(*op, f, dst, src),
{
    match *op {
        Op::Add32 => {
            let (s32, d32) = (src as u32, dst as u32);
            let res = (s32 as usize).wrapping_add(d32 as usize);
            (add_flags32(f, res, s32 as usize, d32 as usize), res)
        },
        Op::Xor32 => (szp32_exec(logic_flags(f), dst ^ src), dst ^ src),
        _ => (sub_flags32(f, dst, src), dst.wrapping_sub(src)),
    }
}

impl CPU {
    /// Sets the flags, keeping everything else.
    pub fn set_flags(&mut self, f: Flags)
        ensures
            final(self).regs@ == (RegsView { flags: f, ..old(self).regs@ }),
            final(self).same_but_regs(*old(self)),
    {
        self.regs.flags = f;
    }

    /// Executes an 8-bit two-operand arithmetic or logic operation.
    pub fn exec_binop8(&mut self, mem: &mut Memory, op: &Op, ps: &ParameterSet)
        requires
            is_binop8(*op),
            binop_defined(*op, *ps),
        ensures
            final(self).state(final(mem)) == binop8(old(self).state(old(mem)), *op, *ps),
            final(self).same_but_regs(*old(self)),
    {
        let src = self.read_parameter_value(mem, &ps.src);
        let dst = self.read_parameter_value(mem, &ps.dst);
        let (f, res) = alu8_exec(op, self.regs.flags, dst, src);
        self.set_flags(f);
        match *op {
            Op::Cmp8 | Op::Test8 => {},
            _ => self.write_parameter_u8(mem, &ps.dst, res as u8),
        }
    }

    /// Executes a 16-bit two-operand arithmetic or logic operation.
    pub fn exec_binop16(&mut self, mem: &mut Memory, seg: Segment, op: &Op, ps: &ParameterSet)
        requires
            is_binop16(*op),
            binop_defined(*op, *ps),
        ensures
            final(self).state(final(mem)) == binop16(old(self).state(old(mem)), *op, *ps, seg),
            final(self).same_but_regs(*old(self)),
    {
        let src = self.read_parameter_value(mem, &ps.src);
        let dst = self.read_parameter_value(mem, &ps.dst);
        let (f, res) = alu16_exec(op, self.regs.flags, dst, src);
        self.set_flags(f);
        match *op {
            Op::Cmp16 | Op::Test16 => {},
            _ => self.write_parameter_u16(mem, seg, &ps.dst, res as u16),
        }
    }

    /// Executes a 32-bit two-operand arithmetic or logic operation.
    pub fn exec_binop32(&mut self, mem: &mut Memory, seg: Segment, op: &Op, ps: &ParameterSet)
        requires
            is_binop32(*op),
            binop_defined(*op, *ps),
        ensures
            final(self).state(final(mem)) == binop32(old(self).state(old(mem)), *op, *ps),
            final(self).same_but_regs(*old(self)),
    {
        let src = self.read_parameter_value(mem, &ps.src);
        let dst = self.read_parameter_value(mem, &ps.dst);
        let (f, res) = alu32_exec(op, self.regs.flags, dst, src);
        self.set_flags(f);
        match *op {
            Op::Cmp32 => {},
            _ => self.write_parameter_u32(mem, seg, &ps.dst, res as u32),
        }
    }
}

/// The one-operand arithmetic operations.
pub open spec fn is_unop(op: Op) -> bool {
    op is Inc8 || op is Inc16 || op is Inc32 || op is Dec8 || op is Dec16 || op is Dec32
        || op is Neg8 || op is Neg16 || op is Neg32 || op is Not8 || op is Not16
}

/// The flags and the unwrapped result of a one-operand operation on `dst`:
/// `inc` and `dec` leave the carry flag, `neg` sets it when `dst` is not
/// zero, `not` changes no flag.
pub open spec fn alu_unary(op: Op, f: Flags, dst: usize) -> (Flags, usize) {
    match op {
        Op::Inc8 => {
            let res = dst.wrapping_add(1);
            (Flags { carry: f.carry, ..flags_add8(f, res, 1, dst) }, res)
        },
        Op::Inc16 => {
            let res = dst.wrapping_add(1);
            (Flags { carry: f.carry, ..flags_add16(f, res, 1, dst) }, res)
        },
        Op::Inc32 => {
            let res = dst.wrapping_add(1);
            (Flags { carry: f.carry, ..flags_add32(f, res, 1, dst) }, res)
        },
        Op::Dec8 => {
            let res = dst.wrapping_sub(1);
            (Flags { carry: f.carry, ..flags_sub_res8(f, dst, 1, res) }, res)
        },
        Op::Dec16 => {
            let res = dst.wrapping_sub(1);
            (Flags { carry: f.carry, ..flags_sub_res16(f, dst, 1, res) }, res)
        },
        Op::Dec32 => {
            let res = dst.wrapping_sub(1);
            (Flags { carry: f.carry, ..flags_sub32(f, dst, 1) }, res)
        },
        Op::Neg8 => {
            let res = 0usize.wrapping_sub(dst);
            (
                Flags {
                    carry: dst != 0,
                    overflow: res == 0x80,
                    adjust: (res ^ (0 ^ dst)) & 0x10 != 0,
                    ..szp8(f, res)
                },
                res,
            )
        },
        Op::Neg16 => {
            let res = 0usize.wrapping_sub(dst);
            (
                Flags {
                    carry: dst != 0,
                    overflow: res == 0x8000,
                    adjust: (res ^ (0 ^ dst)) & 0x10 != 0,
                    ..szp16(f, res)
                },
                res,
            )
        },
        Op::Neg32 => {
            let res = 0usize.wrapping_sub(dst);
            (
                Flags {
                    carry: dst != 0,
                    overflow: res == 0x8000_0000,
                    adjust: (res ^ (0 ^ dst)) & 0x10 != 0,
                    ..szp32(f, res)
                },
                res,
            )
        },
        _ => (f, !dst),
    }
}

/// The width in bits of a one-operand operation.
pub open spec fn unop_width(op: Op) -> nat {
    if op is Inc8 || op is Dec8 || op is Neg8 || op is Not8 {
        8
    } else if op is Inc16 || op is Dec16 || op is Neg16 || op is Not16 {
        16
    } else {
        32
    }
}

/// The state after a one-operand operation: its flags, and its result
/// written back to the operand.
pub open spec fn unop(st: State, op: Op, ps: ParameterSet, seg: Segment) -> State {
    let (f, res) = alu_unary(op, st.regs.flags, read_value(st.regs, st.mem, ps.dst));
    if unop_width(op) == 8 {
        write8(with_flags(st, f), ps.dst, res as u8)
    } else if unop_width(op) == 16 {
        write16(with_flags(st, f), seg, ps.dst, res as u16)
    } else {
        write32(with_flags(st, f), ps.dst, res as u32)
    }
}

/// The operand of a one-operand operation can be read and written.
pub open spec fn unop_defined(op: Op, ps: ParameterSet) -> bool {
    &&& readable(ps.dst)
    &&& (unop_width(op) == 8 ==> writable8(ps.dst))
    &&& (unop_width(op) == 16 ==> writable16(ps.dst))
    &&& (unop_width(op) == 32 ==> writable32(ps.dst))
}

/// The OF, SF, ZF, AF, and PF flags of `neg`; CF is set unless `dst` is 0.
fn neg_flags(f: Flags, dst: usize, res: usize, top: usize) -> (r: Flags)
    requires
        top == 0x80 || top == 0x8000 || top == 0x8000_0000,
    ensures
        r == (Flags {
            carry: dst != 0,
            overflow: res == top,
            adjust: (res ^ (0 ^ dst)) & 0x10 != 0,
            ..f
        }),
{
    let mut f = f;
    f.carry = dst != 0;
    f.overflow = res == top;
    f.set_adjust(res, 0, dst);
    f
}

fn with_carry(f: Flags, carry: bool) -> (r: Flags)
    ensures
        r == (Flags { carry, ..f }),
{
    let mut f = f;
    f.carry = carry;
    f
}

fn alu_unary_exec(op: &Op, f: Flags, dst: usize) -> (r: (Flags, usize))
    requires
        is_unop(*op),
    ensures
        r == alu_unary(*op, f, dst),
{
    let carry = f.carry;
    match *op {
        // The OF, SF, ZF, AF, and PF flags are set according to the result;
        // the CF flag is not affected.
        Op::Inc8 => {
            let res = dst.wrapping_add(1);
            (with_carry(add_flags8(f, res, 1, dst), carry), res)
        },
        Op::Inc16 => {
            let res = dst.wrapping_add(1);
            (with_carry(add_flags16(f, res, 1, dst), carry), res)
        },
        Op::Inc32 => {
            let res = dst.wrapping_add(1);
            (with_carry(add_flags32(f, res, 1, dst), carry), res)
        },
        Op::Dec8 => {
            let res = dst.wrapping_sub(1);
            (with_carry(sub_flags8(f, dst, 1, res), carry), res)
        },
        Op::Dec16 => {
            let res = dst.wrapping_sub(1);
            (with_carry(sub_flags16(f, dst, 1, res), carry), res)
        },
        Op::Dec32 => {
            let res = dst.wrapping_sub(1);
            (with_carry(sub_flags32(f, dst, 1), carry), res)
        },
        Op::Neg8 => {
            let res = 0usize.wrapping_sub(dst);
            (szp8_exec(neg_flags(f, dst, res, 0x80), res), res)
        },
        Op::Neg16 => {
            let res = 0usize.wrapping_sub(dst);
            (szp16_exec(neg_flags(f, dst, res, 0x8000), res), res)
        },
        Op::Neg32 => {
            let res = 0usize.wrapping_sub(dst);
            (szp32_exec(neg_flags(f, dst, res, 0x8000_0000), res), res)
        },
        // Flags Affected: None
        _ => (f, !dst),
    }
}

impl CPU {
    /// Executes `inc`, `dec`, `neg` or `not` on its operand.
    pub fn exec_unop(&mut self, mem: &mut Memory, seg: Segment, op: &Op, ps: &ParameterSet)
        requires
            is_unop(*op),
            unop_defined(*op, *ps),
        ensures
            final(self).state(final(mem)) == unop(old(self).state(old(mem)), *op, *ps, seg),
            final(self).same_but_regs(*old(self)),
    {
        let dst = self.read_parameter_value(mem, &ps.dst);
        let (f, res) = alu_unary_exec(op, self.regs.flags, dst);
        self.set_flags(f);
        match *op {
            Op::Inc8 | Op::Dec8 | Op::Neg8 | Op::Not8 => self.write_parameter_u8(mem, &ps.dst, res as u8),
            Op::Inc16 | Op::Dec16 | Op::Neg16 | Op::Not16 => self.write_parameter_u16(mem, seg, &ps.dst, res as u16),
            _ => self.write_parameter_u32(mem, seg, &ps.dst, res as u32),
        }
    }
}

} // verus!
