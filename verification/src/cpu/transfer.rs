use vstd::prelude::*;

use crate::cpu::flag::{even_parity, Flags};
use crate::cpu::interpreter::{
    adj4_regs, adjb_regs, amode_value, read_value, readable, writable16, writable32, writable8,
    write16, write32, write8, State, CPU,
};
use crate::cpu::op::Op;
use crate::cpu::parameter::{Parameter, ParameterSet};
use crate::cpu::register::{RegsView, R};
use crate::cpu::segment::Segment;
use crate::memory::Memory;

verus! {

/// A memory operand whose offset `lea` can compute.
pub open spec fn has_address(p: Parameter) -> bool {
    p is Ptr16Amode || p is Ptr16AmodeS8 || p is Ptr16AmodeS16 || p is Ptr16
}

/// The offset a memory operand names, as `lea` computes it.
pub open spec fn address_of(regs: RegsView, p: Parameter) -> usize {
    match p {
        Parameter::Ptr16Amode(_, am) => amode_value(regs, am),
        Parameter::Ptr16AmodeS8(_, am, imm) => amode_value(regs, am).wrapping_add(imm as usize),
        Parameter::Ptr16AmodeS16(_, am, imm) => amode_value(regs, am).wrapping_add(imm as usize),
        Parameter::Ptr16(_, imm) => imm as usize,
        _ => 0,
    }
}

/// A byte widened to a word, the high byte filled with its top bit.
pub open spec fn extend16(b: u8) -> u16 {
    if b & 0x80 != 0 {
        (b as u16 + 0xFF00) as u16
    } else {
        b as u16
    }
}

/// A byte widened to a dword, the high bytes filled with its top bit.
pub open spec fn extend32(b: u8) -> u32 {
    if b & 0x80 != 0 {
        (b as u32 + 0xFFFF_FF00) as u32
    } else {
        b as u32
    }
}

/// The operations that move data between operands.
pub open spec fn is_transfer(op: Op) -> bool {
    op is Mov8 || op is Mov16 || op is Mov32 || op is Movsx16 || op is Movsx32 || op is Movzx16
        || op is Movzx32 || op is Xchg8 || op is Xchg16 || op is Xchg32 || op is Lea16
        || op is Setc || op is Setnz
}

/// The state after a data transfer; a word or dword destination in memory
/// is written under the segment override `seg`.
pub open spec fn transfer(st: State, op: Op, ps: ParameterSet, seg: Segment) -> State {
    let src = read_value(st.regs, st.mem, ps.src);
    let dst = read_value(st.regs, st.mem, ps.dst);
    match op {
        Op::Mov8 => write8(st, ps.dst, src as u8),
        Op::Mov16 => write16(st, seg, ps.dst, src as u16),
        Op::Mov32 => write32(st, ps.dst, src as u32),
        Op::Movsx16 | Op::Movzx16 => write16(st, seg, ps.dst, extend16(src as u8)),
        Op::Movsx32 | Op::Movzx32 => write32(st, ps.dst, extend32(src as u8)),
        Op::Xchg8 => write8(write8(st, ps.dst, src as u8), ps.src, dst as u8),
        Op::Xchg16 => write16(write16(st, seg, ps.dst, src as u16), seg, ps.src, dst as u16),
        Op::Xchg32 => write32(write32(st, ps.dst, src as u32), ps.src, dst as u32),
        Op::Lea16 => write16(st, seg, ps.dst, address_of(st.regs, ps.src) as u16),
        Op::Setc => write8(st, ps.dst, if st.regs.flags.carry { 1 } else { 0 }),
        _ => write8(st, ps.dst, if !st.regs.flags.zero { 1 } else { 0 }),
    }
}

/// The operands of a data transfer can be read and written as it needs.
pub open spec fn transfer_defined(op: Op, ps: ParameterSet) -> bool {
    match op {
        Op::Mov8 => readable(ps.src) && writable8(ps.dst),
        Op::Mov16 | Op::Movsx16 | Op::Movzx16 => readable(ps.src) && writable16(ps.dst),
        Op::Mov32 | Op::Movsx32 | Op::Movzx32 => readable(ps.src) && writable32(ps.dst),
        Op::Xchg8 => readable(ps.src) && readable(ps.dst) && writable8(ps.dst) && writable8(ps.src),
        Op::Xchg16 => readable(ps.src) && readable(ps.dst) && writable16(ps.dst) && writable16(
            ps.src,
        ),
        Op::Xchg32 => readable(ps.src) && readable(ps.dst) && writable32(ps.dst) && writable32(
            ps.src,
        ),
        Op::Lea16 => has_address(ps.src) && writable16(ps.dst),
        _ => writable8(ps.dst),
    }
}

/// The byte `lahf` loads into AH: SF:ZF:0:AF:0:PF:1:CF.
pub open spec fn lahf_byte(f: Flags) -> u8 {
    ((if f.carry { 1u8 } else { 0u8 }) | 2u8 | (if f.parity { 4u8 } else { 0u8 }) | (if f.adjust {
        0x10u8
    } else {
        0u8
    }) | (if f.zero { 0x40u8 } else { 0u8 }) | (if f.sign { 0x80u8 } else { 0u8 })) as u8
}

/// The operations that work on registers and flags alone.
pub open spec fn is_register_op(op: Op) -> bool {
    op is Clc || op is Cld || op is Cli || op is Cmc || op is Stc || op is Std || op is Sti
        || op is Nop || op is Hlt || op is Salc || op is Lahf || op is Sahf || op is Cbw
        || op is Cwd16 || op is Cwde32 || op is Aaa || op is Aas || op is Daa || op is Das
        || op is Arpl || op is Bound || op is Sldt
}

/// The flags after an operation that sets flags alone; `ah` is AH, which
/// `sahf` loads.
pub open spec fn flags_op(op: Op, f: Flags, ah: u8) -> Flags {
    match op {
        Op::Clc => Flags { carry: false, ..f },
        Op::Cld => Flags { direction: false, ..f },
        Op::Cli => Flags { interrupt: false, ..f },
        Op::Cmc => Flags { carry: !f.carry, ..f },
        Op::Stc => Flags { carry: true, ..f },
        Op::Std => Flags { direction: true, ..f },
        Op::Sti => Flags { interrupt: true, ..f },
        _ => Flags {
            carry: ah & 0x1 != 0,
            parity: ah & 0x4 != 0,
            adjust: ah & 0x10 != 0,
            zero: ah & 0x40 != 0,
            sign: ah & 0x80 != 0,
            ..f
        },
    }
}

/// The registers after an operation on registers and flags.
pub open spec fn register_op(regs: RegsView, op: Op) -> RegsView {
    let f = regs.flags;
    match op {
        Op::Clc | Op::Cld | Op::Cli | Op::Cmc | Op::Stc | Op::Std | Op::Sti | Op::Sahf => RegsView {
            flags: flags_op(op, f, regs.r8(R::AH)),
            ..regs
        },
        Op::Salc => regs.with_r8(R::AL, if f.carry { 0xFF } else { 0 }),
        Op::Lahf => regs.with_r8(R::AH, lahf_byte(f)),
        Op::Cbw => regs.with_r8(R::AH, if regs.r8(R::AL) & 0x80 != 0 { 0xFF } else { 0 }),
        Op::Cwd16 => regs.with_r16(R::DX, if regs.r16(R::AX) & 0x8000 != 0 { 0xFFFF } else { 0 }),
        Op::Cwde32 => regs.with_r32(R::EAX, (regs.r16(R::AX) as i16) as u32),
        Op::Aaa => adjb_regs(regs, 6, if regs.r8(R::AL) > 0xf9 { 2 } else { 1 }),
        Op::Aas => adjb_regs(regs, -6i8, if regs.r8(R::AL) < 6 { -2i8 } else { -1i8 }),
        Op::Daa => adj4_regs(regs, 6, 0x60),
        Op::Das => adj4_regs(regs, -6i16, -0x60i16),
        _ => regs,
    }
}

/// The registers after `aad` with the base `base`: AL becomes AH * base +
/// AL, AH becomes 0.
pub open spec fn aad_regs(regs: RegsView, base: u16) -> RegsView {
    let ax = (regs.r8(R::AH) as u16).wrapping_mul(base).wrapping_add(regs.r8(R::AL) as u16);
    let al = ax as u8;
    let r = regs.with_r8(R::AL, al).with_r8(R::AH, 0);
    RegsView {
        flags: Flags {
            carry: false,
            overflow: false,
            adjust: false,
            sign: al >= 0x80,
            zero: al == 0,
            parity: even_parity(al as u64),
            ..regs.flags
        },
        ..r
    }
}

/// The registers after `aam` with the nonzero base `base`: AH becomes AL /
/// base and AL becomes AL mod base; SF, ZF and PF follow the old AL.
pub open spec fn aam_regs(regs: RegsView, base: u8) -> RegsView {
    let al = regs.r8(R::AL);
    let r = regs.with_r8(R::AH, al / base).with_r8(R::AL, al % base);
    RegsView {
        flags: Flags {
            carry: false,
            overflow: false,
            adjust: false,
            sign: al & 0x80 != 0,
            zero: al == 0,
            parity: even_parity(al as u64),
            ..regs.flags
        },
        ..r
    }
}

impl CPU {
    /// returns the address of pointer, used by LEA
    pub fn read_parameter_address(&self, p: &Parameter) -> (r: usize)
        requires
            has_address(*p),
        ensures
            r == address_of(self.regs@, *p),
    {
        match *p {
            Parameter::Ptr16Amode(_, ref amode) => self.amode(amode),
            Parameter::Ptr16AmodeS8(_, ref amode, imm) => self.amode(amode).wrapping_add(
                imm as usize,
            ),
            Parameter::Ptr16AmodeS16(_, ref amode, imm) => self.amode(amode).wrapping_add(
                imm as usize,
            ),
            Parameter::Ptr16(_, imm) => imm as usize,
            _ => 0,
        }
    }

    /// Executes a data transfer: `mov`, `movsx`, `movzx`, `xchg`, `lea`,
    /// `setc` or `setnz`.
    pub fn exec_transfer(&mut self, mem: &mut Memory, seg: Segment, op: &Op, ps: &ParameterSet)
        requires
            is_transfer(*op),
            transfer_defined(*op, *ps),
        ensures
            final(self).state(final(mem)) == transfer(old(self).state(old(mem)), *op, *ps, seg),
            final(self).same_but_regs(*old(self)),
    {
        match *op {
            Op::Mov8 => {
                let data = self.read_parameter_value(mem, &ps.src) as u8;
                self.write_parameter_u8(mem, &ps.dst, data);
            },
            Op::Mov16 => {
                let data = self.read_parameter_value(mem, &ps.src) as u16;
                self.write_parameter_u16(mem, seg, &ps.dst, data);
            },
            Op::Mov32 => {
                let data = self.read_parameter_value(mem, &ps.src) as u32;
                self.write_parameter_u32(mem, seg, &ps.dst, data);
            },
            Op::Movsx16 | Op::Movzx16 => {
                let src = self.read_parameter_value(mem, &ps.src) as u8;
                let mut data = src as u16;
                if src & 0x80 != 0 {
                    data = data + 0xFF00;
                }
                self.write_parameter_u16(mem, seg, &ps.dst, data);
            },
            Op::Movsx32 | Op::Movzx32 => {
                let src = self.read_parameter_value(mem, &ps.src) as u8;
                let mut data = src as u32;
                if src & 0x80 != 0 {
                    data = data + 0xFFFF_FF00;
                }
                self.write_parameter_u32(mem, seg, &ps.dst, data);
            },
            Op::Xchg8 => {
                let src = self.read_parameter_value(mem, &ps.src);
                let dst = self.read_parameter_value(mem, &ps.dst);
                self.write_parameter_u8(mem, &ps.dst, src as u8);
                self.write_parameter_u8(mem, &ps.src, dst as u8);
            },
            Op::Xchg16 => {
                let src = self.read_parameter_value(mem, &ps.src);
                let dst = self.read_parameter_value(mem, &ps.dst);
                self.write_parameter_u16(mem, seg, &ps.dst, src as u16);
                self.write_parameter_u16(mem, seg, &ps.src, dst as u16);
            },
            Op::Xchg32 => {
                let src = self.read_parameter_value(mem, &ps.src);
                let dst = self.read_parameter_value(mem, &ps.dst);
                self.write_parameter_u32(mem, seg, &ps.dst, src as u32);
                self.write_parameter_u32(mem, seg, &ps.src, dst as u32);
            },
            Op::Lea16 => {
                let src = self.read_parameter_address(&ps.src) as u16;
                self.write_parameter_u16(mem, seg, &ps.dst, src);
            },
            Op::Setc => {
                let val: u8 = if self.regs.flags.carry { 1 } else { 0 };
                self.write_parameter_u8(mem, &ps.dst, val);
            },
            _ => {
                let val: u8 = if !self.regs.flags.zero { 1 } else { 0 };
                self.write_parameter_u8(mem, &ps.dst, val);
            },
        }
    }
}

/// The flags after an operation that sets flags alone; `ah` is AH.
fn flag_op(op: &Op, f: Flags, ah: u8) -> (r: Flags)
    requires
        op is Clc || op is Cld || op is Cli || op is Cmc || op is Stc || op is Std || op is Sti
            || op is Sahf,
    ensures
        r == flags_op(*op, f, ah),
{
    let mut f = f;
    match *op {
        Op::Clc => f.carry = false,
        Op::Cld => f.direction = false,
        Op::Cli => f.interrupt = false,
        Op::Cmc => f.carry = !f.carry,
        Op::Stc => f.carry = true,
        Op::Std => f.direction = true,
        Op::Sti => f.interrupt = true,
        _ => {
            // Loads the SF, ZF, AF, PF, and CF flags of the EFLAGS register with values
            // from the corresponding bits in the AH register (bits 7, 6, 4, 2, and 0, respectively).
            f.carry = ah & 0x1 != 0;
            f.parity = ah & 0x4 != 0;
            f.adjust = ah & 0x10 != 0;
            f.zero = ah & 0x40 != 0;
            f.sign = ah & 0x80 != 0;
        },
    }
    f
}

fn lahf_value(f: Flags) -> (r: u8)
    ensures
        r == lahf_byte(f),
{
    (if f.carry { 1u8 } else { 0u8 }) | 2u8 | (if f.parity { 4u8 } else { 0u8 }) | (if f.adjust {
        0x10u8
    } else {
        0u8
    }) | (if f.zero { 0x40u8 } else { 0u8 }) | (if f.sign { 0x80u8 } else { 0u8 })
}

impl CPU {
    /// Executes an operation on registers and flags alone.
    pub fn exec_register_op(&mut self, op: &Op)
        requires
            is_register_op(*op),
        ensures
            final(self).regs@ == register_op(old(self).regs@, *op),
            final(self).same_but_regs(*old(self)),
    {
        match *op {
            Op::Clc | Op::Cld | Op::Cli | Op::Cmc | Op::Stc | Op::Std | Op::Sti | Op::Sahf => {
                let ah = self.get_r8(R::AH);
                let f = flag_op(op, self.regs.flags, ah);
                self.set_flags(f);
            },
            Op::Salc => {
                let al: u8 = if self.regs.flags.carry { 0xFF } else { 0 };
                self.set_r8(R::AL, al);
            },
            Op::Lahf => {
                // Load: AH <- EFLAGS(SF:ZF:0:AF:0:PF:1:CF).
                let val = lahf_value(self.regs.flags);
                self.set_r8(R::AH, val);
            },
            Op::Cbw => {
                let ah: u8 = if self.get_r8(R::AL) & 0x80 != 0 { 0xFF } else { 0x00 };
                self.set_r8(R::AH, ah);
            },
            Op::Cwd16 => {
                // DX:AX <- sign-extend of AX.
                let dx: u16 = if self.get_r16(R::AX) & 0x8000 != 0 { 0xFFFF } else { 0 };
                self.set_r16(R::DX, dx);
            },
            Op::Cwde32 => {
                // EAX <- sign-extend of AX.
                let ax = self.get_r16(R::AX) as i16;
                self.set_r32(R::EAX, ax as u32);
            },
            Op::Aaa => {
                let v: i8 = if self.get_r8(R::AL) > 0xf9 { 2 } else { 1 };
                self.adjb(6, v);
            },
            Op::Aas => {
                let v: i8 = if self.get_r8(R::AL) < 6 { -2 } else { -1 };
                self.adjb(-6, v);
            },
            Op::Daa => self.adj4(6, 0x60),
            Op::Das => self.adj4(-6, -0x60),
            _ => {},
        }
    }

    /// `aad`: AL becomes AH times the operand plus AL, AH becomes 0.
    pub fn exec_aad(&mut self, mem: &Memory, ps: &ParameterSet)
        requires
            readable(ps.dst),
        ensures
            final(self).regs@ == aad_regs(
                old(self).regs@,
                read_value(old(self).regs@, mem@, ps.dst) as u16,
            ),
            final(self).same_but_regs(*old(self)),
    {
        let op1 = self.read_parameter_value(mem, &ps.dst) as u16;
        let ax = (self.get_r8(R::AH) as u16).wrapping_mul(op1).wrapping_add(self.get_r8(R::AL) as u16);
        let al = ax as u8;
        self.set_r8(R::AL, al);
        self.set_r8(R::AH, 0);
        // modification of flags A,C,O is undocumented
        self.regs.flags.carry = false;
        self.regs.flags.overflow = false;
        self.regs.flags.adjust = false;
        // The SF, ZF, and PF flags are set according to the resulting binary value in the AL register
        self.regs.flags.sign = al >= 0x80;
        self.regs.flags.zero = al == 0;
        self.regs.flags.set_parity(al as usize);
        proof {
            assert(self.regs@.gpr =~= aad_regs(
                old(self).regs@,
                read_value(old(self).regs@, mem@, ps.dst) as u16,
            ).gpr);
        }
    }

    /// `aam`: AH becomes AL divided by the operand, AL the remainder; the
    /// operand is not 0.
    pub fn exec_aam(&mut self, base: u8)
        requires
            base != 0,
        ensures
            final(self).regs@ == aam_regs(old(self).regs@, base),
            final(self).same_but_regs(*old(self)),
    {
        let al = self.get_r8(R::AL);
        self.set_r8(R::AH, al / base);
        self.set_r8(R::AL, al % base);
        // modification of flags A,C,O is undocumented
        self.regs.flags.carry = false;
        self.regs.flags.overflow = false;
        self.regs.flags.adjust = false;
        // The SF, ZF, and PF flags are set according to the resulting binary value in the AL register
        self.regs.flags.sign = al & 0x80 != 0;
        self.regs.flags.zero = al == 0;
        self.regs.flags.set_parity(al as usize);
        proof {
            assert(self.regs@.gpr =~= aam_regs(old(self).regs@, base).gpr);
        }
    }
}

} // verus!
