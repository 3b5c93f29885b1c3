use vstd::prelude::*;

use crate::cpu::flag::Flags;
use crate::cpu::interpreter::{
    read_value, readable, writable16, writable32, write16, write32, State, CPU,
};
use crate::cpu::op::Op;
use crate::cpu::parameter::{spec_count, ParameterSet};
use crate::cpu::register::{RegsView, R};
use crate::cpu::segment::Segment;
use crate::memory::Memory;

verus! {

/// The multiplications and unsigned divisions.
pub open spec fn is_muldiv(op: Op) -> bool {
    op is Mul8 || op is Mul16 || op is Mul32 || op is Imul8 || op is Imul16 || op is Imul32
        || op is Div8 || op is Div16 || op is Div32 || op is Idiv8 || op is Idiv16 || op is Idiv32
}

/// The magnitude of `a`.
pub open spec fn magnitude(a: int) -> nat {
    if a < 0 {
        (-a) as nat
    } else {
        a as nat
    }
}

/// The quotient of a signed division, rounded toward zero.
pub open spec fn trunc_div(a: int, b: int) -> int {
    let q = (magnitude(a) / magnitude(b)) as int;
    if (a < 0) != (b < 0) {
        -q
    } else {
        q
    }
}

/// The remainder of a signed division: it has the sign of `a`.
pub open spec fn trunc_rem(a: int, b: int) -> int {
    let r = (magnitude(a) % magnitude(b)) as int;
    if a < 0 {
        -r
    } else {
        r
    }
}

/// The dividend and divisor of a signed division.
pub open spec fn idiv_operands(r: RegsView, op: Op, dst: usize) -> (int, int) {
    match op {
        Op::Idiv8 => ((r.r16(R::AX) as i16) as int, (dst as i8) as int),
        Op::Idiv16 => (
            ((((r.r16(R::DX) as u32) * 0x1_0000 + r.r16(R::AX) as u32) as u32) as i32) as int,
            (dst as i16) as int,
        ),
        _ => (
            ((((r.r32(R::EDX) as u64) * 0x1_0000_0000 + r.r32(R::EAX) as u64) as u64) as i64) as int,
            (dst as i32) as int,
        ),
    }
}

/// The state after a signed division, or `None` where it raises a divide
/// error: a zero divisor, or a quotient that does not fit.
pub open spec fn idiv_state(st: State, op: Op, dst: usize) -> Option<State> {
    let r = st.regs;
    let (a, b) = idiv_operands(r, op, dst);
    let q = trunc_div(a, b);
    let m = trunc_rem(a, b);
    if b == 0 {
        None
    } else if op is Idiv8 {
        if q < -0x80 || q > 0x7F {
            None
        } else {
            Some(State { regs: r.with_r8(R::AL, q as u8).with_r8(R::AH, m as u8), ..st })
        }
    } else if op is Idiv16 {
        if q < -0x8000 || q > 0x7FFF {
            None
        } else {
            Some(State { regs: r.with_r16(R::AX, q as u16).with_r16(R::DX, m as u16), ..st })
        }
    } else {
        if q < -0x8000_0000 || q > 0x7FFF_FFFF {
            None
        } else {
            Some(State { regs: r.with_r32(R::EAX, q as u32).with_r32(R::EDX, m as u32), ..st })
        }
    }
}

/// A signed division of the smallest dividend by -1 overflows before it
/// can fault, and stops the processor.
pub open spec fn idiv_ok(st: State, op: Op, ps: ParameterSet) -> bool {
    let (a, b) = idiv_operands(st.regs, op, read_value(st.regs, st.mem, ps.dst));
    (op is Idiv8 || op is Idiv16 || op is Idiv32) ==> !(b == -1 && (if op is Idiv8 {
        a == -0x8000
    } else if op is Idiv16 {
        a == -0x8000_0000
    } else {
        a == -0x8000_0000_0000_0000
    }))
}

/// The registers with CF and OF both set to `b`.
pub open spec fn with_cf_of(regs: RegsView, b: bool) -> RegsView {
    RegsView { flags: Flags { carry: b, overflow: b, ..regs.flags }, ..regs }
}

/// The product of two 16-bit operands, in 32 bits: the low word is written,
/// and the high word goes to DX in the one-operand form.
pub open spec fn imul16_product(a: u16, b: u16) -> u32 {
    ((a as i16) as int * (b as i16) as int) as u32
}

/// The product of two 32-bit operands, in 64 bits.
pub open spec fn imul32_product(a: u32, b: u32) -> u64 {
    ((a as i32) as int * (b as i32) as int) as u64
}

/// The state after `mul` or the one-operand `imul` of a byte, given the
/// operand `dst`.
pub open spec fn mul_state(st: State, op: Op, dst: usize) -> State {
    let r = st.regs;
    match op {
        Op::Mul8 => {
            let ax = ((r.r8(R::AL) as usize).wrapping_mul(dst)) as u16;
            State { regs: with_cf_of(r.with_r16(R::AX, ax), ax & 0xFF00 != 0), ..st }
        },
        Op::Mul16 => {
            let res = dst.wrapping_mul(r.r16(R::AX) as usize);
            let dx = (res >> 16usize) as u16;
            State {
                regs: with_cf_of(r.with_r16(R::AX, res as u16).with_r16(R::DX, dx), dx != 0),
                ..st
            }
        },
        Op::Mul32 => {
            let res = (dst as u64).wrapping_mul(r.r32(R::EAX) as u64);
            let edx = (res >> 32u64) as u32;
            State {
                regs: with_cf_of(r.with_r32(R::EAX, res as u32).with_r32(R::EDX, edx), edx != 0),
                ..st
            }
        },
        _ => {
            let ax = ((r.r8(R::AL) as i8) as int * (dst as i8) as int) as u16;
            let fits = (ax & 0xFF80) == 0xFF80 || (ax & 0xFF80) == 0x0000;
            State { regs: with_cf_of(r.with_r16(R::AX, ax), !fits), ..st }
        },
    }
}

/// The state after a word or dword `imul`, given its first operand `dst`:
/// the one-operand form fills DX:AX (EDX:EAX), the others write the low
/// half of the product to the first operand.
pub open spec fn imul_state(st: State, op: Op, ps: ParameterSet, seg: Segment, dst: usize) -> State {
    let r = st.regs;
    let (a, b) = if spec_count(ps) == 2 {
        (dst, read_value(r, st.mem, ps.src))
    } else {
        (read_value(r, st.mem, ps.src2), read_value(r, st.mem, ps.src))
    };
    if op is Imul16 {
        if spec_count(ps) == 1 {
            let tmp = imul16_product(r.r16(R::AX), dst as u16);
            State {
                regs: r.with_r16(R::AX, tmp as u16).with_r16(R::DX, (tmp >> 16u32) as u16),
                ..st
            }
        } else {
            write16(st, seg, ps.dst, a.wrapping_mul(b) as u16)
        }
    } else {
        if spec_count(ps) == 1 {
            let tmp = imul32_product(r.r32(R::EAX), dst as u32);
            State {
                regs: r.with_r32(R::EAX, tmp as u32).with_r32(R::EDX, (tmp >> 32u64) as u32),
                ..st
            }
        } else {
            write32(st, ps.dst, a.wrapping_mul(b) as u32)
        }
    }
}

/// The state after an unsigned division by `dst`, or `None` where it
/// raises a divide error: a zero divisor, or a quotient that does not fit.
pub open spec fn div_state(st: State, op: Op, dst: usize) -> Option<State> {
    let r = st.regs;
    match op {
        Op::Div8 => {
            let ax = r.r16(R::AX);
            let op1 = dst as u16;
            if op1 == 0 || ax / op1 > 0xFF {
                None
            } else {
                Some(
                    State {
                        regs: r.with_r8(R::AH, (ax % op1) as u8).with_r8(R::AL, (ax / op1) as u8),
                        ..st
                    },
                )
            }
        },
        Op::Div16 => {
            let num = ((r.r16(R::DX) as u32) * 0x1_0000 + r.r16(R::AX) as u32) as u32;
            let op1 = dst as u32;
            if op1 == 0 || num / op1 > 0xFFFF {
                None
            } else {
                Some(
                    State {
                        regs: r.with_r16(R::DX, (num % op1) as u16).with_r16(
                            R::AX,
                            (num / op1) as u16,
                        ),
                        ..st
                    },
                )
            }
        },
        _ => {
            let num = ((r.r32(R::EDX) as u64) * 0x1_0000_0000 + r.r32(R::EAX) as u64) as u64;
            let op1 = dst as u64;
            // the quotient is kept to its low word, and only one that fits
            // there is accepted
            if op1 == 0 || num / op1 > 0xFFFF {
                None
            } else {
                Some(
                    State {
                        regs: r.with_r32(R::EDX, (num % op1) as u32).with_r32(
                            R::EAX,
                            (num / op1) as u32,
                        ),
                        ..st
                    },
                )
            }
        },
    }
}

/// The state after a multiplication, or after an unsigned division that
/// does not fault; `None` when the division raises a divide error.
pub open spec fn muldiv(st: State, op: Op, ps: ParameterSet, seg: Segment) -> Option<State> {
    let dst = read_value(st.regs, st.mem, ps.dst);
    if op is Mul8 || op is Mul16 || op is Mul32 || op is Imul8 {
        Some(mul_state(st, op, dst))
    } else if op is Imul16 || op is Imul32 {
        Some(imul_state(st, op, ps, seg, dst))
    } else if op is Idiv8 || op is Idiv16 || op is Idiv32 {
        idiv_state(st, op, dst)
    } else {
        div_state(st, op, dst)
    }
}

/// The operands of a multiplication or division can be read, and written
/// where a result goes to one.
pub open spec fn muldiv_defined(op: Op, ps: ParameterSet) -> bool {
    &&& readable(ps.dst)
    &&& (op is Imul16 || op is Imul32) ==> 1 <= spec_count(ps)
    &&& (op is Imul16 || op is Imul32) && spec_count(ps) >= 2 ==> readable(ps.src)
    &&& (op is Imul16 || op is Imul32) && spec_count(ps) >= 3 ==> readable(ps.src2)
    &&& op is Imul16 && spec_count(ps) >= 2 ==> writable16(ps.dst)
    &&& op is Imul32 && spec_count(ps) >= 2 ==> writable32(ps.dst)
}

/// A product of two factors no larger than `m` in size is no larger than
/// `m * m`.
proof fn lemma_product_bound(a: int, b: int, m: int)
    by (nonlinear_arith)
    requires
        0 <= m,
        -m <= a <= m,
        -m <= b <= m,
    ensures
        -(m * m) <= a * b <= m * m,
{
}

/// Signed division rounded toward zero, with the remainder of the sign of
/// the dividend; the one quotient that does not fit is left out.
fn trunc_divide(a: i64, b: i64) -> (r: (i64, i64))
    requires
        b != 0,
        !(a == i64::MIN && b == -1),
    ensures
        r.0 == trunc_div(a as int, b as int),
        r.1 == trunc_rem(a as int, b as int),
{
    let ua: u64 = if a < 0 { (-(a as i128)) as u64 } else { a as u64 };
    let ub: u64 = if b < 0 { (-(b as i128)) as u64 } else { b as u64 };
    let q = ua / ub;
    let m = ua % ub;
    proof {
        assert(ua == magnitude(a as int));
        assert(ub == magnitude(b as int));
        assert(q <= ua) by (nonlinear_arith)
            requires
                ub >= 1,
                q == ua / ub,
        ;
        if ub >= 2 {
            assert(q < 0x8000_0000_0000_0000) by (nonlinear_arith)
                requires
                    ub >= 2,
                    q == ua / ub,
                    ua <= 0x8000_0000_0000_0000,
            ;
        } else {
            assert(q == ua) by (nonlinear_arith)
                requires
                    ub == 1,
                    q == ua / ub,
            ;
        }
        assert(m < ub);
    }
    let qi: i64 = if (a < 0) != (b < 0) { -(q as i128) as i64 } else { q as i64 };
    let mi: i64 = if a < 0 { -(m as i128) as i64 } else { m as i64 };
    (qi, mi)
}

impl CPU {
    fn set_cf_of(&mut self, b: bool)
        ensures
            final(self).regs@ == with_cf_of(old(self).regs@, b),
            final(self).same_but_regs(*old(self)),
    {
        self.regs.flags.carry = b;
        self.regs.flags.overflow = b;
    }

    /// Executes a multiplication or an unsigned division; returns false,
    /// with nothing changed, where the division raises a divide error.
    pub fn exec_muldiv(&mut self, mem: &mut Memory, seg: Segment, op: &Op, ps: &ParameterSet) -> (ok: bool)
        requires
            is_muldiv(*op),
            muldiv_defined(*op, *ps),
            idiv_ok(old(self).state(old(mem)), *op, *ps),
        ensures
            ok == muldiv(old(self).state(old(mem)), *op, *ps, seg) is Some,
            ok ==> final(self).state(final(mem)) == muldiv(
                old(self).state(old(mem)),
                *op,
                *ps,
                seg,
            )->0,
            !ok ==> final(self).state(final(mem)) == old(self).state(old(mem)),
            final(self).same_but_regs(*old(self)),
    {
        let dst = self.read_parameter_value(mem, &ps.dst);
        match *op {
            Op::Mul8 | Op::Mul16 | Op::Mul32 | Op::Imul8 => {
                self.mul(mem, op, dst);
                true
            },
            Op::Imul16 => {
                self.imul16(mem, seg, ps, dst);
                true
            },
            Op::Imul32 => {
                self.imul32(mem, seg, ps, dst);
                true
            },
            Op::Idiv8 | Op::Idiv16 | Op::Idiv32 => self.idiv(mem, op, dst),
            _ => self.div(mem, op, dst),
        }
    }

    fn idiv(&mut self, mem: &Memory, op: &Op, dst: usize) -> (ok: bool)
        requires
            op is Idiv8 || op is Idiv16 || op is Idiv32,
            ({
                let (a, b) = idiv_operands(old(self).regs@, *op, dst);
                !(b == -1 && (a == -0x8000 && op is Idiv8 || a == -0x8000_0000 && op is Idiv16 || a
                    == -0x8000_0000_0000_0000 && op is Idiv32))
            }),
        ensures
            ok == idiv_state(old(self).state(mem), *op, dst) is Some,
            ok ==> final(self).state(mem) == idiv_state(old(self).state(mem), *op, dst)->0,
            !ok ==> final(self).regs@ == old(self).regs@,
            final(self).same_but_regs(*old(self)),
    {
        let (a, b): (i64, i64) = match *op {
            Op::Idiv8 => (self.get_r16(R::AX) as i16 as i64, dst as i8 as i64),
            Op::Idiv16 => {
                let v = (self.get_r16(R::DX) as u32) * 0x1_0000 + self.get_r16(R::AX) as u32;
                (v as i32 as i64, dst as i16 as i64)
            },
            _ => {
                let v = (self.get_r32(R::EDX) as u64) * 0x1_0000_0000 + self.get_r32(R::EAX) as u64;
                (v as i64, dst as i32 as i64)
            },
        };
        if b == 0 {
            return false;
        }
        let (q, m) = trunc_divide(a, b);
        match *op {
            Op::Idiv8 => {
                if q < -0x80 || q > 0x7F {
                    return false;
                }
                self.set_r8(R::AL, q as u8);
                self.set_r8(R::AH, m as u8);
            },
            Op::Idiv16 => {
                if q < -0x8000 || q > 0x7FFF {
                    return false;
                }
                self.set_r16(R::AX, q as u16);
                self.set_r16(R::DX, m as u16);
            },
            _ => {
                if q < -0x8000_0000 || q > 0x7FFF_FFFF {
                    return false;
                }
                self.set_r32(R::EAX, q as u32);
                self.set_r32(R::EDX, m as u32);
            },
        }
        true
    }

    fn mul(&mut self, mem: &Memory, op: &Op, dst: usize)
        requires
            op is Mul8 || op is Mul16 || op is Mul32 || op is Imul8,
        ensures
            final(self).state(mem) == mul_state(old(self).state(mem), *op, dst),
            final(self).same_but_regs(*old(self)),
    {
        match *op {
            Op::Mul8 => {
                // Unsigned multiply (AX <- AL * r/m8).
                let al = self.get_r8(R::AL) as usize;
                let ax = al.wrapping_mul(dst) as u16;
                self.set_r16(R::AX, ax);
                // The OF and CF flags are set to 0 if the upper half of the
                // result is 0; otherwise, they are set to 1.
                self.set_cf_of(ax & 0xFF00 != 0);
            },
            Op::Mul16 => {
                // Unsigned multiply (DX:AX <- AX * r/m16).
                let src = self.get_r16(R::AX) as usize;
                let res = dst.wrapping_mul(src);
                self.set_r16(R::AX, res as u16);
                let dx = (res >> 16usize) as u16;
                self.set_r16(R::DX, dx);
                self.set_cf_of(dx != 0);
            },
            Op::Mul32 => {
                // Unsigned multiply (EDX:EAX <- EAX * r/m32)
                let src = self.get_r32(R::EAX) as u64;
                let res = (dst as u64).wrapping_mul(src);
                self.set_r32(R::EAX, res as u32);
                let edx = (res >> 32u64) as u32;
                self.set_r32(R::EDX, edx);
                self.set_cf_of(edx != 0);
            },
            _ => {
                // IMUL r/m8: AX <- AL * r/m byte.
                let f1 = self.get_r8(R::AL) as i8;
                let f2 = dst as i8;
                proof {
                    lemma_product_bound(f1 as int, f2 as int, 128);
                }
                let ax = (f1 as i16 * f2 as i16) as u16;
                self.set_r16(R::AX, ax);
                // the CF and OF flags are set when significant bits are
                // carried into the upper half of the result
                let fits = (ax & 0xFF80) == 0xFF80 || (ax & 0xFF80) == 0x0000;
                self.set_cf_of(!fits);
            },
        }
    }

    fn div(&mut self, mem: &Memory, op: &Op, dst: usize) -> (ok: bool)
        requires
            op is Div8 || op is Div16 || op is Div32,
        ensures
            ok == div_state(old(self).state(mem), *op, dst) is Some,
            ok ==> final(self).state(mem) == div_state(old(self).state(mem), *op, dst)->0,
            !ok ==> final(self).regs@ == old(self).regs@,
            final(self).same_but_regs(*old(self)),
    {
        match *op {
            Op::Div8 => {
                // Unsigned divide AX by r/m8: AL <- quotient, AH <- remainder.
                let ax = self.get_r16(R::AX);
                let op1 = dst as u16;
                if op1 == 0 {
                    return false;
                }
                let quotient = ax / op1;
                let remainder = (ax % op1) as u8;
                if quotient > 0xFF {
                    return false;
                }
                self.set_r8(R::AH, remainder);
                self.set_r8(R::AL, quotient as u8);
                true
            },
            Op::Div16 => {
                // Unsigned divide DX:AX by r/m16: AX <- quotient, DX <- remainder.
                let num = (self.get_r16(R::DX) as u32) * 0x1_0000 + self.get_r16(R::AX) as u32;
                let op1 = dst as u32;
                if op1 == 0 {
                    return false;
                }
                let remainder = (num % op1) as u16;
                let quotient = num / op1;
                if quotient > 0xFFFF {
                    return false;
                }
                self.set_r16(R::DX, remainder);
                self.set_r16(R::AX, quotient as u16);
                true
            },
            _ => {
                // Unsigned divide EDX:EAX by r/m32: EAX <- quotient, EDX <- remainder.
                let num = (self.get_r32(R::EDX) as u64) * 0x1_0000_0000 + self.get_r32(R::EAX) as u64;
                let op1 = dst as u64;
                if op1 == 0 {
                    return false;
                }
                let remainder = (num % op1) as u32;
                let quotient = num / op1;
                if quotient > 0xFFFF {
                    return false;
                }
                self.set_r32(R::EDX, remainder);
                self.set_r32(R::EAX, quotient as u32);
                true
            },
        }
    }

    fn imul16(&mut self, mem: &mut Memory, seg: Segment, ps: &ParameterSet, dst: usize)
        requires
            muldiv_defined(Op::Imul16, *ps),
            dst == read_value(old(self).regs@, old(mem)@, ps.dst),
        ensures
            final(self).state(final(mem)) == imul_state(
                old(self).state(old(mem)),
                Op::Imul16,
                *ps,
                seg,
                dst,
            ),
            final(self).same_but_regs(*old(self)),
    {
        let n = ps.count();
        if n == 1 {
            // IMUL r/m16: DX:AX <- AX * r/m word.
            let a = dst as u16 as i16;
            let ax = self.get_r16(R::AX) as i16;
            proof {
                lemma_product_bound(ax as int, a as int, 0x8000);
            }
            let tmp = (ax as i32) * (a as i32);
            proof {
                assert((tmp as u32) as u16 == tmp as u16) by (bit_vector);
            }
            self.set_r16(R::AX, tmp as u16);
            self.set_r16(R::DX, ((tmp as u32) >> 16u32) as u16);
        } else if n == 2 {
            // IMUL r16, r/m16: word register <- word register * r/m16.
            let b = self.read_parameter_value(mem, &ps.src);
            self.write_parameter_u16(mem, seg, &ps.dst, dst.wrapping_mul(b) as u16);
        } else {
            // IMUL r16, r/m16, imm: word register <- r/m16 * immediate.
            let a = self.read_parameter_value(mem, &ps.src);
            let b = self.read_parameter_value(mem, &ps.src2);
            self.write_parameter_u16(mem, seg, &ps.dst, b.wrapping_mul(a) as u16);
        }
    }

    fn imul32(&mut self, mem: &mut Memory, seg: Segment, ps: &ParameterSet, dst: usize)
        requires
            muldiv_defined(Op::Imul32, *ps),
            dst == read_value(old(self).regs@, old(mem)@, ps.dst),
        ensures
            final(self).state(final(mem)) == imul_state(
                old(self).state(old(mem)),
                Op::Imul32,
                *ps,
                seg,
                dst,
            ),
            final(self).same_but_regs(*old(self)),
    {
        let n = ps.count();
        if n == 1 {
            // IMUL r/m32: EDX:EAX <- EAX * r/m32.
            let a = dst as u32 as i32;
            let eax = self.get_r32(R::EAX) as i32;
            proof {
                lemma_product_bound(eax as int, a as int, 0x8000_0000);
            }
            let tmp = (eax as i64) * (a as i64);
            proof {
                assert((tmp as u64) as u32 == tmp as u32) by (bit_vector);
            }
            self.set_r32(R::EAX, tmp as u32);
            self.set_r32(R::EDX, ((tmp as u64) >> 32u64) as u32);
        } else if n == 2 {
            // IMUL r32, r/m32: doubleword register <- doubleword register * r/m32.
            let b = self.read_parameter_value(mem, &ps.src);
            self.write_parameter_u32(mem, seg, &ps.dst, dst.wrapping_mul(b) as u32);
        } else {
            // IMUL r32, r/m32, imm: doubleword register <- r/m32 * immediate.
            let a = self.read_parameter_value(mem, &ps.src);
            let b = self.read_parameter_value(mem, &ps.src2);
            self.write_parameter_u32(mem, seg, &ps.dst, b.wrapping_mul(a) as u32);
        }
    }
}

} // verus!
