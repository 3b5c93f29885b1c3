use vstd::prelude::*;

use crate::cpu::flag::Flags;
use crate::cpu::interpreter::{
    push16_state, read_value, readable, seg_value, writable16, write16, State, CPU,
};
use crate::cpu::op::Op;
use crate::cpu::parameter::{Parameter, ParameterSet};
use crate::cpu::register::{AMode, RegsView, R};
use crate::cpu::segment::Segment;
use crate::memory::{flat, word_at, Memory};

verus! {

/// The number of trailing zero bits of a nonzero value.
pub open spec fn trailing_zeros(x: nat) -> nat
    decreases x,
{
    if x == 0 || x % 2 == 1 {
        0
    } else {
        1 + trailing_zeros(x / 2)
    }
}

/// The segment and offset a 16-bit addressing mode names: BP-based modes
/// use SS, the others DS.
pub open spec fn amode_address(regs: RegsView, am: AMode) -> (u16, u16) {
    let (ds, ss) = (regs.r16(R::DS), regs.r16(R::SS));
    let (bx, bp, si, di) = (regs.r16(R::BX), regs.r16(R::BP), regs.r16(R::SI), regs.r16(R::DI));
    match am {
        AMode::BX => (ds, bx),
        AMode::BP => (ss, bp),
        AMode::SI => (ds, si),
        AMode::DI => (ds, di),
        AMode::BXSI => (ds, bx.wrapping_add(si)),
        AMode::BXDI => (ds, bx.wrapping_add(di)),
        AMode::BPSI => (ss, bp.wrapping_add(si)),
        _ => (ss, bp.wrapping_add(di)),
    }
}

/// The 16-bit addressing modes.
pub open spec fn is_amode16(am: AMode) -> bool {
    am is BX || am is BP || am is SI || am is DI || am is BXSI || am is BXDI || am is BPSI
        || am is BPDI
}

/// A far pointer operand `lds` and `les` can load from.
pub open spec fn selector_operand(p: Parameter) -> bool {
    match p {
        Parameter::Ptr16(..) => true,
        Parameter::Ptr16Amode(_, am) => is_amode16(am),
        Parameter::Ptr16AmodeS8(_, am, _) => is_amode16(am),
        _ => false,
    }
}

/// Where a far pointer operand is stored.
pub open spec fn selector_address(regs: RegsView, p: Parameter) -> (u16, u16) {
    match p {
        Parameter::Ptr16(seg, imm) => (seg_value(regs, seg), imm),
        Parameter::Ptr16Amode(_, am) => amode_address(regs, am),
        Parameter::Ptr16AmodeS8(_, am, imms) => {
            let (seg, off) = amode_address(regs, am);
            (seg, off.wrapping_add(imms as u16))
        },
        _ => (0, 0),
    }
}

/// The segment and offset of a far pointer in memory: the offset word
/// first, then the segment word.
pub open spec fn far_pointer(st: State, p: Parameter) -> (u16, u16) {
    let (seg, off) = selector_address(st.regs, p);
    (word_at(st.mem, flat(seg, off.wrapping_add(2))), word_at(st.mem, flat(seg, off)))
}

/// The state after `enter` has copied `n` frame pointers of the enclosing
/// procedures.
pub open spec fn enter_copies(st: State, n: nat) -> State
    decreases n,
{
    if n == 0 {
        st
    } else {
        let s = enter_copies(st, (n - 1) as nat);
        let bp = s.regs.r16(R::BP).wrapping_sub(2);
        let s1 = State { regs: s.regs.with_r16(R::BP, bp), ..s };
        push16_state(s1, word_at(s1.mem, flat(s1.regs.r16(R::SS), bp)))
    }
}

/// The state after `enter alloc, nesting`: BP is pushed, the enclosing
/// frame pointers are copied, BP points at the new frame and SP moves down
/// by `alloc`.
pub open spec fn enter_state(st: State, alloc: u16, nesting: usize) -> State {
    let level = nesting & 0x1F;
    let s1 = push16_state(st, st.regs.r16(R::BP));
    let frame = s1.regs.r16(R::SP);
    let s2 = if level != 0 {
        let c = enter_copies(s1, level as nat);
        push16_state(c, frame)
    } else {
        s1
    };
    let s3 = State { regs: s2.regs.with_r16(R::BP, frame), ..s2 };
    State { regs: s3.regs.with_r16(R::SP, s3.regs.r16(R::SP).wrapping_sub(alloc)), ..s3 }
}

/// The operations on bits, far pointers and stack frames.
pub open spec fn is_misc(op: Op) -> bool {
    op is Xlatb || op is Bt || op is Bsf || op is Lds || op is Les || op is Enter
}

/// The state after `xlatb`: AL becomes the byte at `seg`:BX + AL.
pub open spec fn xlatb_state(st: State, seg: Segment) -> State {
    let r = st.regs;
    let off = r.r16(R::BX).wrapping_add(r.r8(R::AL) as u16);
    State { regs: r.with_r8(R::AL, st.mem[flat(seg_value(r, seg), off)]), ..st }
}

/// The state after `bt`: CF becomes the bit of the first operand that the
/// second selects, modulo 16.
pub open spec fn bt_state(st: State, ps: ParameterSet) -> State {
    let r = st.regs;
    let base = read_value(r, st.mem, ps.dst) as u64;
    let offset = read_value(r, st.mem, ps.src) as u64;
    let carry = base & (1u64 << (offset & 15)) != 0;
    State { regs: RegsView { flags: Flags { carry, ..r.flags }, ..r }, ..st }
}

/// The state after `bsf`: ZF is set for a zero source; otherwise the index
/// of its lowest set bit is written and ZF is cleared.
pub open spec fn bsf_state(st: State, ps: ParameterSet, seg: Segment) -> State {
    let r = st.regs;
    let src = read_value(r, st.mem, ps.src);
    if src == 0 {
        State { regs: RegsView { flags: Flags { zero: true, ..r.flags }, ..r }, ..st }
    } else {
        let s = write16(st, seg, ps.dst, trailing_zeros(src as nat) as u16);
        State { regs: RegsView { flags: Flags { zero: false, ..s.regs.flags }, ..s.regs }, ..s }
    }
}

/// The state after `lds` or `les`: DS or ES gets the segment of the far
/// pointer, the destination its offset.
pub open spec fn load_far_state(st: State, op: Op, ps: ParameterSet, seg: Segment) -> State {
    let (segment, offset) = far_pointer(st, ps.src);
    let sreg = if op is Lds { R::DS } else { R::ES };
    write16(State { regs: st.regs.with_r16(sreg, segment), ..st }, seg, ps.dst, offset)
}

/// The state after one of these operations.
pub open spec fn misc_state(st: State, op: Op, ps: ParameterSet, seg: Segment) -> State {
    match op {
        Op::Xlatb => xlatb_state(st, seg),
        Op::Bt => bt_state(st, ps),
        Op::Bsf => bsf_state(st, ps, seg),
        Op::Lds | Op::Les => load_far_state(st, op, ps, seg),
        _ => enter_state(
            st,
            read_value(st.regs, st.mem, ps.dst) as u16,
            read_value(st.regs, st.mem, ps.src),
        ),
    }
}

/// The operands of these operations are of the kinds they read and write.
pub open spec fn misc_defined(op: Op, ps: ParameterSet) -> bool {
    match op {
        Op::Xlatb => true,
        Op::Bt | Op::Enter => readable(ps.dst) && readable(ps.src),
        Op::Bsf => readable(ps.src) && writable16(ps.dst),
        _ => selector_operand(ps.src) && writable16(ps.dst),
    }
}

proof fn lemma_trailing_zeros_step(x: u64)
    requires
        x != 0,
        x & 1 == 0,
    ensures
        trailing_zeros(x as nat) == 1 + trailing_zeros((x >> 1u64) as nat),
        x >> 1u64 != 0,
{
    assert(x & 1 == x % 2) by (bit_vector);
    assert(x >> 1u64 == x / 2) by (bit_vector);
}

/// Two to the power `n`.
pub open spec fn two_to(n: nat) -> nat
    decreases n,
{
    if n == 0 {
        1
    } else {
        2 * two_to((n - 1) as nat)
    }
}

proof fn lemma_two_to_mono(a: nat, b: nat)
    requires
        a <= b,
    ensures
        two_to(a) <= two_to(b),
    decreases b,
{
    if a < b {
        lemma_two_to_mono(a, (b - 1) as nat);
    }
}

proof fn lemma_trailing_zeros_pow(x: nat)
    requires
        x != 0,
    ensures
        two_to(trailing_zeros(x)) <= x,
    decreases x,
{
    if x % 2 == 0 {
        lemma_trailing_zeros_pow(x / 2);
    }
}

proof fn lemma_trailing_zeros_bound(x: nat)
    requires
        0 < x < 0x1_0000_0000_0000_0000,
    ensures
        trailing_zeros(x) < 64,
{
    lemma_trailing_zeros_pow(x);
    if trailing_zeros(x) >= 64 {
        lemma_two_to_mono(64, trailing_zeros(x));
        reveal_with_fuel(two_to, 65);
        assert(two_to(64) == 0x1_0000_0000_0000_0000);
    }
}

impl CPU {
    fn amode_address(&self, am: &AMode) -> (r: (u16, u16))
        requires
            is_amode16(*am),
        ensures
            r == amode_address(self.regs@, *am),
    {
        let ds = self.get_r16(R::DS);
        let ss = self.get_r16(R::SS);
        match *am {
            AMode::BX => (ds, self.get_r16(R::BX)),
            AMode::BP => (ss, self.get_r16(R::BP)),
            AMode::SI => (ds, self.get_r16(R::SI)),
            AMode::DI => (ds, self.get_r16(R::DI)),
            AMode::BXSI => (ds, self.get_r16(R::BX).wrapping_add(self.get_r16(R::SI))),
            AMode::BXDI => (ds, self.get_r16(R::BX).wrapping_add(self.get_r16(R::DI))),
            AMode::BPSI => (ss, self.get_r16(R::BP).wrapping_add(self.get_r16(R::SI))),
            _ => (ss, self.get_r16(R::BP).wrapping_add(self.get_r16(R::DI))),
        }
    }

    /// used by lds, les: the segment and offset of a far pointer in memory
    pub fn read_segment_selector(&self, mem: &Memory, p: &Parameter) -> (r: (u16, u16))
        requires
            selector_operand(*p),
        ensures
            r == far_pointer(self.state(mem), *p),
    {
        let (segment, offset) = match *p {
            Parameter::Ptr16(seg, imm) => (self.segment(seg), imm),
            Parameter::Ptr16Amode(_, ref amode) => self.amode_address(amode),
            Parameter::Ptr16AmodeS8(_, ref amode, imms) => {
                let (seg, off) = self.amode_address(amode);
                (seg, off.wrapping_add(imms as u16))
            },
            _ => (0, 0),
        };
        let o_val = mem.read_u16(segment, offset);
        let s_val = mem.read_u16(segment, offset.wrapping_add(2));
        (s_val, o_val)
    }

    /// The number of trailing zero bits of a nonzero value.
    fn bit_scan(v: usize) -> (r: u16)
        requires
            v != 0,
        ensures
            r == trailing_zeros(v as nat),
    {
        let mut src = v as u64;
        let mut count: u16 = 0;
        proof {
            lemma_trailing_zeros_bound(v as nat);
        }
        while src & 1 == 0
            invariant
                src != 0,
                count + trailing_zeros(src as nat) == trailing_zeros(v as nat),
                trailing_zeros(v as nat) < 64,
            decreases src,
        {
            proof {
                lemma_trailing_zeros_step(src);
                assert(src >> 1u64 < src) by (bit_vector)
                    requires
                        src != 0,
                ;
            }
            count += 1;
            src = src >> 1u64;
        }
        proof {
            assert(src & 1 != 0 ==> src % 2 == 1) by (bit_vector);
        }
        count
    }

    fn enter(&mut self, mem: &mut Memory, alloc_size: u16, nesting: usize)
        ensures
            final(self).state(final(mem)) == enter_state(
                old(self).state(old(mem)),
                alloc_size,
                nesting,
            ),
            final(self).same_but_regs(*old(self)),
    {
        // Make Stack Frame for Procedure Parameters
        let nesting_level = nesting & 0x1F;
        let bp = self.get_r16(R::BP);
        self.push16(mem, bp);
        let frame_temp = self.get_r16(R::SP);
        if nesting_level != 0 {
            let ghost s1 = self.state(mem);
            let ghost cpu1 = *self;
            let mut i: usize = 0;
            while i < nesting_level
                invariant
                    i <= nesting_level,
                    self.state(mem) == enter_copies(s1, i as nat),
                    self.same_but_regs(cpu1),
                decreases nesting_level - i,
            {
                let bp = self.get_r16(R::BP).wrapping_sub(2);
                self.set_r16(R::BP, bp);
                let val = mem.read_u16(self.get_r16(R::SS), self.get_r16(R::BP));
                self.push16(mem, val);
                i += 1;
            }
            self.push16(mem, frame_temp);
        }
        self.set_r16(R::BP, frame_temp);
        let sp = self.get_r16(R::SP).wrapping_sub(alloc_size);
        self.set_r16(R::SP, sp);
    }

    fn xlatb(&mut self, mem: &Memory, seg: Segment)
        ensures
            final(self).state(mem) == xlatb_state(old(self).state(mem), seg),
            final(self).same_but_regs(*old(self)),
    {
        // Set AL to memory byte DS:[(E)BX + unsigned AL].
        let off = self.get_r16(R::BX).wrapping_add(self.get_r8(R::AL) as u16);
        let al = mem.read_u8(self.segment(seg), off);
        self.set_r8(R::AL, al);
    }

    fn bt(&mut self, mem: &Memory, ps: &ParameterSet)
        requires
            readable(ps.dst),
            readable(ps.src),
        ensures
            final(self).state(mem) == bt_state(old(self).state(mem), *ps),
            final(self).same_but_regs(*old(self)),
    {
        let bit_base = self.read_parameter_value(mem, &ps.dst) as u64;
        let bit_offset = self.read_parameter_value(mem, &ps.src) as u64;
        proof {
            assert(bit_offset & 15 < 64) by (bit_vector);
        }
        let carry = bit_base & (1u64 << (bit_offset & 15)) != 0;
        self.regs.flags.carry = carry;
    }

    fn bsf(&mut self, mem: &mut Memory, seg: Segment, ps: &ParameterSet)
        requires
            readable(ps.src),
            writable16(ps.dst),
        ensures
            final(self).state(final(mem)) == bsf_state(old(self).state(old(mem)), *ps, seg),
            final(self).same_but_regs(*old(self)),
    {
        let src = self.read_parameter_value(mem, &ps.src);
        if src == 0 {
            self.regs.flags.zero = true;
        } else {
            let count = Self::bit_scan(src);
            self.write_parameter_u16(mem, seg, &ps.dst, count);
            self.regs.flags.zero = false;
        }
    }

    fn load_far(&mut self, mem: &mut Memory, seg: Segment, op: &Op, ps: &ParameterSet)
        requires
            op is Lds || op is Les,
            selector_operand(ps.src),
            writable16(ps.dst),
        ensures
            final(self).state(final(mem)) == load_far_state(old(self).state(old(mem)), *op, *ps, seg),
            final(self).same_but_regs(*old(self)),
    {
        // Load DS:r16 or ES:r16 with far pointer from memory.
        let (segment, offset) = self.read_segment_selector(mem, &ps.src);
        match *op {
            Op::Lds => self.set_r16(R::DS, segment),
            _ => self.set_r16(R::ES, segment),
        }
        self.write_parameter_u16(mem, seg, &ps.dst, offset);
    }

    /// Executes `xlatb`, `bt`, `bsf`, `lds`, `les` or `enter`.
    pub fn exec_misc(&mut self, mem: &mut Memory, seg: Segment, op: &Op, ps: &ParameterSet)
        requires
            is_misc(*op),
            misc_defined(*op, *ps),
        ensures
            final(self).state(final(mem)) == misc_state(old(self).state(old(mem)), *op, *ps, seg),
            final(self).same_but_regs(*old(self)),
    {
        match *op {
            Op::Xlatb => self.xlatb(mem, seg),
            Op::Bt => self.bt(mem, ps),
            Op::Bsf => self.bsf(mem, seg, ps),
            Op::Lds | Op::Les => self.load_far(mem, seg, op, ps),
            _ => {
                let alloc_size = self.read_parameter_value(mem, &ps.dst) as u16;
                let nesting_level = self.read_parameter_value(mem, &ps.src);
                self.enter(mem, alloc_size, nesting_level);
            },
        }
    }
}

} // verus!
