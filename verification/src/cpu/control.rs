use vstd::prelude::*;

use crate::bios::BIOS;
use crate::cpu::flag::Flags;
use crate::cpu::interpreter::{
    amode_value, lemma_push16_keeps, lemma_push_pop16, pop16_state, push16_state, read_value,
    readable, seg_value, top16, State, CPU,
};
use crate::cpu::op::Op;
use crate::cpu::parameter::{spec_count, Parameter, ParameterSet};
use crate::cpu::register::{RegsView, R};
use crate::memory::{flat, word_at, Memory, MemoryAddress};

verus! {

/// The state with IP set to `ip`.
pub open spec fn with_ip(st: State, ip: u16) -> State {
    State { regs: RegsView { ip, ..st.regs }, ..st }
}

/// The near jumps: the conditional ones, `jcxz` and the unconditional ones.
pub open spec fn is_jump(op: Op) -> bool {
    op is Ja || op is Jc || op is Jcxz || op is Jg || op is Jl || op is Jna || op is Jnc
        || op is Jng || op is Jnl || op is Jno || op is Jns || op is Jnz || op is Jo || op is Jpe
        || op is Jpo || op is Js || op is Jz || op is JmpNear || op is JmpShort
}

/// Whether a near jump is taken. The conditions of `jg` and `jng` group
/// as `(!ZF & SF) == OF` and `(ZF | SF) != OF`.
pub open spec fn jump_taken(op: Op, regs: RegsView) -> bool {
    let f = regs.flags;
    match op {
        Op::Ja => !f.carry && !f.zero,
        Op::Jc => f.carry,
        Op::Jcxz => regs.r16(R::CX) == 0,
        Op::Jg => (!f.zero && f.sign) == f.overflow,
        Op::Jl => f.sign != f.overflow,
        Op::Jna => f.carry || f.zero,
        Op::Jnc => !f.carry,
        Op::Jng => (f.zero || f.sign) != f.overflow,
        Op::Jnl => f.sign == f.overflow,
        Op::Jno => !f.overflow,
        Op::Jns => !f.sign,
        Op::Jnz => !f.zero,
        Op::Jo => f.overflow,
        Op::Jpe => f.parity,
        Op::Jpo => !f.parity,
        Op::Js => f.sign,
        Op::Jz => f.zero,
        _ => true,
    }
}

/// The state after a near jump: IP becomes the target when it is taken.
pub open spec fn jump(st: State, op: Op, ps: ParameterSet) -> State {
    if jump_taken(op, st.regs) {
        with_ip(st, read_value(st.regs, st.mem, ps.dst) as u16)
    } else {
        st
    }
}

/// `loop`, `loope` and `loopne`.
pub open spec fn is_loop(op: Op) -> bool {
    op is Loop || op is Loope || op is Loopne
}

/// The state after a loop instruction: CX counts down, and the jump is
/// taken while it is not 0 (and ZF is set for `loope`, clear for `loopne`).
pub open spec fn loop_state(st: State, op: Op, ps: ParameterSet) -> State {
    let dst = read_value(st.regs, st.mem, ps.dst) as u16;
    let cx = st.regs.r16(R::CX).wrapping_sub(1);
    let s = State { regs: st.regs.with_r16(R::CX, cx), ..st };
    let taken = match op {
        Op::Loope => cx != 0 && st.regs.flags.zero,
        Op::Loopne => cx != 0 && !st.regs.flags.zero,
        _ => cx != 0,
    };
    if taken {
        with_ip(s, dst)
    } else {
        s
    }
}

/// The state with CS:IP set.
pub open spec fn with_cs_ip(st: State, cs: u16, ip: u16) -> State {
    State { regs: RegsView { ip, ..st.regs }.with_r16(R::CS, cs), ..st }
}

/// The target a far jump or call goes to from the state `st`.
pub open spec fn far_target(st: State, p: Parameter) -> (u16, u16) {
    match p {
        Parameter::Ptr16Imm(seg, off) => (seg, off),
        Parameter::Ptr16(seg, off) => (seg_value(st.regs, seg), off),
        Parameter::Ptr16Amode(seg, am) => (seg_value(st.regs, seg), amode_value(st.regs, am) as u16),
        Parameter::Ptr16AmodeS8(seg, am, imm) => (
            seg_value(st.regs, seg),
            (amode_value(st.regs, am) as u16).wrapping_add(imm as u16),
        ),
        _ => (0, 0),
    }
}

/// The operands a far jump or call takes.
pub open spec fn far_defined(op: Op, p: Parameter) -> bool {
    match op {
        Op::JmpFar => p is Ptr16Imm || p is Ptr16Amode || p is Ptr16AmodeS8,
        _ => p is Ptr16Imm || p is Ptr16 || p is Ptr16AmodeS8,
    }
}

/// The state after a far jump or call; a call first pushes CS and IP.
pub open spec fn far_state(st: State, op: Op, ps: ParameterSet) -> State {
    let s = if op is CallFar {
        push16_state(push16_state(st, st.regs.r16(R::CS)), st.regs.ip)
    } else {
        st
    };
    let (cs, ip) = far_target(s, ps.dst);
    with_cs_ip(s, cs, ip)
}

/// The state after a near call: the return address is pushed and IP
/// becomes the target.
pub open spec fn call_near_state(st: State, ps: ParameterSet) -> State {
    let target = read_value(st.regs, st.mem, ps.dst);
    with_ip(push16_state(st, st.regs.ip), target as u16)
}

/// The state with SP moved up by the operand of a `ret imm16`, if it has
/// one.
pub open spec fn release(st: State, ps: ParameterSet) -> State {
    if spec_count(ps) == 1 {
        let imm = read_value(st.regs, st.mem, ps.dst) as u16;
        State { regs: st.regs.with_r16(R::SP, st.regs.r16(R::SP).wrapping_add(imm)), ..st }
    } else {
        st
    }
}

/// The state after popping IP.
pub open spec fn pop_ip(st: State) -> State {
    with_ip(pop16_state(st), top16(st))
}

/// The state after popping CS.
pub open spec fn pop_cs(st: State) -> State {
    let s = pop16_state(st);
    State { regs: s.regs.with_r16(R::CS, top16(st)), ..s }
}

/// The state after `retn`, `retf` or `iret`.
pub open spec fn return_state(st: State, op: Op, ps: ParameterSet) -> State {
    match op {
        Op::Retn => release(pop_ip(st), ps),
        Op::Retf => pop_cs(pop_ip(release(st, ps))),
        _ => {
            let s = pop_cs(pop_ip(st));
            let t = pop16_state(s);
            State { regs: RegsView { flags: Flags::spec_from_u16(top16(s)), ..t.regs }, ..t }
        },
    }
}

/// The state after `int n`: FLAGS, CS and IP are pushed, IF and TF are
/// cleared, and CS:IP is loaded from the vector `n` of the table at 0:0.
pub open spec fn int_state(st: State, n: u8) -> State {
    let s1 = push16_state(st, st.regs.flags.spec_u16());
    let s2 = State {
        regs: RegsView {
            flags: Flags { interrupt: false, trap: false, ..s1.regs.flags },
            ..s1.regs
        },
        ..s1
    };
    let s3 = push16_state(push16_state(s2, s2.regs.r16(R::CS)), s2.regs.ip);
    let idx = (n * 4) as u16;
    with_cs_ip(s3, word_at(s3.mem, flat(0, (idx + 2) as u16)), word_at(s3.mem, flat(0, idx)))
}

/// Where `int n` records the pushed FLAGS: SS:SP after the first push.
pub open spec fn int_flags_address(st: State) -> MemoryAddress {
    let s1 = push16_state(st, st.regs.flags.spec_u16());
    MemoryAddress::RealSegmentOffset(s1.regs.r16(R::SS), s1.regs.r16(R::SP))
}

/// A near call followed by a plain near return comes back to the
/// instruction after the call, with every register as it was.
pub proof fn lemma_call_ret(st: State, ps: ParameterSet, ret: ParameterSet)
    requires
        st.regs.wf(),
        st.mem.len() == crate::memory::MEMORY_SIZE,
        spec_count(ret) != 1,
    ensures
        return_state(call_near_state(st, ps), Op::Retn, ret).regs == st.regs,
{
    let target = read_value(st.regs, st.mem, ps.dst) as u16;
    let pushed = push16_state(st, st.regs.ip);
    lemma_push_pop16(st, st.regs.ip);
    let called = with_ip(pushed, target);
    assert(top16(called) == top16(pushed));
    assert(pop16_state(called).regs == RegsView { ip: target, ..pop16_state(pushed).regs });
}

/// The registers after a pop, for a state whose registers differ from
/// those of `s` in IP, flags and a segment register other than SS only.
proof fn lemma_pop_regs(s: State, t: State, r: R, v: u16)
    requires
        s.regs.wf(),
        r.is_sreg(),
        !(r is SS),
        t.mem == s.mem,
        t.regs.gpr == s.regs.gpr,
        t.regs.sreg == s.regs.with_r16(r, v).sreg,
    ensures
        top16(t) == top16(s),
        pop16_state(t).regs.gpr == pop16_state(s).regs.gpr,
        pop16_state(t).regs.sreg == pop16_state(s).regs.with_r16(r, v).sreg,
        pop16_state(t).regs.ip == t.regs.ip,
        pop16_state(t).regs.flags == t.regs.flags,
{
    assert(t.regs.r16(R::SS) == s.regs.r16(R::SS));
    assert(t.regs.r16(R::SP) == s.regs.r16(R::SP));
}

/// Two words pushed are popped back in the other order, and the word that
/// was on top before them is on top again.
proof fn lemma_push_twice(s: State, a: u16, b: u16)
    requires
        s.regs.wf(),
        s.mem.len() == crate::memory::MEMORY_SIZE,
    ensures
        ({
            let p1 = push16_state(s, a);
            let p2 = push16_state(p1, b);
            &&& top16(p2) == b
            &&& pop16_state(p2).regs == p1.regs
            &&& top16(pop16_state(p2)) == a
            &&& pop16_state(pop16_state(p2)).regs == s.regs
            &&& top16(pop16_state(pop16_state(p2))) == top16(s)
        }),
{
    let p1 = push16_state(s, a);
    lemma_push_pop16(s, a);
    lemma_push16_keeps(s, a, 0);
    crate::cpu::register::lemma_write_read_r16(s.regs, R::SP, p1.regs.r16(R::SP));
    let p2 = push16_state(p1, b);
    lemma_push_pop16(p1, b);
    lemma_push16_keeps(p1, b, 0);
    lemma_push16_keeps(p1, b, 2);
    crate::cpu::register::lemma_write_read_r16(p1.regs, R::SP, p2.regs.r16(R::SP));
    assert(pop16_state(p2).mem == p2.mem);
    assert(p1.regs.r16(R::SP).wrapping_add(2) == s.regs.r16(R::SP));
}

/// The first half of `int n`: FLAGS, CS and IP are on the stack, above
/// one another.
proof fn lemma_int_frame(st: State, n: u8)
    requires
        st.regs.wf(),
        st.mem.len() == crate::memory::MEMORY_SIZE,
    ensures
        ({
            let f = st.regs.flags;
            let s1 = push16_state(st, f.spec_u16());
            let s2 = State {
                regs: RegsView { flags: Flags { interrupt: false, trap: false, ..s1.regs.flags }, ..s1.regs },
                ..s1
            };
            let s3a = push16_state(s2, s2.regs.r16(R::CS));
            let s3 = push16_state(s3a, s2.regs.ip);
            &&& top16(s3) == st.regs.ip
            &&& pop16_state(s3).regs == s3a.regs
            &&& top16(pop16_state(s3)) == st.regs.r16(R::CS)
            &&& pop16_state(pop16_state(s3)).regs == s2.regs
            &&& top16(pop16_state(pop16_state(s3))) == f.spec_u16()
            &&& pop16_state(s1).regs == st.regs
            &&& s3.mem.len() == st.mem.len()
        }),
{
    let f = st.regs.flags;
    let s1 = push16_state(st, f.spec_u16());
    lemma_push_pop16(st, f.spec_u16());
    crate::cpu::register::lemma_write_read_r16(st.regs, R::SP, s1.regs.r16(R::SP));
    let s2 = State {
        regs: RegsView { flags: Flags { interrupt: false, trap: false, ..s1.regs.flags }, ..s1.regs },
        ..s1
    };
    assert(top16(s2) == top16(s1));
    lemma_push_twice(s2, s2.regs.r16(R::CS), s2.regs.ip);
}

/// An `int n` followed, in its handler, by `iret` comes back to the
/// instruction after the `int` with every register and flag as it was.
#[verifier::rlimit(50)]
pub proof fn lemma_int_iret(st: State, n: u8, ps: ParameterSet)
    requires
        st.regs.wf(),
        st.mem.len() == crate::memory::MEMORY_SIZE,
        st.regs.flags.iopl < 4,
    ensures
        return_state(int_state(st, n), Op::Iret, ps).regs == st.regs,
{
    let f = st.regs.flags;
    let s1 = push16_state(st, f.spec_u16());
    let s2 = State {
        regs: RegsView { flags: Flags { interrupt: false, trap: false, ..s1.regs.flags }, ..s1.regs },
        ..s1
    };
    let s3a = push16_state(s2, s2.regs.r16(R::CS));
    let s3 = push16_state(s3a, s2.regs.ip);
    lemma_int_frame(st, n);
    let s4 = int_state(st, n);
    let new_cs = s4.regs.r16(R::CS);
    assert(s4.mem == s3.mem);
    assert(s4.regs.gpr == s3.regs.gpr);
    assert(s4.regs.sreg == s3.regs.with_r16(R::CS, new_cs).sreg);
    // iret pops IP, then CS, then FLAGS
    lemma_pop_regs(s3, s4, R::CS, new_cs);
    let t1 = pop_ip(s4);
    let u1 = pop16_state(s3);
    assert(t1.mem == u1.mem);
    assert(t1.regs.gpr == u1.regs.gpr);
    assert(t1.regs.sreg == u1.regs.with_r16(R::CS, new_cs).sreg);
    lemma_pop_regs(u1, t1, R::CS, new_cs);
    let t2 = pop_cs(t1);
    let u2 = pop16_state(u1);
    assert(t2.regs.gpr == u2.regs.gpr);
    crate::cpu::register::lemma_overwrite_r16(u2.regs, R::CS, new_cs, st.regs.r16(R::CS));
    assert(t2.regs.sreg == u2.regs.sreg);
    assert(top16(t2) == top16(u2));
    crate::cpu::flag::lemma_flags_unpack_pack(f);
    let done = return_state(s4, Op::Iret, ps);
    assert(done.regs.flags == f);
    assert(done.regs.ip == st.regs.ip);
    assert(done.regs.gpr == pop16_state(s1).regs.gpr);
    assert(done.regs.sreg == pop16_state(s1).regs.sreg);
}

impl CPU {
    pub(crate) fn set_ip(&mut self, ip: u16)
        ensures
            final(self).regs@ == (RegsView { ip, ..old(self).regs@ }),
            final(self).same_but_regs(*old(self)),
    {
        self.regs.ip = ip;
    }

    fn jump_condition(&self, op: &Op) -> (r: bool)
        requires
            is_jump(*op),
        ensures
            r == jump_taken(*op, self.regs@),
    {
        let f = self.regs.flags;
        match *op {
            Op::Ja => !f.carry && !f.zero,
            Op::Jc => f.carry,
            Op::Jcxz => self.get_r16(R::CX) == 0,
            Op::Jg => (!f.zero && f.sign) == f.overflow,
            Op::Jl => f.sign != f.overflow,
            Op::Jna => f.carry || f.zero,
            Op::Jnc => !f.carry,
            Op::Jng => (f.zero || f.sign) != f.overflow,
            Op::Jnl => f.sign == f.overflow,
            Op::Jno => !f.overflow,
            Op::Jns => !f.sign,
            Op::Jnz => !f.zero,
            Op::Jo => f.overflow,
            Op::Jpe => f.parity,
            Op::Jpo => !f.parity,
            Op::Js => f.sign,
            Op::Jz => f.zero,
            _ => true,
        }
    }

    /// Executes a near jump.
    pub fn exec_jump(&mut self, mem: &Memory, op: &Op, ps: &ParameterSet)
        requires
            is_jump(*op),
            readable(ps.dst),
        ensures
            final(self).state(mem) == jump(old(self).state(mem), *op, *ps),
            final(self).same_but_regs(*old(self)),
    {
        if self.jump_condition(op) {
            let ip = self.read_parameter_value(mem, &ps.dst) as u16;
            self.set_ip(ip);
        }
    }

    /// Executes `loop`, `loope` or `loopne`.
    pub fn exec_loop(&mut self, mem: &Memory, op: &Op, ps: &ParameterSet)
        requires
            is_loop(*op),
            readable(ps.dst),
        ensures
            final(self).state(mem) == loop_state(old(self).state(mem), *op, *ps),
            final(self).same_but_regs(*old(self)),
    {
        let zero = self.regs.flags.zero;
        let dst = self.read_parameter_value(mem, &ps.dst) as u16;
        let cx = self.get_r16(R::CX).wrapping_sub(1);
        self.set_r16(R::CX, cx);
        let taken = match *op {
            // Decrement count; jump short if count != 0 and ZF = 1.
            Op::Loope => cx != 0 && zero,
            // Decrement count; jump short if count != 0 and ZF = 0.
            Op::Loopne => cx != 0 && !zero,
            // Decrement count; jump short if count != 0.
            _ => cx != 0,
        };
        if taken {
            self.set_ip(dst);
        }
    }

    fn set_cs_ip(&mut self, cs: u16, ip: u16)
        ensures
            final(self).regs@ == (RegsView { ip, ..old(self).regs@ }).with_r16(R::CS, cs),
            final(self).same_but_regs(*old(self)),
    {
        self.regs.ip = ip;
        self.set_r16(R::CS, cs);
    }

    fn far_target(&self, p: &Parameter) -> (r: (u16, u16))
        ensures
            r == far_target(self.state_regs_only(), *p),
    {
        match *p {
            Parameter::Ptr16Imm(seg, off) => (seg, off),
            Parameter::Ptr16(seg, off) => (self.segment(seg), off),
            Parameter::Ptr16Amode(seg, ref amode) => (self.segment(seg), self.amode(amode) as u16),
            Parameter::Ptr16AmodeS8(seg, ref amode, imm) => (
                self.segment(seg),
                (self.amode(amode) as u16).wrapping_add(imm as u16),
            ),
            _ => (0, 0),
        }
    }

    /// The registers as a state with no memory.
    pub open spec fn state_regs_only(&self) -> State {
        State { regs: self.regs@, mem: Seq::empty() }
    }

    /// Executes `jmp far` or `call far`.
    pub fn exec_far(&mut self, mem: &mut Memory, op: &Op, ps: &ParameterSet)
        requires
            op is JmpFar || op is CallFar,
            far_defined(*op, ps.dst),
        ensures
            final(self).state(final(mem)) == far_state(old(self).state(old(mem)), *op, *ps),
            final(self).same_but_regs(*old(self)),
    {
        if let Op::CallFar = *op {
            let old_seg = self.get_r16(R::CS);
            let old_ip = self.regs.ip;
            self.push16(mem, old_seg);
            self.push16(mem, old_ip);
        }
        let (cs, ip) = self.far_target(&ps.dst);
        self.set_cs_ip(cs, ip);
    }

    /// Executes a near call.
    pub fn exec_call_near(&mut self, mem: &mut Memory, ps: &ParameterSet)
        requires
            readable(ps.dst),
        ensures
            final(self).state(final(mem)) == call_near_state(old(self).state(old(mem)), *ps),
            final(self).same_but_regs(*old(self)),
    {
        let old_ip = self.regs.ip;
        let temp_ip = self.read_parameter_value(mem, &ps.dst);
        self.push16(mem, old_ip);
        self.set_ip(temp_ip as u16);
    }

    fn release(&mut self, mem: &Memory, ps: &ParameterSet)
        requires
            spec_count(*ps) == 1 ==> readable(ps.dst),
        ensures
            final(self).state(mem) == release(old(self).state(mem), *ps),
            final(self).same_but_regs(*old(self)),
    {
        if ps.count() == 1 {
            // 1 argument: pop imm16 bytes from stack
            let imm16 = self.read_parameter_value(mem, &ps.dst) as u16;
            let sp = self.get_r16(R::SP).wrapping_add(imm16);
            self.set_r16(R::SP, sp);
        }
    }

    fn pop_ip(&mut self, mem: &Memory)
        ensures
            final(self).state(mem) == pop_ip(old(self).state(mem)),
            final(self).same_but_regs(*old(self)),
    {
        let ip = self.pop16(mem);
        self.set_ip(ip);
    }

    fn pop_cs(&mut self, mem: &Memory)
        ensures
            final(self).state(mem) == pop_cs(old(self).state(mem)),
            final(self).same_but_regs(*old(self)),
    {
        let cs = self.pop16(mem);
        self.set_r16(R::CS, cs);
    }

    /// Executes `retn`, `retf` or `iret`; `iret` forgets where the BIOS
    /// recorded the pushed flags.
    pub fn exec_return(&mut self, mem: &Memory, bios: &mut BIOS, op: &Op, ps: &ParameterSet)
        requires
            op is Retn || op is Retf || op is Iret,
            spec_count(*ps) == 1 ==> readable(ps.dst),
        ensures
            final(self).state(mem) == return_state(old(self).state(mem), *op, *ps),
            final(self).same_but_regs(*old(self)),
            final(bios).flags_address == (if op is Iret {
                MemoryAddress::Unset
            } else {
                old(bios).flags_address
            }),
    {
        match *op {
            Op::Retn => {
                self.pop_ip(mem);
                self.release(mem, ps);
            },
            Op::Retf => {
                self.release(mem, ps);
                self.pop_ip(mem);
                self.pop_cs(mem);
            },
            _ => {
                self.pop_ip(mem);
                self.pop_cs(mem);
                let flags = self.pop16(mem);
                let mut f = self.regs.flags;
                f.set_u16(flags);
                self.set_flags(f);
                bios.flags_address = MemoryAddress::Unset;
            },
        }
    }

    /// Executes `int n`: the BIOS records where FLAGS were pushed.
    pub fn exec_int(&mut self, mem: &mut Memory, bios: &mut BIOS, n: u8)
        ensures
            final(self).state(final(mem)) == int_state(old(self).state(old(mem)), n),
            final(bios).flags_address == int_flags_address(old(self).state(old(mem))),
            final(self).same_but_regs(*old(self)),
    {
        let flags = self.regs.flags.u16();
        self.push16(mem, flags);
        bios.flags_address = MemoryAddress::RealSegmentOffset(self.get_r16(R::SS), self.get_r16(R::SP));
        self.regs.flags.interrupt = false;
        self.regs.flags.trap = false;
        let (cs, ip) = self.get_address_pair();
        self.push16(mem, cs);
        self.push16(mem, ip);
        let base: u16 = 0;
        let idx = (n as u16) << 2;
        proof {
            assert(idx == (n * 4) as u16) by (bit_vector)
                requires
                    idx == (n as u16) << 2,
            ;
        }
        let ip = mem.read_u16(base, idx);
        let cs = mem.read_u16(base, idx + 2);
        self.set_cs_ip(cs, ip);
    }
}

} // verus!
