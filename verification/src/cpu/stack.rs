use vstd::prelude::*;

use crate::cpu::flag::Flags;
use crate::cpu::interpreter::{
    lemma_push_pop16, pop16_state, pop32_state, push16_state, push32_state, read_value, readable, top16, top32,
    writable16, writable32, write16, write32, State, CPU,
};
use crate::cpu::op::Op;
use crate::cpu::parameter::ParameterSet;
use crate::cpu::register::{RegsView, R};
use crate::cpu::segment::Segment;
use crate::memory::{flat, word_at, Memory};

verus! {

/// The state after popping a word into the register `r`.
pub open spec fn pop_into16(st: State, r: R) -> State {
    let s = pop16_state(st);
    State { regs: s.regs.with_r16(r, top16(st)), ..s }
}

/// The state after popping a dword into the register `r`.
pub open spec fn pop_into32(st: State, r: R) -> State {
    let s = pop32_state(st);
    State { regs: s.regs.with_r32(r, top32(st)), ..s }
}

/// The state after `pusha`: AX, CX, DX, BX, the old SP, BP, SI and DI are
/// pushed in that order.
pub open spec fn pusha16_state(st: State) -> State {
    let r = st.regs;
    push16_state(
        push16_state(
            push16_state(
                push16_state(
                    push16_state(
                        push16_state(
                            push16_state(push16_state(st, r.r16(R::AX)), r.r16(R::CX)),
                            r.r16(R::DX),
                        ),
                        r.r16(R::BX),
                    ),
                    r.r16(R::SP),
                ),
                r.r16(R::BP),
            ),
            r.r16(R::SI),
        ),
        r.r16(R::DI),
    )
}

/// The state after `popa`: DI, SI and BP are popped, the saved SP is
/// skipped, then BX, DX, CX and AX are popped.
pub open spec fn popa16_state(st: State) -> State {
    let s = pop_into16(pop_into16(pop_into16(st, R::DI), R::SI), R::BP);
    let skipped = State { regs: s.regs.with_r16(R::SP, s.regs.r16(R::SP).wrapping_add(2)), ..s };
    pop_into16(pop_into16(pop_into16(pop_into16(skipped, R::BX), R::DX), R::CX), R::AX)
}

/// The state after `pushad`: the 32-bit registers in the order of `pusha`.
pub open spec fn pushad32_state(st: State) -> State {
    let r = st.regs;
    push32_state(
        push32_state(
            push32_state(
                push32_state(
                    push32_state(
                        push32_state(
                            push32_state(push32_state(st, r.r32(R::EAX)), r.r32(R::ECX)),
                            r.r32(R::EDX),
                        ),
                        r.r32(R::EBX),
                    ),
                    r.r32(R::ESP),
                ),
                r.r32(R::EBP),
            ),
            r.r32(R::ESI),
        ),
        r.r32(R::EDI),
    )
}

/// The state after `popad`: the 32-bit registers in the order of `popa`.
pub open spec fn popad32_state(st: State) -> State {
    let s = pop_into32(pop_into32(pop_into32(st, R::EDI), R::ESI), R::EBP);
    let skipped = State {
        regs: s.regs.with_r32(R::ESP, s.regs.r32(R::ESP).wrapping_add(4)),
        ..s
    };
    pop_into32(pop_into32(pop_into32(pop_into32(skipped, R::EBX), R::EDX), R::ECX), R::EAX)
}

/// The operations that work on the stack alone.
pub open spec fn is_stack_op(op: Op) -> bool {
    op is Push16 || op is Push32 || op is Pop16 || op is Pop32 || op is Pushf || op is Popf
        || op is Pusha16 || op is Popa16 || op is Pushad32 || op is Popad32 || op is Leave
}

/// The state after a stack operation; a popped word is written under the
/// segment override `seg`.
pub open spec fn stack_op(st: State, op: Op, ps: ParameterSet, seg: Segment) -> State {
    match op {
        Op::Push16 => push16_state(st, read_value(st.regs, st.mem, ps.dst) as u16),
        Op::Push32 => push32_state(st, read_value(st.regs, st.mem, ps.dst) as u32),
        Op::Pop16 => write16(pop16_state(st), seg, ps.dst, top16(st)),
        Op::Pop32 => write32(pop32_state(st), ps.dst, top32(st)),
        Op::Pushf => push16_state(st, st.regs.flags.spec_u16()),
        Op::Popf => {
            let s = pop16_state(st);
            State { regs: RegsView { flags: Flags::spec_from_u16(top16(st)), ..s.regs }, ..s }
        },
        Op::Pusha16 => pusha16_state(st),
        Op::Popa16 => popa16_state(st),
        Op::Pushad32 => pushad32_state(st),
        Op::Popad32 => popad32_state(st),
        _ => {
            let s = State { regs: st.regs.with_r16(R::SP, st.regs.r16(R::BP)), ..st };
            pop_into16(s, R::BP)
        },
    }
}

/// The operand of a stack operation can be read or written as it needs.
pub open spec fn stack_defined(op: Op, ps: ParameterSet) -> bool {
    match op {
        Op::Push16 | Op::Push32 => readable(ps.dst),
        Op::Pop16 => writable16(ps.dst),
        Op::Pop32 => writable32(ps.dst),
        _ => true,
    }
}

/// `popf` after `pushf` gives back every flag and register as they were.
pub proof fn lemma_pushf_popf(st: State, ps: ParameterSet, seg: Segment)
    requires
        st.regs.wf(),
        st.mem.len() == crate::memory::MEMORY_SIZE,
        st.regs.flags.iopl < 4,
    ensures
        stack_op(stack_op(st, Op::Pushf, ps, seg), Op::Popf, ps, seg).regs == st.regs,
{
    lemma_push_pop16(st, st.regs.flags.spec_u16());
    crate::cpu::flag::lemma_flags_unpack_pack(st.regs.flags);
}

/// A push moves SP down by two, keeps every other 16-bit register, and
/// changes no word at an offset of the parity of SP other than the one it
/// writes.
proof fn lemma_push16_frame(s: State, w: u16)
    requires
        s.regs.wf(),
        s.mem.len() == crate::memory::MEMORY_SIZE,
    ensures
        push16_state(s, w).regs.wf(),
        push16_state(s, w).regs.r16(R::SS) == s.regs.r16(R::SS),
        push16_state(s, w).regs.r16(R::SP) == s.regs.r16(R::SP).wrapping_sub(2),
        forall|r2: R| r2.is_r16() && !(r2 is SP) ==> #[trigger] push16_state(s, w).regs.r16(r2) == s.regs.r16(r2),
        push16_state(s, w).mem.len() == s.mem.len(),
        forall|o: u16|
            o % 2 == s.regs.r16(R::SP) % 2 && o != s.regs.r16(R::SP).wrapping_sub(2) ==> #[trigger] word_at(
                push16_state(s, w).mem,
                flat(s.regs.r16(R::SS), o),
            ) == word_at(s.mem, flat(s.regs.r16(R::SS), o)),
{
    let sp = s.regs.r16(R::SP).wrapping_sub(2);
    crate::cpu::register::lemma_write_read_r16(s.regs, R::SP, sp);
    let ss = s.regs.r16(R::SS);
    crate::memory::lemma_write_read(s.mem, ss, sp, 0, w);
}

/// Popping into the register `r`, from a state with the registers a push
/// left and the value of `r` on top, gives back the registers from before
/// the push.
proof fn lemma_pop_into_back(q: State, before: State, w: u16, r: R)
    requires
        before.regs.wf(),
        before.mem.len() == crate::memory::MEMORY_SIZE,
        q.regs == push16_state(before, w).regs,
        top16(q) == before.regs.r16(r),
        r.is_r16(),
    ensures
        pop_into16(q, r).regs == before.regs,
        pop_into16(q, r).mem == q.mem,
{
    lemma_push_pop16(before, w);
    assert(pop16_state(q).regs == before.regs);
    crate::cpu::register::lemma_overwrite_r16(before.regs, r, before.regs.r16(r), before.regs.r16(r));
}

/// After `pusha`, the eight words sit on the stack below the old SP.
#[verifier::rlimit(60)]
proof fn lemma_pusha_frame(st: State)
    requires
        st.regs.wf(),
        st.mem.len() == crate::memory::MEMORY_SIZE,
    ensures
        ({
            let r = st.regs;
            let ss = r.r16(R::SS);
            let sp = r.r16(R::SP);
            let m = pusha16_state(st).mem;
            &&& word_at(m, flat(ss, sp.wrapping_sub(2))) == r.r16(R::AX)
            &&& word_at(m, flat(ss, sp.wrapping_sub(4))) == r.r16(R::CX)
            &&& word_at(m, flat(ss, sp.wrapping_sub(6))) == r.r16(R::DX)
            &&& word_at(m, flat(ss, sp.wrapping_sub(8))) == r.r16(R::BX)
            &&& word_at(m, flat(ss, sp.wrapping_sub(12))) == r.r16(R::BP)
            &&& word_at(m, flat(ss, sp.wrapping_sub(14))) == r.r16(R::SI)
            &&& word_at(m, flat(ss, sp.wrapping_sub(16))) == r.r16(R::DI)
        }),
{
    let r = st.regs;
    let ss = r.r16(R::SS);
    let sp = r.r16(R::SP);
    let p1 = push16_state(st, r.r16(R::AX));
    let p2 = push16_state(p1, r.r16(R::CX));
    let p3 = push16_state(p2, r.r16(R::DX));
    let p4 = push16_state(p3, r.r16(R::BX));
    let p5 = push16_state(p4, r.r16(R::SP));
    let p6 = push16_state(p5, r.r16(R::BP));
    let p7 = push16_state(p6, r.r16(R::SI));
    let p8 = push16_state(p7, r.r16(R::DI));
    assert(p8 == pusha16_state(st));
    lemma_push16_frame(st, r.r16(R::AX));
    lemma_push16_frame(p1, r.r16(R::CX));
    lemma_push16_frame(p2, r.r16(R::DX));
    lemma_push16_frame(p3, r.r16(R::BX));
    lemma_push16_frame(p4, r.r16(R::SP));
    lemma_push16_frame(p5, r.r16(R::BP));
    lemma_push16_frame(p6, r.r16(R::SI));
    lemma_push16_frame(p7, r.r16(R::DI));
    lemma_push_pop16(st, r.r16(R::AX));
    lemma_push_pop16(p1, r.r16(R::CX));
    lemma_push_pop16(p2, r.r16(R::DX));
    lemma_push_pop16(p3, r.r16(R::BX));
    lemma_push_pop16(p5, r.r16(R::BP));
    lemma_push_pop16(p6, r.r16(R::SI));
    lemma_push_pop16(p7, r.r16(R::DI));
    let a1 = flat(ss, sp.wrapping_sub(2));
    let a2 = flat(ss, sp.wrapping_sub(4));
    let a3 = flat(ss, sp.wrapping_sub(6));
    let a4 = flat(ss, sp.wrapping_sub(8));
    let a6 = flat(ss, sp.wrapping_sub(12));
    let a7 = flat(ss, sp.wrapping_sub(14));
    let a8 = flat(ss, sp.wrapping_sub(16));
    assert(word_at(p8.mem, a1) == word_at(p1.mem, a1));
    assert(word_at(p8.mem, a2) == word_at(p2.mem, a2));
    assert(word_at(p8.mem, a3) == word_at(p3.mem, a3));
    assert(word_at(p8.mem, a4) == word_at(p4.mem, a4));
    assert(word_at(p8.mem, a6) == word_at(p6.mem, a6));
    assert(word_at(p8.mem, a7) == word_at(p7.mem, a7));
}

/// `popa` after `pusha` gives back every register as it was.
#[verifier::rlimit(60)]
pub proof fn lemma_pusha_popa(st: State)
    requires
        st.regs.wf(),
        st.mem.len() == crate::memory::MEMORY_SIZE,
    ensures
        popa16_state(pusha16_state(st)).regs == st.regs,
{
    let r = st.regs;
    let ss = r.r16(R::SS);
    let sp = r.r16(R::SP);
    let p1 = push16_state(st, r.r16(R::AX));
    let p2 = push16_state(p1, r.r16(R::CX));
    let p3 = push16_state(p2, r.r16(R::DX));
    let p4 = push16_state(p3, r.r16(R::BX));
    let p5 = push16_state(p4, r.r16(R::SP));
    let p6 = push16_state(p5, r.r16(R::BP));
    let p7 = push16_state(p6, r.r16(R::SI));
    let p8 = push16_state(p7, r.r16(R::DI));
    assert(p8 == pusha16_state(st));
    lemma_pusha_frame(st);
    lemma_push16_frame(st, r.r16(R::AX));
    lemma_push16_frame(p1, r.r16(R::CX));
    lemma_push16_frame(p2, r.r16(R::DX));
    lemma_push16_frame(p3, r.r16(R::BX));
    lemma_push16_frame(p4, r.r16(R::SP));
    lemma_push16_frame(p5, r.r16(R::BP));
    lemma_push16_frame(p6, r.r16(R::SI));
    lemma_push16_frame(p7, r.r16(R::DI));
    // DI, SI and BP come back
    lemma_pop_into_back(p8, p7, r.r16(R::DI), R::DI);
    let q1 = pop_into16(p8, R::DI);
    lemma_pop_into_back(q1, p6, r.r16(R::SI), R::SI);
    let q2 = pop_into16(q1, R::SI);
    lemma_pop_into_back(q2, p5, r.r16(R::BP), R::BP);
    let q3 = pop_into16(q2, R::BP);
    // the saved SP is skipped
    let skipped = State { regs: q3.regs.with_r16(R::SP, q3.regs.r16(R::SP).wrapping_add(2)), ..q3 };
    crate::cpu::register::lemma_overwrite_r16(p4.regs, R::SP, sp.wrapping_sub(10), sp.wrapping_sub(8));
    crate::cpu::register::lemma_overwrite_r16(p3.regs, R::SP, sp.wrapping_sub(8), sp.wrapping_sub(8));
    assert(skipped.regs == p4.regs);
    // BX, DX, CX and AX come back
    lemma_pop_into_back(skipped, p3, r.r16(R::BX), R::BX);
    let q4 = pop_into16(skipped, R::BX);
    lemma_pop_into_back(q4, p2, r.r16(R::DX), R::DX);
    let q5 = pop_into16(q4, R::DX);
    lemma_pop_into_back(q5, p1, r.r16(R::CX), R::CX);
    let q6 = pop_into16(q5, R::CX);
    lemma_pop_into_back(q6, st, r.r16(R::AX), R::AX);
}

impl CPU {
    fn pop_into_r16(&mut self, mem: &Memory, r: R)
        requires
            r.is_r16(),
        ensures
            final(self).state(mem) == pop_into16(old(self).state(mem), r),
            final(self).same_but_regs(*old(self)),
    {
        let v = self.pop16(mem);
        self.set_r16(r, v);
    }

    fn pop_into_r32(&mut self, mem: &Memory, r: R)
        requires
            r.is_r32(),
        ensures
            final(self).state(mem) == pop_into32(old(self).state(mem), r),
            final(self).same_but_regs(*old(self)),
    {
        let v = self.pop32(mem);
        self.set_r32(r, v);
    }

    fn pusha16(&mut self, mem: &mut Memory)
        ensures
            final(self).state(final(mem)) == pusha16_state(old(self).state(old(mem))),
            final(self).same_but_regs(*old(self)),
    {
        let ax = self.get_r16(R::AX);
        let cx = self.get_r16(R::CX);
        let dx = self.get_r16(R::DX);
        let bx = self.get_r16(R::BX);
        let sp = self.get_r16(R::SP);
        let bp = self.get_r16(R::BP);
        let si = self.get_r16(R::SI);
        let di = self.get_r16(R::DI);
        self.push16(mem, ax);
        self.push16(mem, cx);
        self.push16(mem, dx);
        self.push16(mem, bx);
        self.push16(mem, sp);
        self.push16(mem, bp);
        self.push16(mem, si);
        self.push16(mem, di);
    }

    fn popa16(&mut self, mem: &Memory)
        ensures
            final(self).state(mem) == popa16_state(old(self).state(mem)),
            final(self).same_but_regs(*old(self)),
    {
        self.pop_into_r16(mem, R::DI);
        self.pop_into_r16(mem, R::SI);
        self.pop_into_r16(mem, R::BP);
        // skip next word of stack
        let sp = self.get_r16(R::SP).wrapping_add(2);
        self.set_r16(R::SP, sp);
        self.pop_into_r16(mem, R::BX);
        self.pop_into_r16(mem, R::DX);
        self.pop_into_r16(mem, R::CX);
        self.pop_into_r16(mem, R::AX);
    }

    fn pushad32(&mut self, mem: &mut Memory)
        ensures
            final(self).state(final(mem)) == pushad32_state(old(self).state(old(mem))),
            final(self).same_but_regs(*old(self)),
    {
        let eax = self.get_r32(R::EAX);
        let ecx = self.get_r32(R::ECX);
        let edx = self.get_r32(R::EDX);
        let ebx = self.get_r32(R::EBX);
        let esp = self.get_r32(R::ESP);
        let ebp = self.get_r32(R::EBP);
        let esi = self.get_r32(R::ESI);
        let edi = self.get_r32(R::EDI);
        self.push32(mem, eax);
        self.push32(mem, ecx);
        self.push32(mem, edx);
        self.push32(mem, ebx);
        self.push32(mem, esp);
        self.push32(mem, ebp);
        self.push32(mem, esi);
        self.push32(mem, edi);
    }

    fn popad32(&mut self, mem: &Memory)
        ensures
            final(self).state(mem) == popad32_state(old(self).state(mem)),
            final(self).same_but_regs(*old(self)),
    {
        self.pop_into_r32(mem, R::EDI);
        self.pop_into_r32(mem, R::ESI);
        self.pop_into_r32(mem, R::EBP);
        // skip next dword of stack
        let esp = self.get_r32(R::ESP).wrapping_add(4);
        self.set_r32(R::ESP, esp);
        self.pop_into_r32(mem, R::EBX);
        self.pop_into_r32(mem, R::EDX);
        self.pop_into_r32(mem, R::ECX);
        self.pop_into_r32(mem, R::EAX);
    }

    /// Executes a stack operation.
    pub fn exec_stack_op(&mut self, mem: &mut Memory, seg: Segment, op: &Op, ps: &ParameterSet)
        requires
            is_stack_op(*op),
            stack_defined(*op, *ps),
        ensures
            final(self).state(final(mem)) == stack_op(old(self).state(old(mem)), *op, *ps, seg),
            final(self).same_but_regs(*old(self)),
    {
        match *op {
            Op::Push16 => {
                let data = self.read_parameter_value(mem, &ps.dst) as u16;
                self.push16(mem, data);
            },
            Op::Push32 => {
                let data = self.read_parameter_value(mem, &ps.dst) as u32;
                self.push32(mem, data);
            },
            Op::Pop16 => {
                let data = self.pop16(mem);
                self.write_parameter_u16(mem, seg, &ps.dst, data);
            },
            Op::Pop32 => {
                let data = self.pop32(mem);
                self.write_parameter_u32(mem, seg, &ps.dst, data);
            },
            Op::Pushf => {
                let data = self.regs.flags.u16();
                self.push16(mem, data);
            },
            Op::Popf => {
                let data = self.pop16(mem);
                let mut f = self.regs.flags;
                f.set_u16(data);
                self.set_flags(f);
            },
            Op::Pusha16 => self.pusha16(mem),
            Op::Popa16 => self.popa16(mem),
            Op::Pushad32 => self.pushad32(mem),
            Op::Popad32 => self.popad32(mem),
            _ => {
                // High Level Procedure Exit: set SP to BP, then pop BP.
                let bp = self.get_r16(R::BP);
                self.set_r16(R::SP, bp);
                self.pop_into_r16(mem, R::BP);
            },
        }
    }
}

} // verus!
