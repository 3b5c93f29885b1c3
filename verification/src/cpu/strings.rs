use vstd::prelude::*;

use crate::cpu::interpreter::{flags_sub16, flags_sub8, put32, seg_value, State, CPU};
use crate::cpu::op::Op;
use crate::cpu::register::{RegsView, R};
use crate::cpu::segment::Segment;
use crate::memory::{dword_at, flat, put16, put8, word_at, Memory};

verus! {

/// The registers with the index register `r` moved by `n` bytes: up when
/// the direction flag is clear, down when it is set.
pub open spec fn advance(regs: RegsView, r: R, n: u16) -> RegsView {
    let v = regs.r16(r);
    regs.with_r16(r, if !regs.flags.direction { v.wrapping_add(n) } else { v.wrapping_sub(n) })
}

/// The string operations.
pub open spec fn is_string_op(op: Op) -> bool {
    op is Stosb || op is Stosw || op is Stosd || op is Lodsb || op is Lodsw || op is Lodsd
        || op is Movsb || op is Movsw || op is Movsd || op is Scasb || op is Scasw || op is Cmpsw
}

/// The state after one step of a string operation; the source is read
/// from `seg`:SI, the destination is ES:DI.
pub open spec fn string_op(st: State, op: Op, seg: Segment) -> State {
    let r = st.regs;
    let es = r.r16(R::ES);
    let di = r.r16(R::DI);
    let src = flat(seg_value(r, seg), r.r16(R::SI));
    let dst = flat(es, di);
    match op {
        Op::Stosb => State { regs: advance(r, R::DI, 1), mem: put8(st.mem, es, di, r.r8(R::AL)) },
        Op::Stosw => State { regs: advance(r, R::DI, 2), mem: put16(st.mem, es, di, r.r16(R::AX)) },
        Op::Stosd => State {
            regs: advance(r, R::DI, 4),
            mem: put32(st.mem, es, di, r.r32(R::EAX)),
        },
        Op::Lodsb => State { regs: advance(r.with_r8(R::AL, st.mem[src]), R::SI, 1), ..st },
        Op::Lodsw => State { regs: advance(r.with_r16(R::AX, word_at(st.mem, src)), R::SI, 2), ..st },
        Op::Lodsd => State {
            regs: advance(r.with_r32(R::EAX, dword_at(st.mem, src)), R::SI, 4),
            ..st
        },
        Op::Movsb => State {
            regs: advance(advance(r, R::SI, 1), R::DI, 1),
            mem: put8(st.mem, es, di, st.mem[src]),
        },
        Op::Movsw => State {
            regs: advance(advance(r, R::SI, 2), R::DI, 2),
            mem: put16(st.mem, es, di, word_at(st.mem, src)),
        },
        Op::Movsd => State {
            regs: advance(advance(r, R::SI, 4), R::DI, 4),
            mem: put32(st.mem, es, di, dword_at(st.mem, src)),
        },
        Op::Scasb => {
            let f = flags_sub8(r.flags, st.mem[dst] as usize, r.r8(R::AL) as usize);
            State { regs: advance(RegsView { flags: f, ..r }, R::DI, 1), ..st }
        },
        Op::Scasw => {
            let f = flags_sub16(r.flags, word_at(st.mem, dst) as usize, r.r16(R::AX) as usize);
            State { regs: advance(RegsView { flags: f, ..r }, R::DI, 2), ..st }
        },
        _ => {
            let f = flags_sub16(
                r.flags,
                word_at(st.mem, dst) as usize,
                word_at(st.mem, src) as usize,
            );
            State { regs: advance(advance(RegsView { flags: f, ..r }, R::SI, 2), R::DI, 2), ..st }
        },
    }
}

impl CPU {
    /// Moves the index register `r` by `n` bytes in the direction the
    /// direction flag gives.
    pub(crate) fn advance(&mut self, r: R, n: u16)
        requires
            r is SI || r is DI,
        ensures
            final(self).regs@ == advance(old(self).regs@, r, n),
            final(self).same_but_regs(*old(self)),
    {
        let v = if !self.regs.flags.direction {
            self.get_r16(r).wrapping_add(n)
        } else {
            self.get_r16(r).wrapping_sub(n)
        };
        self.set_r16(r, v);
    }

    /// The destination and source a scan or compare step reads, widened.
    fn scan_operands(&self, mem: &Memory, seg: Segment, op: &Op) -> (r: (usize, usize))
        requires
            op is Scasb || op is Scasw || op is Cmpsw,
        ensures
            ({
                let regs = self.regs@;
                let dst = flat(regs.r16(R::ES), regs.r16(R::DI));
                let src = flat(seg_value(regs, seg), regs.r16(R::SI));
                r == match *op {
                    Op::Scasb => (mem@[dst] as usize, regs.r8(R::AL) as usize),
                    Op::Scasw => (word_at(mem@, dst) as usize, regs.r16(R::AX) as usize),
                    _ => (word_at(mem@, dst) as usize, word_at(mem@, src) as usize),
                }
            }),
    {
        match *op {
            Op::Scasb => (
                mem.read_u8(self.get_r16(R::ES), self.get_r16(R::DI)) as usize,
                self.get_r8(R::AL) as usize,
            ),
            Op::Scasw => (
                mem.read_u16(self.get_r16(R::ES), self.get_r16(R::DI)) as usize,
                self.get_r16(R::AX) as usize,
            ),
            _ => (
                mem.read_u16(self.get_r16(R::ES), self.get_r16(R::DI)) as usize,
                mem.read_u16(self.segment(seg), self.get_r16(R::SI)) as usize,
            ),
        }
    }

    /// `scasb` and `scasw` compare AL or AX with the byte or word at ES:DI;
    /// `cmpsw` compares the word at `seg`:SI with the word at ES:DI.
    fn exec_scan(&mut self, mem: &Memory, seg: Segment, op: &Op)
        requires
            op is Scasb || op is Scasw || op is Cmpsw,
        ensures
            final(self).state(mem) == string_op(old(self).state(mem), *op, seg),
            final(self).same_but_regs(*old(self)),
    {
        let (dst, src) = self.scan_operands(mem, seg, op);
        match *op {
            Op::Scasb => {
                self.cmp8(dst, src);
                self.advance(R::DI, 1);
            },
            Op::Scasw => {
                self.cmp16(dst, src);
                self.advance(R::DI, 2);
            },
            _ => {
                self.cmp16(dst, src);
                self.advance(R::SI, 2);
                self.advance(R::DI, 2);
            },
        }
    }

    /// Executes one step of a string operation; `seg` is the source
    /// segment, which a prefix may override (ES for the destination cannot
    /// be overridden).
    pub fn exec_string_op(&mut self, mem: &mut Memory, seg: Segment, op: &Op)
        requires
            is_string_op(*op),
        ensures
            final(self).state(final(mem)) == string_op(old(self).state(old(mem)), *op, seg),
            final(self).same_but_regs(*old(self)),
    {
        match *op {
            Op::Stosb => {
                // store AL at ES:(E)DI
                let al = self.get_r8(R::AL);
                let es = self.get_r16(R::ES);
                let di = self.get_r16(R::DI);
                mem.write_u8(es, di, al);
                self.advance(R::DI, 1);
            },
            Op::Stosw => {
                // store AX at address ES:(E)DI
                let ax = self.get_r16(R::AX);
                let es = self.get_r16(R::ES);
                let di = self.get_r16(R::DI);
                mem.write_u16(es, di, ax);
                self.advance(R::DI, 2);
            },
            Op::Stosd => {
                // store EAX at address ES:(E)DI
                let eax = self.get_r32(R::EAX);
                let es = self.get_r16(R::ES);
                let di = self.get_r16(R::DI);
                mem.write_u32(es, di, eax);
                self.advance(R::DI, 4);
            },
            Op::Lodsb => {
                // Load byte at address DS:(E)SI into AL.
                let val = mem.read_u8(self.segment(seg), self.get_r16(R::SI));
                self.set_r8(R::AL, val);
                self.advance(R::SI, 1);
            },
            Op::Lodsw => {
                // Load word at address DS:(E)SI into AX.
                let val = mem.read_u16(self.segment(seg), self.get_r16(R::SI));
                self.set_r16(R::AX, val);
                self.advance(R::SI, 2);
            },
            Op::Lodsd => {
                // Load dword at address DS:(E)SI into EAX.
                let val = mem.read_u32(self.segment(seg), self.get_r16(R::SI));
                self.set_r32(R::EAX, val);
                self.advance(R::SI, 4);
            },
            Op::Movsb => {
                // move byte from address DS:(E)SI to ES:(E)DI.
                let val = mem.read_u8(self.segment(seg), self.get_r16(R::SI));
                self.advance(R::SI, 1);
                let es = self.get_r16(R::ES);
                let di = self.get_r16(R::DI);
                mem.write_u8(es, di, val);
                self.advance(R::DI, 1);
            },
            Op::Movsw => {
                // move word from address DS:(E)SI to ES:(E)DI.
                let val = mem.read_u16(self.segment(seg), self.get_r16(R::SI));
                self.advance(R::SI, 2);
                let es = self.get_r16(R::ES);
                let di = self.get_r16(R::DI);
                mem.write_u16(es, di, val);
                self.advance(R::DI, 2);
            },
            Op::Movsd => {
                // move dword from address DS:(E)SI to ES:(E)DI
                let val = mem.read_u32(self.segment(seg), self.get_r16(R::SI));
                self.advance(R::SI, 4);
                let es = self.get_r16(R::ES);
                let di = self.get_r16(R::DI);
                mem.write_u32(es, di, val);
                self.advance(R::DI, 4);
            },
            _ => self.exec_scan(mem, seg, op),
        }
    }
}

} // verus!
