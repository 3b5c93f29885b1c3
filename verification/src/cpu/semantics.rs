//! What single instructions do to the machine, stated in terms of the
//! values they read and write, over every state: the meaning of the
//! operations that `step` (and so `CPU::execute`) carries out.

use vstd::prelude::*;

use crate::cpu::alu::{binop16, binop8, is_binop16, is_binop8, is_unop, unop};
use crate::cpu::arith::{is_muldiv, muldiv};
use crate::cpu::control::{is_jump, is_loop, jump, loop_state, with_ip};
use crate::cpu::execute::{operate, repeat, step, Outcome, Step};
use crate::cpu::instruction::{InstructionView, RepeatMode};
use crate::cpu::instruction::Instruction;
use crate::cpu::interpreter::State;
use crate::cpu::op::{Op, OpView};
use crate::cpu::parameter::Parameter;
use crate::cpu::register::{lemma_write_read_r16, lemma_write_read_r8, RegsView, R};
use crate::cpu::strings::{is_string_op, string_op};
use crate::cpu::transfer::{is_register_op, is_transfer, register_op, transfer};
use crate::memory::{flat, MemoryAddress};

verus! {

/// Bit `k` of a byte is set.
pub open spec fn bit8(x: u8, k: u8) -> bool {
    (x >> k) & 1 == 1
}

/// The state after IP moved past an instruction of `length` bytes.
pub open spec fn past(st: State, length: u8) -> State {
    with_ip(st, st.regs.ip.wrapping_add(length as u16))
}

/// The byte an 8-bit source operand holds: a byte register or an immediate.
pub open spec fn byte_operand(regs: RegsView, p: Parameter) -> u8 {
    match p {
        Parameter::Reg8(r) => regs.r8(r),
        Parameter::Imm8(v) => v,
        _ => 0,
    }
}

/// A byte register or an immediate byte.
pub open spec fn is_byte_operand(p: Parameter) -> bool {
    p matches Parameter::Reg8(r) && r.is_r8() || p is Imm8
}

/// The bits of the conjunction, disjunction and exclusive disjunction of
/// two bytes, and the same operations done on their machine-word widenings.
proof fn lemma_logic_bits8(a: u8, b: u8)
    by (bit_vector)
    ensures
        ((a as usize & b as usize) as u8) == a & b,
        ((a as usize | b as usize) as u8) == a | b,
        ((a as usize ^ b as usize) as u8) == a ^ b,
        ((a as usize & b as usize) & 0xFF == 0) == (a & b == 0),
        ((a as usize | b as usize) & 0xFF == 0) == (a | b == 0),
        ((a as usize ^ b as usize) & 0xFF == 0) == (a ^ b == 0),
        forall|k: u8| k < 8 ==> ((((a & b) >> k) & 1 == 1) == (((a >> k) & 1 == 1) && ((b >> k) & 1 == 1))),
        forall|k: u8| k < 8 ==> ((((a | b) >> k) & 1 == 1) == (((a >> k) & 1 == 1) || ((b >> k) & 1 == 1))),
        forall|k: u8| k < 8 ==> ((((a ^ b) >> k) & 1 == 1) == (((a >> k) & 1 == 1) != ((b >> k) & 1 == 1))),
{
}

#[verifier::rlimit(50)]
proof fn lemma_operate_binop8(s: State, fa: MemoryAddress, i: Instruction)
    requires
        is_binop8(i.command),
    ensures
        operate(s, fa, i) == (Step {
            state: binop8(s, i.command, i.params),
            flags_address: fa,
            outcome: Outcome::Done,
            repeats: true,
        }),
{
    reveal(operate);
}

/// `and`, `or` and `xor` of a byte register with a byte register or an
/// immediate: each bit of the result is the conjunction, the disjunction or
/// the exclusive disjunction of the bits of the two operands; carry and
/// overflow are cleared, ZF tells whether the result is 0, and the other
/// byte registers keep their values.
pub proof fn lemma_logic8_step(st: State, fa: MemoryAddress, i: Instruction, length: u8, d: R)
    requires
        st.regs.wf(),
        i.command is And8 || i.command is Or8 || i.command is Xor8,
        i.repeat is NoRepeat,
        d.is_r8(),
        i.params.dst == Parameter::Reg8(d),
        is_byte_operand(i.params.src),
    ensures
        ({
            let r = step(st, fa, i, length).state.regs;
            let a = st.regs.r8(d);
            let b = byte_operand(st.regs, i.params.src);
            let x = r.r8(d);
            &&& forall|k: u8| #![trigger bit8(x, k)] k < 8 ==> bit8(x, k) == if i.command is And8 {
                bit8(a, k) && bit8(b, k)
            } else if i.command is Or8 {
                bit8(a, k) || bit8(b, k)
            } else {
                bit8(a, k) != bit8(b, k)
            }
            &&& !r.flags.carry && !r.flags.overflow
            &&& r.flags.zero == (x == 0)
            &&& r.ip == st.regs.ip.wrapping_add(length as u16)
            &&& forall|r2: R| r2.is_r8() && r2 != d ==> #[trigger] r.r8(r2) == st.regs.r8(r2)
        }),
{
    let s = past(st, length);
    lemma_operate_binop8(s, fa, i);
    let a = st.regs.r8(d);
    let b = byte_operand(st.regs, i.params.src);
    let au = a as usize;
    let bu = b as usize;
    let res: usize = if i.command is And8 {
        au & bu
    } else if i.command is Or8 {
        au | bu
    } else {
        au ^ bu
    };
    let x = res as u8;
    lemma_logic_bits8(a, b);
    let fl = crate::cpu::alu::flags_logic8(st.regs.flags, res);
    let s2 = State { regs: RegsView { flags: fl, ..s.regs }, ..s };
    lemma_write_read_r8(s2.regs, d, x);
}

#[verifier::rlimit(50)]
proof fn lemma_operate_jump(s: State, fa: MemoryAddress, i: Instruction)
    requires
        is_jump(i.command),
    ensures
        operate(s, fa, i) == (Step {
            state: jump(s, i.command, i.params),
            flags_address: fa,
            outcome: Outcome::Done,
            repeats: true,
        }),
{
    reveal(operate);
}

/// Whether a conditional jump is taken, as the processor manual defines its
/// condition on the flags (and, for `jcxz`, on CX).
pub open spec fn condition_holds(op: Op, carry: bool, zero: bool, sign: bool, overflow: bool, parity: bool, cx: u16) -> bool {
    match op {
        // above: unsigned greater
        Op::Ja => !carry && !zero,
        // not above: unsigned less or equal
        Op::Jna => carry || zero,
        // carry: unsigned below
        Op::Jc => carry,
        Op::Jnc => !carry,
        Op::Jz => zero,
        Op::Jnz => !zero,
        Op::Js => sign,
        Op::Jns => !sign,
        Op::Jo => overflow,
        Op::Jno => !overflow,
        // less: signed less
        Op::Jl => sign != overflow,
        Op::Jnl => sign == overflow,
        Op::Jpe => parity,
        Op::Jpo => !parity,
        Op::Jcxz => cx == 0,
        _ => false,
    }
}

/// A conditional jump to the immediate target `t` goes to `t` when its
/// condition holds, and to the instruction after it otherwise; a `ja` with
/// ZF or CF set falls through. Nothing but IP changes.
pub proof fn lemma_conditional_jump_step(st: State, fa: MemoryAddress, i: Instruction, length: u8, t: u16)
    requires
        i.command is Ja || i.command is Jna || i.command is Jc || i.command is Jnc || i.command is Jz
            || i.command is Jnz || i.command is Js || i.command is Jns || i.command is Jo
            || i.command is Jno || i.command is Jl || i.command is Jnl || i.command is Jpe
            || i.command is Jpo || i.command is Jcxz,
        i.repeat is NoRepeat,
        i.params.dst == Parameter::Imm16(t),
    ensures
        ({
            let r = step(st, fa, i, length).state;
            let f = st.regs.flags;
            &&& r.regs.ip == if condition_holds(i.command, f.carry, f.zero, f.sign, f.overflow, f.parity, st.regs.r16(R::CX)) {
                t
            } else {
                st.regs.ip.wrapping_add(length as u16)
            }
            &&& r.regs.flags == f
            &&& r.regs.gpr == st.regs.gpr
            &&& r.regs.sreg == st.regs.sreg
            &&& r.mem == st.mem
        }),
{
    lemma_operate_jump(past(st, length), fa, i);
}

#[verifier::rlimit(50)]
proof fn lemma_operate_string(s: State, fa: MemoryAddress, i: Instruction)
    requires
        is_string_op(i.command),
    ensures
        operate(s, fa, i) == (Step {
            state: string_op(s, i.command, i.segment_prefix),
            flags_address: fa,
            outcome: Outcome::Done,
            repeats: true,
        }),
{
    reveal(operate);
}

/// How many bytes a string instruction moves its index registers by.
pub open spec fn element_size(op: Op) -> u16 {
    if op is Stosb || op is Lodsb || op is Movsb || op is Scasb {
        1
    } else if op is Stosd || op is Lodsd || op is Movsd {
        4
    } else {
        2
    }
}

/// The string instructions that read from DS:SI.
pub open spec fn reads_source(op: Op) -> bool {
    op is Lodsb || op is Lodsw || op is Lodsd || op is Movsb || op is Movsw || op is Movsd || op is Cmpsw
}

/// The string instructions that read or write ES:DI.
pub open spec fn uses_destination(op: Op) -> bool {
    op is Stosb || op is Stosw || op is Stosd || op is Movsb || op is Movsw || op is Movsd
        || op is Scasb || op is Scasw || op is Cmpsw
}

/// An index register moved by `n`: up when the direction flag is clear,
/// down when it is set, within the segment.
pub open spec fn moved(x: u16, n: u16, down: bool) -> u16 {
    if down {
        x.wrapping_sub(n)
    } else {
        x.wrapping_add(n)
    }
}

/// A string instruction moves SI when it reads DS:SI and DI when it uses
/// ES:DI, each by the size of its element, upwards while the direction flag
/// is clear and downwards while it is set; `lodsb` and `lodsw` load AL and
/// AX (low byte first) from DS:SI. The segment registers stay.
#[verifier::spinoff_prover]
#[verifier::rlimit(60)]
pub proof fn lemma_string_step(st: State, fa: MemoryAddress, i: Instruction, length: u8)
    requires
        st.regs.wf(),
        is_string_op(i.command),
        i.repeat is NoRepeat,
        i.segment_prefix is Default,
    ensures
        ({
            let r = step(st, fa, i, length).state.regs;
            let op = i.command;
            let down = st.regs.flags.direction;
            let si = st.regs.r16(R::SI);
            let di = st.regs.r16(R::DI);
            let a = flat(st.regs.r16(R::DS), si);
            let n = element_size(op);
            &&& r.r16(R::SI) == if reads_source(op) { moved(si, n, down) } else { si }
            &&& r.r16(R::DI) == if uses_destination(op) { moved(di, n, down) } else { di }
            &&& r.ip == st.regs.ip.wrapping_add(length as u16)
            &&& r.sreg == st.regs.sreg
            &&& r.flags.direction == down
            &&& op is Lodsb ==> r.r8(R::AL) == st.mem[a]
            &&& op is Lodsw ==> r.r16(R::AX) == st.mem[a] + 256 * st.mem[a + 1]
        }),
{
    let s = past(st, length);
    lemma_operate_string(s, fa, i);
    let rg = s.regs;
    let op = i.command;
    let a = flat(st.regs.r16(R::DS), st.regs.r16(R::SI));
    let ghost base: RegsView = if op is Lodsb {
        rg.with_r8(R::AL, st.mem[a])
    } else if op is Lodsw {
        rg.with_r16(R::AX, crate::memory::word_at(st.mem, a))
    } else if op is Lodsd {
        rg.with_r32(R::EAX, crate::memory::dword_at(st.mem, a))
    } else if op is Scasb || op is Scasw || op is Cmpsw {
        RegsView { flags: string_op(s, op, i.segment_prefix).regs.flags, ..rg }
    } else {
        rg
    };
    if op is Lodsb {
        lemma_write_read_r8(rg, R::AL, st.mem[a]);
    } else if op is Lodsw {
        lemma_write_read_r16(rg, R::AX, crate::memory::word_at(st.mem, a));
    } else if op is Lodsd {
        crate::cpu::register::lemma_write_read_r32(rg, R::EAX, crate::memory::dword_at(st.mem, a));
    }
    assert(base.wf());
    assert(base.r16(R::SI) == st.regs.r16(R::SI));
    assert(base.r16(R::DI) == st.regs.r16(R::DI));
    assert(base.flags.direction == st.regs.flags.direction);
    let n = element_size(op);
    let down = st.regs.flags.direction;
    if reads_source(op) {
        let si2 = moved(st.regs.r16(R::SI), n, down);
        lemma_write_read_r16(base, R::SI, si2);
        let b2 = base.with_r16(R::SI, si2);
        if uses_destination(op) {
            lemma_write_read_r16(b2, R::DI, moved(st.regs.r16(R::DI), n, down));
        }
    } else {
        lemma_write_read_r16(base, R::DI, moved(st.regs.r16(R::DI), n, down));
    }
}

/// The word a repeat mode puts in front of an operation's name, with the
/// space after it: "Rep ", "Repe ", "Repne ", or nothing.
pub open spec fn repeat_word(m: RepeatMode) -> Seq<char> {
    match m {
        RepeatMode::NoRepeat => seq![],
        RepeatMode::Rep => seq!['R', 'e', 'p', ' '],
        RepeatMode::Repe => seq!['R', 'e', 'p', 'e', ' '],
        RepeatMode::Repne => seq!['R', 'e', 'p', 'n', 'e', ' '],
    }
}

/// The text of an instruction without a segment override (what
/// `Instruction::to_string` gives) begins with the word of its repeat mode,
/// followed at once by the name of its operation; so `rep movsb` reads
/// "Rep Movsb" and the repeat modes read differently.
pub proof fn lemma_repeat_text(i: InstructionView)
    requires
        i.segment_prefix is Default,
    ensures
        ({
            let t = crate::cpu::format::instruction_text(i);
            let w = repeat_word(i.repeat);
            let name = crate::cpu::format::op_text(i.command);
            &&& w.len() + name.len() <= t.len()
            &&& t.subrange(0, w.len() as int) == w
            &&& t.subrange(w.len() as int, (w.len() + name.len()) as int) == name
        }),
{
    reveal_strlit("");
    reveal_strlit("Rep ");
    reveal_strlit("Repe ");
    reveal_strlit("Repne ");
    let w = repeat_word(i.repeat);
    let name = crate::cpu::format::op_text(i.command);
    let head = crate::cpu::format::repeat_text(i.repeat) + name;
    assert(crate::cpu::format::repeat_text(i.repeat) =~= w);
    let t = crate::cpu::format::instruction_text(i);
    let rest = t.subrange(head.len() as int, t.len() as int);
    assert(t =~= head + rest);
    assert(head.subrange(0, w.len() as int) =~= w);
    assert(t.subrange(0, w.len() as int) =~= w);
    assert(t.subrange(w.len() as int, (w.len() + name.len()) as int) =~= name);
}

#[verifier::rlimit(50)]
proof fn lemma_operate_register(s: State, fa: MemoryAddress, i: Instruction)
    requires
        is_register_op(i.command),
    ensures
        operate(s, fa, i) == (Step {
            state: State { regs: register_op(s.regs, i.command), ..s },
            flags_address: fa,
            outcome: Outcome::Done,
            repeats: true,
        }),
{
    reveal(operate);
}

/// `cbw` sign-extends AL into AX: read as signed numbers, AX equals AL
/// (AH is 0xFF exactly when bit 7 of AL is set); `cwd` sign-extends AX into
/// DX:AX (DX is 0xFFFF exactly when bit 15 of AX is set). AL, AX and the
/// other word registers keep their values, and so do the flags.
pub proof fn lemma_sign_extend_step(st: State, fa: MemoryAddress, i: Instruction, length: u8)
    requires
        st.regs.wf(),
        i.command is Cbw || i.command is Cwd16,
        i.repeat is NoRepeat,
    ensures
        ({
            let r = step(st, fa, i, length).state.regs;
            let al = st.regs.r8(R::AL);
            let ax = st.regs.r16(R::AX);
            &&& i.command is Cbw ==> r.r16(R::AX) as i16 == al as i8
            &&& i.command is Cbw ==> r.r8(R::AL) == al
            &&& i.command is Cbw ==> forall|r2: R| r2.is_r16() && r2 != R::AX ==> #[trigger] r.r16(r2) == st.regs.r16(r2)
            &&& i.command is Cwd16 ==> r.r16(R::AX) == ax
            &&& i.command is Cwd16 ==> ((r.r16(R::DX) as u32) * 65536 + ax as u32) as i32 == ax as i16
            &&& i.command is Cwd16 ==> forall|r2: R| r2.is_r16() && r2 != R::DX ==> #[trigger] r.r16(r2) == st.regs.r16(r2)
            &&& r.flags == st.regs.flags
            &&& r.ip == st.regs.ip.wrapping_add(length as u16)
        }),
{
    let s = past(st, length);
    lemma_operate_register(s, fa, i);
    let rg = s.regs;
    if i.command is Cbw {
        let al = rg.r8(R::AL);
        let ah: u8 = if al & 0x80 != 0 { 0xFF } else { 0 };
        lemma_write_read_r8(rg, R::AH, ah);
        let g = rg.gpr[0];
        let g2 = rg.with_r8(R::AH, ah).gpr[0];
        assert(g2 == crate::cpu::register::with_hi8(g, ah));
        let ax2 = rg.with_r8(R::AH, ah).r16(R::AX);
        assert(ax2 == crate::cpu::register::lo16(g2));
        assert(al == crate::cpu::register::lo8(g));
        assert(ax2 == ah as u16 * 256 + al as u16) by (nonlinear_arith)
            requires
                g2 == ((g / 65536) * 65536 + ah * 256 + g % 256) as u32,
                ax2 == (g2 % 65536) as u16,
                al == (g % 256) as u8,
        {
            assert((g / 65536) * 65536 + ah * 256 + g % 256 < 0x1_0000_0000);
            assert(((g / 65536) * 65536 + ah * 256 + g % 256) % 65536 == ah * 256 + g % 256);
        }
        assert(ax2 as i16 == al as i8) by (bit_vector)
            requires
                ax2 == ah as u16 * 256 + al as u16,
                ah == if al & 0x80 != 0 { 0xFFu8 } else { 0u8 },
        ;
        assert(rg.with_r8(R::AH, ah).r8(R::AL) == al);
    } else {
        let ax = rg.r16(R::AX);
        let dx: u16 = if ax & 0x8000 != 0 { 0xFFFF } else { 0 };
        lemma_write_read_r16(rg, R::DX, dx);
        assert(((dx as u32) * 65536 + ax as u32) as i32 == ax as i16) by (bit_vector)
            requires
                dx == if ax & 0x8000 != 0 { 0xFFFFu16 } else { 0u16 },
        ;
    }
}

/// Bit `k` of a word is set.
pub open spec fn bit16(x: u16, k: u16) -> bool {
    (x >> k) & 1 == 1
}

/// The word a 16-bit source operand holds: a word register or an immediate.
pub open spec fn word_operand(regs: RegsView, p: Parameter) -> u16 {
    match p {
        Parameter::Reg16(r) => regs.r16(r),
        Parameter::Imm16(v) => v,
        _ => 0,
    }
}

/// A word register or an immediate word.
pub open spec fn is_word_operand(p: Parameter) -> bool {
    p matches Parameter::Reg16(r) && r.is_r16() || p is Imm16
}

/// The bits of the conjunction, disjunction and exclusive disjunction of
/// two words, and the same operations done on their machine-word widenings.
proof fn lemma_logic_bits16(a: u16, b: u16)
    by (bit_vector)
    ensures
        ((a as usize & b as usize) as u16) == a & b,
        ((a as usize | b as usize) as u16) == a | b,
        ((a as usize ^ b as usize) as u16) == a ^ b,
        ((a as usize & b as usize) & 0xFFFF == 0) == (a & b == 0),
        ((a as usize | b as usize) & 0xFFFF == 0) == (a | b == 0),
        ((a as usize ^ b as usize) & 0xFFFF == 0) == (a ^ b == 0),
        forall|k: u16| k < 16 ==> ((((a & b) >> k) & 1 == 1) == (((a >> k) & 1 == 1) && ((b >> k) & 1 == 1))),
        forall|k: u16| k < 16 ==> ((((a | b) >> k) & 1 == 1) == (((a >> k) & 1 == 1) || ((b >> k) & 1 == 1))),
        forall|k: u16| k < 16 ==> ((((a ^ b) >> k) & 1 == 1) == (((a >> k) & 1 == 1) != ((b >> k) & 1 == 1))),
{
}

#[verifier::rlimit(50)]
proof fn lemma_operate_binop16(s: State, fa: MemoryAddress, i: Instruction)
    requires
        is_binop16(i.command),
    ensures
        operate(s, fa, i) == (Step {
            state: binop16(s, i.command, i.params, i.segment_prefix),
            flags_address: fa,
            outcome: Outcome::Done,
            repeats: true,
        }),
{
    reveal(operate);
}

/// `and`, `or` and `xor` of a word register with a word register or an
/// immediate: each bit of the result is the conjunction, the disjunction or
/// the exclusive disjunction of the bits of the two operands; carry and
/// overflow are cleared, ZF tells whether the result is 0, and the other
/// word registers keep their values.
pub proof fn lemma_logic16_step(st: State, fa: MemoryAddress, i: Instruction, length: u8, d: R)
    requires
        st.regs.wf(),
        i.command is And16 || i.command is Or16 || i.command is Xor16,
        i.repeat is NoRepeat,
        d.is_r16(),
        i.params.dst == Parameter::Reg16(d),
        is_word_operand(i.params.src),
    ensures
        ({
            let r = step(st, fa, i, length).state.regs;
            let a = st.regs.r16(d);
            let b = word_operand(st.regs, i.params.src);
            let x = r.r16(d);
            &&& forall|k: u16| #![trigger bit16(x, k)] k < 16 ==> bit16(x, k) == if i.command is And16 {
                bit16(a, k) && bit16(b, k)
            } else if i.command is Or16 {
                bit16(a, k) || bit16(b, k)
            } else {
                bit16(a, k) != bit16(b, k)
            }
            &&& !r.flags.carry && !r.flags.overflow
            &&& r.flags.zero == (x == 0)
            &&& r.ip == st.regs.ip.wrapping_add(length as u16)
            &&& forall|r2: R| (r2.is_r16() || r2.is_sreg()) && r2 != d ==> #[trigger] r.r16(r2) == st.regs.r16(r2)
        }),
{
    let s = past(st, length);
    lemma_operate_binop16(s, fa, i);
    let a = st.regs.r16(d);
    let b = word_operand(st.regs, i.params.src);
    let au = a as usize;
    let bu = b as usize;
    let res: usize = if i.command is And16 {
        au & bu
    } else if i.command is Or16 {
        au | bu
    } else {
        au ^ bu
    };
    let x = res as u16;
    lemma_logic_bits16(a, b);
    let fl = crate::cpu::alu::flags_logic16(st.regs.flags, res);
    let s2 = State { regs: RegsView { flags: fl, ..s.regs }, ..s };
    lemma_write_read_r16(s2.regs, d, x);
}

/// `add` of a byte register and a byte register or an immediate: the
/// register gets the sum modulo 256, CF tells whether the sum exceeds 255,
/// and ZF whether the register became 0.
pub proof fn lemma_add8_step(st: State, fa: MemoryAddress, i: Instruction, length: u8, d: R)
    requires
        st.regs.wf(),
        i.command is Add8,
        i.repeat is NoRepeat,
        d.is_r8(),
        i.params.dst == Parameter::Reg8(d),
        is_byte_operand(i.params.src),
    ensures
        ({
            let r = step(st, fa, i, length).state.regs;
            let a = st.regs.r8(d);
            let b = byte_operand(st.regs, i.params.src);
            &&& r.r8(d) == (a + b) % 256
            &&& r.flags.carry == (a + b > 255)
            &&& r.flags.zero == ((a + b) % 256 == 0)
            &&& forall|r2: R| r2.is_r8() && r2 != d ==> #[trigger] r.r8(r2) == st.regs.r8(r2)
        }),
{
    let s = past(st, length);
    lemma_operate_binop8(s, fa, i);
    let a = st.regs.r8(d);
    let b = byte_operand(st.regs, i.params.src);
    let res: usize = (b as usize + a as usize) as usize;
    assert(res == a + b);
    assert((res & 0x100 != 0) == (res > 255) && (res & 0xFF == 0) == (res % 256 == 0) && (res as u8) == res % 256) by (bit_vector)
        requires
            res < 512,
    ;
    let fl = crate::cpu::alu::flags_add8(st.regs.flags, res, b as usize, a as usize);
    let s2 = State { regs: RegsView { flags: fl, ..s.regs }, ..s };
    lemma_write_read_r8(s2.regs, d, res as u8);
}

#[verifier::rlimit(50)]
proof fn lemma_operate_muldiv(s: State, fa: MemoryAddress, i: Instruction)
    requires
        is_muldiv(i.command),
    ensures
        operate(s, fa, i) == match muldiv(s, i.command, i.params, i.segment_prefix) {
            Some(t) => Step { state: t, flags_address: fa, outcome: Outcome::Done, repeats: true },
            None => Step { state: s, flags_address: fa, outcome: Outcome::Fault(crate::cpu::interpreter::Exception::DIV0), repeats: true },
        },
{
    reveal(operate);
}

/// `mul` of AL by a byte register: AX gets the full product, and CF and OF
/// tell whether it needs more than 8 bits.
pub proof fn lemma_mul8_step(st: State, fa: MemoryAddress, i: Instruction, length: u8, m: R)
    requires
        st.regs.wf(),
        i.command is Mul8,
        i.repeat is NoRepeat,
        m.is_r8(),
        i.params.dst == Parameter::Reg8(m),
    ensures
        ({
            let r = step(st, fa, i, length).state.regs;
            let p = st.regs.r8(R::AL) * st.regs.r8(m);
            &&& r.r16(R::AX) == p
            &&& r.flags.carry == (p > 255)
            &&& r.flags.overflow == (p > 255)
            &&& forall|r2: R| r2.is_r16() && r2 != R::AX ==> #[trigger] r.r16(r2) == st.regs.r16(r2)
        }),
{
    let s = past(st, length);
    lemma_operate_muldiv(s, fa, i);
    let al = st.regs.r8(R::AL);
    let v = st.regs.r8(m);
    let x = al as usize;
    let y = v as usize;
    assert(x * y <= 255 * 255) by (nonlinear_arith)
        requires x < 256, y < 256;
    let prod = x.wrapping_mul(y);
    assert(prod == x * y) by (nonlinear_arith)
        requires x < 256, y < 256, prod == x.wrapping_mul(y), x * y <= 65025;
    let ax = prod as u16;
    assert(ax == prod);
    assert((ax & 0xFF00 != 0) == (ax > 255)) by (bit_vector);
    lemma_write_read_r16(s.regs, R::AX, ax);
}

/// `div` of AX by a nonzero byte register whose quotient fits in a byte: AL
/// gets the quotient and AH the remainder.
pub proof fn lemma_div8_step(st: State, fa: MemoryAddress, i: Instruction, length: u8, m: R)
    requires
        st.regs.wf(),
        i.command is Div8,
        i.repeat is NoRepeat,
        m.is_r8(),
        i.params.dst == Parameter::Reg8(m),
        st.regs.r8(m) != 0,
        st.regs.r16(R::AX) / (st.regs.r8(m) as u16) <= 255,
    ensures
        ({
            let t = step(st, fa, i, length);
            let r = t.state.regs;
            let ax = st.regs.r16(R::AX);
            let v = st.regs.r8(m);
            &&& t.outcome == Outcome::Done
            &&& r.r8(R::AL) == ax / (v as u16)
            &&& r.r8(R::AH) == ax % (v as u16)
            &&& r.r8(R::AL) * v + r.r8(R::AH) == ax
            &&& r.r8(R::AH) < v
            &&& forall|r2: R| r2.is_r16() && r2 != R::AX ==> #[trigger] r.r16(r2) == st.regs.r16(r2)
        }),
{
    let s = past(st, length);
    lemma_operate_muldiv(s, fa, i);
    let ax = st.regs.r16(R::AX);
    let v = st.regs.r8(m) as u16;
    let q = (ax / v) as u8;
    let rem = (ax % v) as u8;
    lemma_write_read_r8(s.regs, R::AH, rem);
    let r1 = s.regs.with_r8(R::AH, rem);
    lemma_write_read_r8(r1, R::AL, q);
    assert((ax / v) * v + ax % v == ax) by (nonlinear_arith)
        requires v > 0;
}

/// `clc`, `stc` and `cmc` clear, set and flip CF; `cld` and `std` clear
/// and set DF; `cli` and `sti` clear and set IF. No other flag and no
/// register but IP changes.
pub proof fn lemma_flag_ops_step(st: State, fa: MemoryAddress, i: Instruction, length: u8)
    requires
        i.command is Clc || i.command is Stc || i.command is Cmc || i.command is Cld
            || i.command is Std || i.command is Cli || i.command is Sti,
        i.repeat is NoRepeat,
    ensures
        ({
            let r = step(st, fa, i, length).state;
            let f = st.regs.flags;
            let g = r.regs.flags;
            let op = i.command;
            &&& g.carry == if op is Clc { false } else if op is Stc { true } else if op is Cmc { !f.carry } else { f.carry }
            &&& g.direction == if op is Cld { false } else if op is Std { true } else { f.direction }
            &&& g.interrupt == if op is Cli { false } else if op is Sti { true } else { f.interrupt }
            &&& g.zero == f.zero && g.sign == f.sign && g.overflow == f.overflow && g.parity == f.parity
                && g.adjust == f.adjust && g.trap == f.trap
            &&& r.regs.gpr == st.regs.gpr
            &&& r.regs.sreg == st.regs.sreg
            &&& r.mem == st.mem
        }),
{
    lemma_operate_register(past(st, length), fa, i);
}

/// `sahf` followed by `lahf` gives AH back with the bits that hold no flag
/// fixed: bits 3 and 5 clear, bit 1 set.
pub proof fn lemma_sahf_lahf(st: State, fa: MemoryAddress, i: Instruction, j: Instruction, l1: u8, l2: u8)
    requires
        st.regs.wf(),
        i.command is Sahf,
        j.command is Lahf,
        i.repeat is NoRepeat,
        j.repeat is NoRepeat,
    ensures
        step(step(st, fa, i, l1).state, fa, j, l2).state.regs.r8(R::AH) == (st.regs.r8(R::AH) & 0xD5) | 0x02,
{
    let s1 = step(st, fa, i, l1).state;
    lemma_operate_register(past(st, l1), fa, i);
    lemma_operate_register(past(s1, l2), fa, j);
    let ah = st.regs.r8(R::AH);
    let f = s1.regs.flags;
    lemma_write_read_r8(past(s1, l2).regs, R::AH, crate::cpu::transfer::lahf_byte(f));
    let c = ah & 0x1 != 0;
    let p = ah & 0x4 != 0;
    let a = ah & 0x10 != 0;
    let z = ah & 0x40 != 0;
    let sg = ah & 0x80 != 0;
    assert((((if c { 1u8 } else { 0u8 }) | 2u8 | (if p { 4u8 } else { 0u8 }) | (if a { 0x10u8 } else { 0u8 })
        | (if z { 0x40u8 } else { 0u8 }) | (if sg { 0x80u8 } else { 0u8 })) as u8) == (ah & 0xD5) | 0x02) by (bit_vector)
        requires
            c == (ah & 0x1 != 0),
            p == (ah & 0x4 != 0),
            a == (ah & 0x10 != 0),
            z == (ah & 0x40 != 0),
            sg == (ah & 0x80 != 0),
    ;
}

#[verifier::rlimit(50)]
proof fn lemma_operate_transfer(s: State, fa: MemoryAddress, i: Instruction)
    requires
        is_transfer(i.command),
    ensures
        operate(s, fa, i) == (Step {
            state: transfer(s, i.command, i.params, i.segment_prefix),
            flags_address: fa,
            outcome: Outcome::Done,
            repeats: true,
        }),
{
    reveal(operate);
}

/// `mov` into a byte register copies the byte source, `mov` into a word
/// register copies the word source, and `xchg` of two word registers swaps
/// their values; the other registers and the flags stay.
pub proof fn lemma_move_step(st: State, fa: MemoryAddress, i: Instruction, length: u8, d: R)
    requires
        st.regs.wf(),
        i.repeat is NoRepeat,
        (i.command is Mov8 && i.params.dst == Parameter::Reg8(d) && d.is_r8() && is_byte_operand(i.params.src))
            || (i.command is Mov16 && i.params.dst == Parameter::Reg16(d) && d.is_r16() && is_word_operand(i.params.src))
            || (i.command is Xchg16 && i.params.dst == Parameter::Reg16(d) && d.is_r16()
                && i.params.src is Reg16 && i.params.src->Reg16_0.is_r16() && i.params.src->Reg16_0 != d),
    ensures
        ({
            let r = step(st, fa, i, length).state.regs;
            &&& i.command is Mov8 ==> r.r8(d) == byte_operand(st.regs, i.params.src)
                && forall|r2: R| r2.is_r8() && r2 != d ==> #[trigger] r.r8(r2) == st.regs.r8(r2)
            &&& i.command is Mov16 ==> r.r16(d) == word_operand(st.regs, i.params.src)
                && forall|r2: R| (r2.is_r16() || r2.is_sreg()) && r2 != d ==> #[trigger] r.r16(r2) == st.regs.r16(r2)
            &&& i.command is Xchg16 ==> r.r16(d) == word_operand(st.regs, i.params.src)
                && word_operand(r, i.params.src) == st.regs.r16(d)
                && forall|r2: R| (r2.is_r16() || r2.is_sreg()) && r2 != d && Parameter::Reg16(r2) != i.params.src
                    ==> #[trigger] r.r16(r2) == st.regs.r16(r2)
            &&& r.flags == st.regs.flags
        }),
{
    let s = past(st, length);
    lemma_operate_transfer(s, fa, i);
    if i.command is Mov8 {
        lemma_write_read_r8(s.regs, d, byte_operand(st.regs, i.params.src));
    } else if i.command is Mov16 {
        lemma_write_read_r16(s.regs, d, word_operand(st.regs, i.params.src));
    } else {
        let e = i.params.src->Reg16_0;
        let vd = st.regs.r16(d);
        let ve = st.regs.r16(e);
        lemma_write_read_r16(s.regs, d, ve);
        let r1 = s.regs.with_r16(d, ve);
        lemma_write_read_r16(r1, e, vd);
    }
}

/// `inc` of a byte register adds one modulo 256 and leaves CF alone; ZF
/// tells whether the register wrapped to 0.
pub proof fn lemma_inc8_step(st: State, fa: MemoryAddress, i: Instruction, length: u8, d: R)
    requires
        st.regs.wf(),
        i.command is Inc8,
        i.repeat is NoRepeat,
        d.is_r8(),
        i.params.dst == Parameter::Reg8(d),
    ensures
        ({
            let r = step(st, fa, i, length).state.regs;
            let a = st.regs.r8(d);
            &&& r.r8(d) == (a + 1) % 256
            &&& r.flags.carry == st.regs.flags.carry
            &&& r.flags.zero == (a == 255)
            &&& forall|r2: R| r2.is_r8() && r2 != d ==> #[trigger] r.r8(r2) == st.regs.r8(r2)
        }),
{
    let s = past(st, length);
    lemma_operate_unop(s, fa, i);
    let a = st.regs.r8(d);
    let res = (a as usize).wrapping_add(1);
    assert(res == a + 1);
    assert((res as u8) == res % 256 && ((res & 0xFF == 0) == (res == 256))) by (bit_vector)
        requires
            1 <= res < 257,
    ;
    let fl = crate::cpu::alu::alu_unary(i.command, st.regs.flags, a as usize).0;
    let s2 = State { regs: RegsView { flags: fl, ..s.regs }, ..s };
    lemma_write_read_r8(s2.regs, d, res as u8);
}

#[verifier::rlimit(50)]
proof fn lemma_operate_unop(s: State, fa: MemoryAddress, i: Instruction)
    requires
        is_unop(i.command),
    ensures
        operate(s, fa, i) == (Step {
            state: unop(s, i.command, i.params, i.segment_prefix),
            flags_address: fa,
            outcome: Outcome::Done,
            repeats: true,
        }),
{
    reveal(operate);
}

#[verifier::rlimit(50)]
proof fn lemma_operate_loop(s: State, fa: MemoryAddress, i: Instruction)
    requires
        is_loop(i.command),
    ensures
        operate(s, fa, i) == (Step {
            state: loop_state(s, i.command, i.params),
            flags_address: fa,
            outcome: Outcome::Done,
            repeats: true,
        }),
{
    reveal(operate);
}

/// `loop` counts CX down by one and jumps to its target while CX is not 0
/// (`loope` only while ZF is also set, `loopne` only while it is clear);
/// otherwise it goes on after itself.
pub proof fn lemma_loop_step(st: State, fa: MemoryAddress, i: Instruction, length: u8, t: u16)
    requires
        st.regs.wf(),
        i.command is Loop || i.command is Loope || i.command is Loopne,
        i.repeat is NoRepeat,
        i.params.dst == Parameter::Imm16(t),
    ensures
        ({
            let r = step(st, fa, i, length).state.regs;
            let cx = st.regs.r16(R::CX);
            let z = st.regs.flags.zero;
            let goes = cx != 1 && if i.command is Loope { z } else if i.command is Loopne { !z } else { true };
            &&& r.r16(R::CX) == if cx == 0 { 0xFFFFu16 } else { (cx - 1) as u16 }
            &&& r.ip == if goes { t } else { st.regs.ip.wrapping_add(length as u16) }
            &&& r.flags == st.regs.flags
        }),
{
    let s = past(st, length);
    lemma_operate_loop(s, fa, i);
    lemma_write_read_r16(s.regs, R::CX, st.regs.r16(R::CX).wrapping_sub(1));
}

/// `stosb` stores AL at ES:DI, and no other byte of memory changes.
pub proof fn lemma_stosb_memory(st: State, fa: MemoryAddress, i: Instruction, length: u8)
    requires
        st.mem.len() == crate::memory::MEMORY_SIZE,
        i.command is Stosb,
        i.repeat is NoRepeat,
    ensures
        ({
            let m = step(st, fa, i, length).state.mem;
            let a = flat(st.regs.r16(R::ES), st.regs.r16(R::DI));
            &&& m[a] == st.regs.r8(R::AL)
            &&& m.len() == st.mem.len()
            &&& forall|b: int| 0 <= b < st.mem.len() && b != a ==> #[trigger] m[b] == st.mem[b]
        }),
{
    lemma_operate_string(past(st, length), fa, i);
    crate::memory::lemma_write_read(st.mem, st.regs.r16(R::ES), st.regs.r16(R::DI), st.regs.r8(R::AL), 0);
}

/// The bits of the complement of a byte, and the complement of its
/// machine-word widening cut back to a byte.
proof fn lemma_not_bits8(a: u8)
    by (bit_vector)
    ensures
        ((!(a as usize)) as u8) == !a,
        forall|k: u8| k < 8 ==> ((((!a) >> k) & 1 == 1) == !((a >> k) & 1 == 1)),
{
}

/// `not` of a byte register flips every bit of it and leaves the flags
/// and the other byte registers alone.
pub proof fn lemma_not8_step(st: State, fa: MemoryAddress, i: Instruction, length: u8, d: R)
    requires
        st.regs.wf(),
        i.command is Not8,
        i.repeat is NoRepeat,
        d.is_r8(),
        i.params.dst == Parameter::Reg8(d),
    ensures
        ({
            let r = step(st, fa, i, length).state.regs;
            let a = st.regs.r8(d);
            let x = r.r8(d);
            &&& forall|k: u8| #![trigger bit8(x, k)] k < 8 ==> bit8(x, k) != bit8(a, k)
            &&& r.flags == st.regs.flags
            &&& forall|r2: R| r2.is_r8() && r2 != d ==> #[trigger] r.r8(r2) == st.regs.r8(r2)
        }),
{
    let s = past(st, length);
    lemma_operate_unop(s, fa, i);
    let a = st.regs.r8(d);
    lemma_not_bits8(a);
    lemma_write_read_r8(s.regs, d, !a);
}

} // verus!
