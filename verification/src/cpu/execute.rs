use vstd::prelude::*;

use crate::bios::BIOS;
use crate::cpu::alu::{
    binop16, binop32, binop8, binop_defined, flags_only, is_binop16, is_binop32, is_binop8,
    is_unop, unop, unop_defined, unop_width,
};
use crate::cpu::arith::{idiv_ok, is_muldiv, muldiv, muldiv_defined};
use crate::cpu::misc::{is_amode16, is_misc, misc_defined, misc_state, selector_operand, trailing_zeros};
use crate::cpu::shift::{
    is_shift, shift_count_ok, shift_defined, shift_repeats, shift_state, shift_width,
};
use crate::cpu::control::{
    call_near_state, far_defined, far_state, int_flags_address, int_state, is_jump, is_loop,
    jump, loop_state, return_state, with_ip,
};
use crate::cpu::instruction::{Instruction, RepeatMode};
use crate::cpu::interpreter::{
    read_value, readable, seg_value, writable16, writable32, writable8, write16, write8,
    Exception, State, CPU,
};
use crate::cpu::op::Op;
use crate::cpu::parameter::{spec_count, Parameter, ParameterSet};
use crate::cpu::register::{AMode, RegsView, R};
use crate::cpu::segment::Segment;
use crate::cpu::stack::{is_stack_op, stack_defined, stack_op};
use crate::cpu::strings::{advance, is_string_op, string_op};
use crate::cpu::transfer::{
    aad_regs, aam_regs, has_address, is_register_op, is_transfer, register_op, transfer,
    transfer_defined,
};
use crate::memory::{flat, put8, word_at, Memory, MemoryAddress};

verus! {

/// How the execution of an instruction ended.
#[derive(Copy, Clone, Debug, PartialEq, Eq, Structural)]
pub enum Outcome {
    /// The instruction ran to its end.
    Done,
    /// The instruction raised a processor exception; nothing after the
    /// point where it was raised ran.
    Fault(Exception),
    /// The instruction reads a byte from the port: the value goes to
    /// `complete_in`, which finishes the instruction.
    PortIn8(u16),
    /// The instruction reads a word from the port, as `PortIn8`.
    PortIn16(u16),
    /// The instruction ran and writes the byte to the port.
    PortOut8(u16, u8),
    /// The instruction ran and writes the word to the port.
    PortOut16(u16, u16),
    /// The operation is not one this processor carries out: only IP, the
    /// counters and a repeat prefix took effect.
    Unhandled,
}

/// The groups of operations that execute alike.
#[derive(Copy, Clone, Debug, PartialEq, Eq, Structural)]
pub enum Family {
    Binop8,
    Binop16,
    Binop32,
    Unop,
    Transfer,
    Register,
    Aad,
    Aam,
    Stack,
    Jump,
    Loop,
    Far,
    CallNear,
    Return,
    Int,
    StringOp,
    MulDiv,
    PortIn,
    PortOut,
    PortOutString,
    Shift,
    Misc,
    Other,
}

/// The group an operation belongs to.
pub open spec fn family_of(op: Op) -> Family {
    if is_binop8(op) {
        Family::Binop8
    } else if is_binop16(op) {
        Family::Binop16
    } else if is_binop32(op) {
        Family::Binop32
    } else if is_unop(op) {
        Family::Unop
    } else if is_transfer(op) {
        Family::Transfer
    } else if is_register_op(op) {
        Family::Register
    } else if op is Aad {
        Family::Aad
    } else if op is Aam {
        Family::Aam
    } else if is_stack_op(op) {
        Family::Stack
    } else if is_jump(op) {
        Family::Jump
    } else if is_loop(op) {
        Family::Loop
    } else if op is JmpFar || op is CallFar {
        Family::Far
    } else if op is CallNear {
        Family::CallNear
    } else if op is Retn || op is Retf || op is Iret {
        Family::Return
    } else if op is Int {
        Family::Int
    } else if is_string_op(op) {
        Family::StringOp
    } else if is_muldiv(op) {
        Family::MulDiv
    } else if op is In8 || op is In16 || op is Insb {
        Family::PortIn
    } else if op is Out8 || op is Out16 {
        Family::PortOut
    } else if op is Outsb || op is Outsw {
        Family::PortOutString
    } else if is_shift(op) {
        Family::Shift
    } else if is_misc(op) {
        Family::Misc
    } else {
        Family::Other
    }
}

/// The value of an immediate operand, as `int n` reads it.
pub open spec fn imm_value(p: Parameter) -> usize {
    match p {
        Parameter::Imm8(v) => v as usize,
        Parameter::Imm16(v) => v as usize,
        Parameter::ImmS8(v) => v as usize,
        _ => 0,
    }
}

/// The operands of an instruction are of the kinds its operation reads
/// and writes; other operands stop the processor.
pub open spec fn operands_defined(i: Instruction) -> bool {
    let (op, ps) = (i.command, i.params);
    match family_of(op) {
        Family::Binop8 | Family::Binop16 | Family::Binop32 => binop_defined(op, ps),
        Family::Unop => unop_defined(op, ps),
        Family::Transfer => transfer_defined(op, ps),
        Family::Aad | Family::Aam | Family::Jump | Family::Loop | Family::CallNear => readable(
            ps.dst,
        ),
        Family::Stack => stack_defined(op, ps),
        Family::Far => far_defined(op, ps.dst),
        Family::Return => spec_count(ps) == 1 ==> readable(ps.dst),
        Family::Int => ps.dst is Imm8 || ps.dst is Imm16 || ps.dst is ImmS8,
        Family::MulDiv => muldiv_defined(op, ps),
        Family::PortIn => op is Insb || (readable(ps.src) && (op is In8 ==> writable8(ps.dst)) && (
        op is In16 ==> writable16(ps.dst))),
        Family::PortOut => readable(ps.dst) && readable(ps.src),
        Family::Shift => shift_defined(op, ps),
        Family::Misc => misc_defined(op, ps),
        _ => true,
    }
}

/// The values an instruction computes with are ones it can handle: a
/// `shrd` count of at most 16, and no signed division of the smallest
/// dividend by -1 (both stop the processor).
pub open spec fn values_supported(st: State, i: Instruction) -> bool {
    shift_count_ok(st, i.command, i.params) && idiv_ok(st, i.command, i.params)
}

/// What one instruction does: the state after it, where the BIOS has
/// recorded the pushed flags, and how it ended.
pub ghost struct Step {
    pub state: State,
    pub flags_address: MemoryAddress,
    pub outcome: Outcome,
    /// whether a repeat prefix takes effect after the operation
    pub repeats: bool,
}

/// The effect of an operation on the state `st`, in which IP already
/// points past the instruction; `fa` is where the BIOS recorded the flags.
#[verifier::opaque]
pub open spec fn operate(st: State, fa: MemoryAddress, i: Instruction) -> Step {
    let (op, ps, seg) = (i.command, i.params, i.segment_prefix);
    let done = |s: State| Step { state: s, flags_address: fa, outcome: Outcome::Done, repeats: true };
    let ended = |s: State, o: Outcome| Step { state: s, flags_address: fa, outcome: o, repeats: true };
    match family_of(op) {
        Family::Binop8 => done(binop8(st, op, ps)),
        Family::Binop16 => done(binop16(st, op, ps, seg)),
        Family::Binop32 => done(binop32(st, op, ps)),
        Family::Unop => done(unop(st, op, ps, seg)),
        Family::Transfer => done(transfer(st, op, ps, seg)),
        Family::Register => done(State { regs: register_op(st.regs, op), ..st }),
        Family::Aad => done(
            State { regs: aad_regs(st.regs, read_value(st.regs, st.mem, ps.dst) as u16), ..st },
        ),
        Family::Aam => {
            let base = read_value(st.regs, st.mem, ps.dst) as u8;
            if base == 0 {
                ended(st, Outcome::Fault(Exception::DIV0))
            } else {
                done(State { regs: aam_regs(st.regs, base), ..st })
            }
        },
        Family::Stack => done(stack_op(st, op, ps, seg)),
        Family::Jump => done(jump(st, op, ps)),
        Family::Loop => done(loop_state(st, op, ps)),
        Family::Far => done(far_state(st, op, ps)),
        Family::CallNear => done(call_near_state(st, ps)),
        Family::Return => Step {
            state: return_state(st, op, ps),
            flags_address: if op is Iret {
                MemoryAddress::Unset
            } else {
                fa
            },
            outcome: Outcome::Done,
            repeats: true,
        },
        Family::Int => Step {
            state: int_state(st, imm_value(ps.dst) as u8),
            flags_address: int_flags_address(st),
            outcome: Outcome::Done,
            repeats: true,
        },
        Family::StringOp => done(string_op(st, op, seg)),
        Family::MulDiv => match muldiv(st, op, ps, seg) {
            Some(s) => done(s),
            None => ended(st, Outcome::Fault(Exception::DIV0)),
        },
        Family::PortIn => {
            let port = if op is Insb {
                st.regs.r16(R::DX)
            } else {
                read_value(st.regs, st.mem, ps.src) as u16
            };
            ended(st, if op is In16 {
                Outcome::PortIn16(port)
            } else {
                Outcome::PortIn8(port)
            })
        },
        Family::PortOut => {
            let port = read_value(st.regs, st.mem, ps.dst) as u16;
            let val = read_value(st.regs, st.mem, ps.src);
            ended(st, if op is Out8 {
                Outcome::PortOut8(port, val as u8)
            } else {
                Outcome::PortOut16(port, val as u16)
            })
        },
        Family::PortOutString => {
            let a = flat(seg_value(st.regs, seg), st.regs.r16(R::SI));
            let port = st.regs.r16(R::DX);
            if op is Outsb {
                ended(
                    State { regs: advance(st.regs, R::SI, 1), ..st },
                    Outcome::PortOut8(port, st.mem[a]),
                )
            } else {
                ended(
                    State { regs: advance(st.regs, R::SI, 2), ..st },
                    Outcome::PortOut16(port, word_at(st.mem, a)),
                )
            }
        },
        Family::Shift => Step {
            state: shift_state(st, op, ps, seg),
            flags_address: fa,
            outcome: Outcome::Done,
            repeats: shift_repeats(st, op, ps),
        },
        Family::Misc => done(misc_state(st, op, ps, seg)),
        Family::Other => ended(st, Outcome::Unhandled),
    }
}

/// The state after a repeat prefix is applied: CX counts down, and IP
/// goes back to `start_ip` while it is not 0 (and ZF is set for `repe`,
/// clear for `repne`).
pub open spec fn repeat(st: State, mode: RepeatMode, start_ip: u16) -> State {
    match mode {
        RepeatMode::NoRepeat => st,
        _ => {
            let cx = st.regs.r16(R::CX).wrapping_sub(1);
            let s = State { regs: st.regs.with_r16(R::CX, cx), ..st };
            let again = match mode {
                RepeatMode::Repe => cx != 0 && st.regs.flags.zero,
                RepeatMode::Repne => cx != 0 && !st.regs.flags.zero,
                _ => cx != 0,
            };
            if again {
                with_ip(s, start_ip)
            } else {
                s
            }
        },
    }
}

/// One instruction of `length` bytes at CS:IP executed on the state `st`:
/// IP moves past it, the operation takes effect, and a repeat prefix is
/// applied unless the instruction faulted, waits for a port, or is a
/// rotate or `shrd` that ended early with nothing to shift.
pub open spec fn step(st: State, fa: MemoryAddress, i: Instruction, length: u8) -> Step {
    let start_ip = st.regs.ip;
    let s = with_ip(st, start_ip.wrapping_add(length as u16));
    let r = operate(s, fa, i);
    match r.outcome {
        Outcome::Fault(_) | Outcome::PortIn8(_) | Outcome::PortIn16(_) => r,
        _ => if r.repeats {
            Step { state: repeat(r.state, i.repeat, start_ip), ..r }
        } else {
            r
        },
    }
}

/// The state after a port read finishes an instruction: the value is
/// stored, and the repeat prefix is applied.
pub open spec fn complete_in_state(st: State, i: Instruction, start_ip: u16, data: u16) -> State {
    let (op, ps, seg) = (i.command, i.params, i.segment_prefix);
    let s = match op {
        Op::In8 => write8(st, ps.dst, data as u8),
        Op::In16 => write16(st, seg, ps.dst, data),
        _ => State {
            regs: advance(st.regs, R::DI, 1),
            mem: put8(st.mem, st.regs.r16(R::ES), st.regs.r16(R::DI), data as u8),
        },
    };
    repeat(s, i.repeat, start_ip)
}

/// An instruction that does not transfer control and has no repeat prefix
/// leaves IP just past itself: IP grows by its length, within the segment.
#[verifier::rlimit(100)]
pub proof fn lemma_step_moves_past(st: State, fa: MemoryAddress, i: Instruction, length: u8)
    requires
        st.regs.wf(),
        operands_defined(i),
        i.repeat is NoRepeat,
        family_of(i.command) is Binop8 || family_of(i.command) is Binop16 || family_of(i.command) is Binop32
            || family_of(i.command) is Unop || family_of(i.command) is Transfer || family_of(i.command) is Register
            || family_of(i.command) is StringOp || family_of(i.command) is Stack,
    ensures
        step(st, fa, i, length).state.regs.ip == st.regs.ip.wrapping_add(length as u16),
{
    reveal(operate);
}

/// Whether a repeat prefix sends IP back for another round once CX holds
/// `cx`: CX is not 0, and for `repe` ZF is set, for `repne` clear.
pub open spec fn repeats_again(mode: RepeatMode, cx: u16, zero: bool) -> bool {
    cx != 0 && match mode {
        RepeatMode::Repe => zero,
        RepeatMode::Repne => !zero,
        _ => true,
    }
}

/// A repeat prefix counts CX down by one, and sends IP back to where the
/// instruction began while CX is not yet 0 (for `repe` while ZF is set, for
/// `repne` while it is clear); memory, the flags and the other registers stay.
pub proof fn lemma_repeat(st: State, mode: RepeatMode, start_ip: u16)
    requires
        st.regs.wf(),
        !(mode is NoRepeat),
    ensures
        ({
            let r = repeat(st, mode, start_ip);
            let cx = st.regs.r16(R::CX).wrapping_sub(1);
            &&& r.regs.r16(R::CX) == cx
            &&& r.regs.ip == if repeats_again(mode, cx, st.regs.flags.zero) {
                start_ip
            } else {
                st.regs.ip
            }
            &&& r.regs.flags == st.regs.flags
            &&& r.mem == st.mem
            &&& forall|r2: R| (r2.is_r16() || r2.is_sreg()) && r2 != R::CX ==> #[trigger] r.regs.r16(r2) == st.regs.r16(r2)
        }),
{
    crate::cpu::register::lemma_write_read_r16(st.regs, R::CX, st.regs.r16(R::CX).wrapping_sub(1));
}

/// What `stosb`, `movsb` and `outsb` do to the registers: they advance
/// DI, SI and DI, and SI; they end so that a repeat prefix applies.
#[verifier::rlimit(50)]
proof fn lemma_operate_rep_string(s: State, fa: MemoryAddress, i: Instruction)
    requires
        i.command is Stosb || i.command is Movsb || i.command is Outsb,
    ensures
        ({
            let o = operate(s, fa, i);
            &&& o.repeats
            &&& !(o.outcome is Fault || o.outcome is PortIn8 || o.outcome is PortIn16)
            &&& i.command is Stosb ==> o.state.regs == advance(s.regs, R::DI, 1)
            &&& i.command is Movsb ==> o.state.regs == advance(advance(s.regs, R::SI, 1), R::DI, 1)
            &&& i.command is Outsb ==> o.state.regs == advance(s.regs, R::SI, 1)
        }),
{
    reveal(operate);
}

/// A `rep stosb`, `rep movsb` or `rep outsb` counts CX down by one; IP goes
/// back to the instruction while CX is not 0, and past it once CX is 0.
pub proof fn lemma_rep_string_step(st: State, fa: MemoryAddress, i: Instruction, length: u8)
    requires
        st.regs.wf(),
        i.repeat is Rep,
        i.command is Stosb || i.command is Movsb || i.command is Outsb,
    ensures
        ({
            let r = step(st, fa, i, length).state;
            let cx = st.regs.r16(R::CX).wrapping_sub(1);
            &&& r.regs.r16(R::CX) == cx
            &&& r.regs.ip == if cx != 0 {
                st.regs.ip
            } else {
                st.regs.ip.wrapping_add(length as u16)
            }
        }),
{
    let s = with_ip(st, st.regs.ip.wrapping_add(length as u16));
    let rg = s.regs;
    let o = operate(s, fa, i);
    lemma_operate_rep_string(s, fa, i);
    if i.command is Stosb {
        crate::cpu::register::lemma_write_read_r16(rg, R::DI, advance(rg, R::DI, 1).r16(R::DI));
    } else if i.command is Movsb {
        let a1 = advance(rg, R::SI, 1);
        crate::cpu::register::lemma_write_read_r16(rg, R::SI, a1.r16(R::SI));
        crate::cpu::register::lemma_write_read_r16(a1, R::DI, advance(a1, R::DI, 1).r16(R::DI));
    } else {
        crate::cpu::register::lemma_write_read_r16(rg, R::SI, advance(rg, R::SI, 1).r16(R::SI));
    }
    assert(o.state.regs.wf());
    assert(o.state.regs.r16(R::CX) == st.regs.r16(R::CX));
    assert(o.state.regs.ip == st.regs.ip.wrapping_add(length as u16));
    lemma_repeat(o.state, RepeatMode::Rep, st.regs.ip);
}

/// `xlatb`, `bt`, `bsf`, `lds`, `les` and `enter` end normally with the
/// state `misc_state` gives.
#[verifier::rlimit(50)]
proof fn lemma_operate_misc(s: State, fa: MemoryAddress, i: Instruction)
    requires
        is_misc(i.command),
    ensures
        operate(s, fa, i) == (Step {
            state: misc_state(s, i.command, i.params, i.segment_prefix),
            flags_address: fa,
            outcome: Outcome::Done,
            repeats: true,
        }),
{
    reveal(operate);
}

/// `bsf` from one word register into another: for a zero source ZF is set
/// and the destination keeps its value; otherwise ZF is clear and the
/// destination gets the index of the lowest set bit of the source.
pub proof fn lemma_bsf_step(st: State, fa: MemoryAddress, i: Instruction, length: u8, d: R, a: R)
    requires
        st.regs.wf(),
        i.command is Bsf,
        i.repeat is NoRepeat,
        d.is_r16(),
        a.is_r16(),
        i.params.dst == Parameter::Reg16(d),
        i.params.src == Parameter::Reg16(a),
    ensures
        ({
            let r = step(st, fa, i, length).state;
            let v = st.regs.r16(a);
            &&& v == 0 ==> r.regs.flags.zero && r.regs.r16(d) == st.regs.r16(d)
            &&& v != 0 ==> !r.regs.flags.zero && r.regs.r16(d) == trailing_zeros(v as nat) as u16
        }),
{
    let s = with_ip(st, st.regs.ip.wrapping_add(length as u16));
    lemma_operate_misc(s, fa, i);
    let v = s.regs.r16(a);
    assert(v == st.regs.r16(a));
    if v != 0 {
        crate::cpu::register::lemma_write_read_r16(s.regs, d, trailing_zeros(v as nat) as u16);
    }
}

/// A `div` of a byte whose divisor is 0, or whose quotient does not fit in
/// AL, raises a divide error: IP moves past the instruction and nothing else
/// changes, and no repeat prefix takes effect.
pub proof fn lemma_div8_faults(st: State, fa: MemoryAddress, i: Instruction, length: u8)
    requires
        i.command is Div8,
        ({
            let s = with_ip(st, st.regs.ip.wrapping_add(length as u16));
            let d = read_value(s.regs, s.mem, i.params.dst) as u16;
            d == 0 || st.regs.r16(R::AX) / d > 0xFF
        }),
    ensures
        step(st, fa, i, length).outcome == Outcome::Fault(Exception::DIV0),
        step(st, fa, i, length).state == with_ip(st, st.regs.ip.wrapping_add(length as u16)),
        step(st, fa, i, length).flags_address == fa,
{
    reveal(operate);
}

/// The group an operation belongs to.
pub fn family(op: &Op) -> (r: Family)
    ensures
        r == family_of(*op),
{
    match *op {
        Op::Add8 | Op::Adc8 | Op::Sub8 | Op::Sbb8 | Op::And8 | Op::Or8 | Op::Xor8 | Op::Cmp8
        | Op::Test8 => Family::Binop8,
        Op::Add16 | Op::Adc16 | Op::Sub16 | Op::Sbb16 | Op::And16 | Op::Or16 | Op::Xor16
        | Op::Cmp16 | Op::Test16 => Family::Binop16,
        Op::Add32 | Op::Sub32 | Op::Xor32 | Op::Cmp32 => Family::Binop32,
        Op::Inc8 | Op::Inc16 | Op::Inc32 | Op::Dec8 | Op::Dec16 | Op::Dec32 | Op::Neg8
        | Op::Neg16 | Op::Neg32 | Op::Not8 | Op::Not16 => Family::Unop,
        Op::Mov8 | Op::Mov16 | Op::Mov32 | Op::Movsx16 | Op::Movsx32 | Op::Movzx16
        | Op::Movzx32 | Op::Xchg8 | Op::Xchg16 | Op::Xchg32 | Op::Lea16 | Op::Setc
        | Op::Setnz => Family::Transfer,
        Op::Clc | Op::Cld | Op::Cli | Op::Cmc | Op::Stc | Op::Std | Op::Sti | Op::Nop | Op::Hlt
        | Op::Salc | Op::Lahf | Op::Sahf | Op::Cbw | Op::Cwd16 | Op::Cwde32 | Op::Aaa | Op::Aas
        | Op::Daa | Op::Das | Op::Arpl | Op::Bound | Op::Sldt => Family::Register,
        Op::Aad => Family::Aad,
        Op::Aam => Family::Aam,
        Op::Push16 | Op::Push32 | Op::Pop16 | Op::Pop32 | Op::Pushf | Op::Popf | Op::Pusha16
        | Op::Popa16 | Op::Pushad32 | Op::Popad32 | Op::Leave => Family::Stack,
        Op::Ja | Op::Jc | Op::Jcxz | Op::Jg | Op::Jl | Op::Jna | Op::Jnc | Op::Jng | Op::Jnl
        | Op::Jno | Op::Jns | Op::Jnz | Op::Jo | Op::Jpe | Op::Jpo | Op::Js | Op::Jz
        | Op::JmpNear | Op::JmpShort => Family::Jump,
        Op::Loop | Op::Loope | Op::Loopne => Family::Loop,
        Op::JmpFar | Op::CallFar => Family::Far,
        Op::CallNear => Family::CallNear,
        Op::Retn | Op::Retf | Op::Iret => Family::Return,
        Op::Int => Family::Int,
        Op::Stosb | Op::Stosw | Op::Stosd | Op::Lodsb | Op::Lodsw | Op::Lodsd | Op::Movsb
        | Op::Movsw | Op::Movsd | Op::Scasb | Op::Scasw | Op::Cmpsw => Family::StringOp,
        Op::Mul8 | Op::Mul16 | Op::Mul32 | Op::Imul8 | Op::Imul16 | Op::Imul32 | Op::Div8
        | Op::Div16 | Op::Div32 | Op::Idiv8 | Op::Idiv16 | Op::Idiv32 => Family::MulDiv,
        Op::In8 | Op::In16 | Op::Insb => Family::PortIn,
        Op::Out8 | Op::Out16 => Family::PortOut,
        Op::Outsb | Op::Outsw => Family::PortOutString,
        Op::Rcl8 | Op::Rcl16 | Op::Rcr8 | Op::Rcr16 | Op::Rcr32 | Op::Rol8 | Op::Rol16 | Op::Ror8
        | Op::Ror16 | Op::Sar8 | Op::Sar16 | Op::Sar32 | Op::Shl8 | Op::Shl16 | Op::Shl32
        | Op::Shr8 | Op::Shr16 | Op::Shr32 | Op::Shld | Op::Shrd => Family::Shift,
        Op::Xlatb | Op::Bt | Op::Bsf | Op::Lds | Op::Les | Op::Enter => Family::Misc,
        _ => Family::Other,
    }
}

fn is_r8(r: R) -> (b: bool)
    ensures
        b == r.is_r8(),
{
    matches!(r, R::AL | R::CL | R::DL | R::BL | R::AH | R::CH | R::DH | R::BH)
}

fn is_r16(r: R) -> (b: bool)
    ensures
        b == r.is_r16(),
{
    matches!(r, R::AX | R::CX | R::DX | R::BX | R::SP | R::BP | R::SI | R::DI)
}

fn is_sreg(r: R) -> (b: bool)
    ensures
        b == r.is_sreg(),
{
    matches!(r, R::ES | R::CS | R::SS | R::DS | R::FS | R::GS)
}

fn is_r32(r: R) -> (b: bool)
    ensures
        b == r.is_r32(),
{
    matches!(r, R::EAX | R::ECX | R::EDX | R::EBX | R::ESP | R::EBP | R::ESI | R::EDI)
}

/// Whether the processor can read the operand.
pub fn is_readable(p: &Parameter) -> (b: bool)
    ensures
        b == readable(*p),
{
    match *p {
        Parameter::Imm8(_) | Parameter::Imm16(_) | Parameter::Imm32(_) | Parameter::ImmS8(_) => true,
        Parameter::Reg8(r) => is_r8(r),
        Parameter::Reg16(r) | Parameter::SReg16(r) => is_r16(r) || is_sreg(r) || matches!(r, R::IP),
        Parameter::Reg32(r) => is_r32(r),
        Parameter::Ptr16Imm(..) | Parameter::Ptr32AmodeS16(..) | Parameter::Empty => false,
        _ => true,
    }
}

/// Whether a byte can be written to the operand.
pub fn is_writable8(p: &Parameter) -> (b: bool)
    ensures
        b == writable8(*p),
{
    match *p {
        Parameter::Reg8(r) => is_r8(r),
        Parameter::Ptr8(..) | Parameter::Ptr8Amode(..) | Parameter::Ptr8AmodeS8(..)
        | Parameter::Ptr8AmodeS16(..) => true,
        _ => false,
    }
}

/// Whether a word can be written to the operand.
pub fn is_writable16(p: &Parameter) -> (b: bool)
    ensures
        b == writable16(*p),
{
    match *p {
        Parameter::Reg16(r) | Parameter::SReg16(r) => is_r16(r) || is_sreg(r),
        Parameter::Imm16(_) | Parameter::Ptr16(..) | Parameter::Ptr16Amode(..)
        | Parameter::Ptr16AmodeS8(..) | Parameter::Ptr16AmodeS16(..) => true,
        _ => false,
    }
}

/// Whether a dword can be written to the operand.
pub fn is_writable32(p: &Parameter) -> (b: bool)
    ensures
        b == writable32(*p),
{
    match *p {
        Parameter::Reg32(r) => is_r32(r),
        Parameter::Ptr32(..) | Parameter::Ptr32Amode(..) | Parameter::Ptr32AmodeS8(..)
        | Parameter::Ptr32AmodeS16(..) => true,
        _ => false,
    }
}

fn binop_ok(op: &Op, ps: &ParameterSet) -> (b: bool)
    requires
        is_binop8(*op) || is_binop16(*op) || is_binop32(*op),
    ensures
        b == binop_defined(*op, *ps),
{
    if !is_readable(&ps.src) || !is_readable(&ps.dst) {
        return false;
    }
    match *op {
        Op::Cmp8 | Op::Test8 | Op::Cmp16 | Op::Test16 | Op::Cmp32 => true,
        Op::Add8 | Op::Adc8 | Op::Sub8 | Op::Sbb8 | Op::And8 | Op::Or8 | Op::Xor8 => is_writable8(&ps.dst),
        Op::Add32 | Op::Sub32 | Op::Xor32 => is_writable32(&ps.dst),
        _ => is_writable16(&ps.dst),
    }
}

fn unop_ok(op: &Op, ps: &ParameterSet) -> (b: bool)
    requires
        is_unop(*op),
    ensures
        b == unop_defined(*op, *ps),
{
    is_readable(&ps.dst) && match *op {
        Op::Inc8 | Op::Dec8 | Op::Neg8 | Op::Not8 => is_writable8(&ps.dst),
        Op::Inc16 | Op::Dec16 | Op::Neg16 | Op::Not16 => is_writable16(&ps.dst),
        _ => is_writable32(&ps.dst),
    }
}

fn transfer_ok(op: &Op, ps: &ParameterSet) -> (b: bool)
    requires
        is_transfer(*op),
    ensures
        b == transfer_defined(*op, *ps),
{
    let (rs, rd) = (is_readable(&ps.src), is_readable(&ps.dst));
    match *op {
        Op::Mov8 => rs && is_writable8(&ps.dst),
        Op::Mov16 | Op::Movsx16 | Op::Movzx16 => rs && is_writable16(&ps.dst),
        Op::Mov32 | Op::Movsx32 | Op::Movzx32 => rs && is_writable32(&ps.dst),
        Op::Xchg8 => rs && rd && is_writable8(&ps.dst) && is_writable8(&ps.src),
        Op::Xchg16 => rs && rd && is_writable16(&ps.dst) && is_writable16(&ps.src),
        Op::Xchg32 => rs && rd && is_writable32(&ps.dst) && is_writable32(&ps.src),
        Op::Lea16 => matches!(
            ps.src,
            Parameter::Ptr16Amode(..) | Parameter::Ptr16AmodeS8(..) | Parameter::Ptr16AmodeS16(..)
                | Parameter::Ptr16(..)
        ) && is_writable16(&ps.dst),
        _ => is_writable8(&ps.dst),
    }
}

fn muldiv_ok(op: &Op, ps: &ParameterSet) -> (b: bool)
    requires
        is_muldiv(*op),
    ensures
        b == muldiv_defined(*op, *ps),
{
    if !is_readable(&ps.dst) {
        return false;
    }
    let n = ps.count();
    match *op {
        Op::Imul16 | Op::Imul32 => {
            let wide = match *op {
                Op::Imul16 => is_writable16(&ps.dst),
                _ => is_writable32(&ps.dst),
            };
            let (rs, rs2) = (is_readable(&ps.src), is_readable(&ps.src2));
            1 <= n && (n < 2 || rs) && (n < 3 || rs2) && (n < 2 || wide)
        },
        _ => true,
    }
}

fn shift_ok(op: &Op, ps: &ParameterSet) -> (b: bool)
    requires
        is_shift(*op),
    ensures
        b == shift_defined(*op, *ps),
{
    let third = match *op {
        Op::Shld | Op::Shrd => is_readable(&ps.src2),
        _ => true,
    };
    let write = match *op {
        Op::Rcl8 | Op::Rcr8 | Op::Rol8 | Op::Ror8 | Op::Sar8 | Op::Shl8 | Op::Shr8 => is_writable8(
            &ps.dst,
        ),
        Op::Rcr32 | Op::Sar32 | Op::Shl32 | Op::Shr32 => is_writable32(&ps.dst),
        _ => is_writable16(&ps.dst),
    };
    is_readable(&ps.dst) && is_readable(&ps.src) && third && write
}

fn is_amode16_exec(am: &AMode) -> (b: bool)
    ensures
        b == is_amode16(*am),
{
    matches!(
        *am,
        AMode::BX | AMode::BP | AMode::SI | AMode::DI | AMode::BXSI | AMode::BXDI | AMode::BPSI
            | AMode::BPDI
    )
}

fn misc_ok(op: &Op, ps: &ParameterSet) -> (b: bool)
    requires
        is_misc(*op),
    ensures
        b == misc_defined(*op, *ps),
{
    match *op {
        Op::Xlatb => true,
        Op::Bt | Op::Enter => is_readable(&ps.dst) && is_readable(&ps.src),
        Op::Bsf => is_readable(&ps.src) && is_writable16(&ps.dst),
        _ => {
            let selector = match ps.src {
                Parameter::Ptr16(..) => true,
                Parameter::Ptr16Amode(_, ref am) => is_amode16_exec(am),
                Parameter::Ptr16AmodeS8(_, ref am, _) => is_amode16_exec(am),
                _ => false,
            };
            selector && is_writable16(&ps.dst)
        },
    }
}

/// Whether the operands of an instruction are of the kinds its operation
/// reads and writes, so that `execute` can run it.
pub fn can_execute(i: &Instruction) -> (b: bool)
    ensures
        b == operands_defined(*i),
{
    let op = &i.command;
    let ps = &i.params;
    match family(op) {
        Family::Binop8 | Family::Binop16 | Family::Binop32 => binop_ok(op, ps),
        Family::Unop => unop_ok(op, ps),
        Family::Transfer => transfer_ok(op, ps),
        Family::Aad | Family::Aam | Family::Jump | Family::Loop | Family::CallNear => is_readable(
            &ps.dst,
        ),
        Family::Stack => match *op {
            Op::Push16 | Op::Push32 => is_readable(&ps.dst),
            Op::Pop16 => is_writable16(&ps.dst),
            Op::Pop32 => is_writable32(&ps.dst),
            _ => true,
        },
        Family::Far => match *op {
            Op::JmpFar => matches!(
                ps.dst,
                Parameter::Ptr16Imm(..) | Parameter::Ptr16Amode(..) | Parameter::Ptr16AmodeS8(..)
            ),
            _ => matches!(
                ps.dst,
                Parameter::Ptr16Imm(..) | Parameter::Ptr16(..) | Parameter::Ptr16AmodeS8(..)
            ),
        },
        Family::Return => ps.count() != 1 || is_readable(&ps.dst),
        Family::Int => matches!(ps.dst, Parameter::Imm8(_) | Parameter::Imm16(_) | Parameter::ImmS8(_)),
        Family::MulDiv => muldiv_ok(op, ps),
        Family::PortIn => match *op {
            Op::Insb => true,
            Op::In8 => is_readable(&ps.src) && is_writable8(&ps.dst),
            _ => is_readable(&ps.src) && is_writable16(&ps.dst),
        },
        Family::PortOut => is_readable(&ps.dst) && is_readable(&ps.src),
        Family::Shift => shift_ok(op, ps),
        Family::Misc => misc_ok(op, ps),
        _ => true,
    }
}

impl CPU {
    /// Carries out the operation of an instruction; IP already points past
    /// it.
    #[verifier::rlimit(60)]
    fn operate(&mut self, mem: &mut Memory, bios: &mut BIOS, i: &Instruction) -> (r: (Outcome, bool))
        requires
            operands_defined(*i),
            values_supported(old(self).state(old(mem)), *i),
        ensures
            final(self).state(final(mem)) == operate(
                old(self).state(old(mem)),
                old(bios).flags_address,
                *i,
            ).state,
            final(bios).flags_address == operate(
                old(self).state(old(mem)),
                old(bios).flags_address,
                *i,
            ).flags_address,
            r.0 == operate(old(self).state(old(mem)), old(bios).flags_address, *i).outcome,
            r.1 == operate(old(self).state(old(mem)), old(bios).flags_address, *i).repeats,
            final(self).same_but_regs(*old(self)),
    {
        proof {
            reveal(operate);
        }
        let op = &i.command;
        let ps = &i.params;
        let seg = i.segment_prefix;
        match family(op) {
            Family::Binop8 => {
                self.exec_binop8(mem, op, ps);
                (Outcome::Done, true)
            },
            Family::Binop16 => {
                self.exec_binop16(mem, seg, op, ps);
                (Outcome::Done, true)
            },
            Family::Binop32 => {
                self.exec_binop32(mem, seg, op, ps);
                (Outcome::Done, true)
            },
            Family::Unop => {
                self.exec_unop(mem, seg, op, ps);
                (Outcome::Done, true)
            },
            Family::Transfer => {
                self.exec_transfer(mem, seg, op, ps);
                (Outcome::Done, true)
            },
            Family::Register => {
                self.exec_register_op(op);
                (Outcome::Done, true)
            },
            Family::Aad => {
                self.exec_aad(mem, ps);
                (Outcome::Done, true)
            },
            Family::Aam => {
                let base = self.read_parameter_value(mem, &ps.dst) as u8;
                if base == 0 {
                    return (Outcome::Fault(Exception::DIV0), true);
                }
                self.exec_aam(base);
                (Outcome::Done, true)
            },
            Family::Stack => {
                self.exec_stack_op(mem, seg, op, ps);
                (Outcome::Done, true)
            },
            Family::Jump => {
                self.exec_jump(mem, op, ps);
                (Outcome::Done, true)
            },
            Family::Loop => {
                self.exec_loop(mem, op, ps);
                (Outcome::Done, true)
            },
            Family::Far => {
                self.exec_far(mem, op, ps);
                (Outcome::Done, true)
            },
            Family::CallNear => {
                self.exec_call_near(mem, ps);
                (Outcome::Done, true)
            },
            Family::Return => {
                self.exec_return(mem, bios, op, ps);
                (Outcome::Done, true)
            },
            Family::Int => {
                let n = self.read_parameter_imm(&ps.dst) as u8;
                self.exec_int(mem, bios, n);
                (Outcome::Done, true)
            },
            Family::StringOp => {
                self.exec_string_op(mem, seg, op);
                (Outcome::Done, true)
            },
            Family::MulDiv => {
                if self.exec_muldiv(mem, seg, op, ps) {
                    (Outcome::Done, true)
                } else {
                    (Outcome::Fault(Exception::DIV0), true)
                }
            },
            Family::PortIn => {
                let port = match *op {
                    Op::Insb => self.get_r16(R::DX),
                    _ => self.read_parameter_value(mem, &ps.src) as u16,
                };
                match *op {
                    Op::In16 => (Outcome::PortIn16(port), true),
                    _ => (Outcome::PortIn8(port), true),
                }
            },
            Family::PortOut => {
                let port = self.read_parameter_value(mem, &ps.dst) as u16;
                let val = self.read_parameter_value(mem, &ps.src);
                match *op {
                    Op::Out8 => (Outcome::PortOut8(port, val as u8), true),
                    _ => (Outcome::PortOut16(port, val as u16), true),
                }
            },
            Family::PortOutString => {
                let port = self.get_r16(R::DX);
                match *op {
                    Op::Outsb => {
                        let val = mem.read_u8(self.segment(seg), self.get_r16(R::SI));
                        self.advance(R::SI, 1);
                        (Outcome::PortOut8(port, val), true)
                    },
                    _ => {
                        let val = mem.read_u16(self.segment(seg), self.get_r16(R::SI));
                        self.advance(R::SI, 2);
                        (Outcome::PortOut16(port, val), true)
                    },
                }
            },
            Family::Shift => {
                let repeats = self.exec_shift(mem, seg, op, ps);
                (Outcome::Done, repeats)
            },
            Family::Misc => {
                self.exec_misc(mem, seg, op, ps);
                (Outcome::Done, true)
            },
            Family::Other => (Outcome::Unhandled, true),
        }
    }

    /// The value of an operand once IP is `ip`.
    fn read_value_at(&self, mem: &Memory, p: &Parameter, ip: u16) -> (r: usize)
        requires
            readable(*p),
        ensures
            r == read_value(RegsView { ip, ..self.regs@ }, mem@, *p),
    {
        match *p {
            Parameter::Reg16(R::IP) | Parameter::SReg16(R::IP) => ip as usize,
            _ => self.read_parameter_value(mem, p),
        }
    }

    /// Whether `execute` can run the instruction of `length` bytes at CS:IP:
    /// its operands are of the kinds it works on, and the values it computes
    /// with are ones it can handle.
    pub fn can_execute_here(&self, mem: &Memory, i: &Instruction, length: u8) -> (b: bool)
        ensures
            b == (operands_defined(*i) && values_supported(
                with_ip(self.state(mem), self.regs@.ip.wrapping_add(length as u16)),
                *i,
            )),
    {
        if !can_execute(i) {
            return false;
        }
        let ip = self.regs.ip.wrapping_add(length as u16);
        match i.command {
            Op::Shrd => self.read_value_at(mem, &i.params.src2, ip) <= 16,
            Op::Idiv8 | Op::Idiv16 | Op::Idiv32 => {
                let dst = self.read_value_at(mem, &i.params.dst, ip);
                match i.command {
                    Op::Idiv8 => !(dst as i8 as i64 == -1 && self.get_r16(R::AX) as i16 as i64
                        == -0x8000),
                    Op::Idiv16 => {
                        let v = (self.get_r16(R::DX) as u32) * 0x1_0000 + self.get_r16(R::AX) as u32;
                        !(dst as i16 as i64 == -1 && v as i32 as i64 == -0x8000_0000)
                    },
                    _ => {
                        let v = (self.get_r32(R::EDX) as u64) * 0x1_0000_0000 + self.get_r32(R::EAX) as u64;
                        !(dst as i32 as i64 == -1 && v as i64 == i64::MIN)
                    },
                }
            },
            _ => true,
        }
    }

    /// Applies a repeat prefix: CX counts down, and IP goes back to
    /// `start_ip` while it is not 0 and the condition of the prefix holds.
    fn repeat(&mut self, mode: RepeatMode, start_ip: u16)
        ensures
            final(self).state_regs_only() == repeat(old(self).state_regs_only(), mode, start_ip),
            final(self).same_but_regs(*old(self)),
    {
        match mode {
            RepeatMode::NoRepeat => {},
            _ => {
                let cx = self.get_r16(R::CX).wrapping_sub(1);
                self.set_r16(R::CX, cx);
                let zero = self.regs.flags.zero;
                let again = match mode {
                    RepeatMode::Repe => cx != 0 && zero,
                    RepeatMode::Repne => cx != 0 && !zero,
                    _ => cx != 0,
                };
                if again {
                    self.set_ip(start_ip);
                }
            },
        }
    }

    /// Executes one instruction of `length` bytes at CS:IP: IP moves past
    /// it, the counters go up, the operation takes effect and a repeat
    /// prefix is applied. A port read is finished by `complete_in`.
    pub fn execute(&mut self, mem: &mut Memory, bios: &mut BIOS, op: &Instruction, length: u8) -> (r: Outcome)
        requires
            operands_defined(*op),
            values_supported(
                with_ip(old(self).state(old(mem)), old(self).regs@.ip.wrapping_add(length as u16)),
                *op,
            ),
        ensures
            final(self).state(final(mem)) == step(
                old(self).state(old(mem)),
                old(bios).flags_address,
                *op,
                length,
            ).state,
            final(bios).flags_address == step(
                old(self).state(old(mem)),
                old(bios).flags_address,
                *op,
                length,
            ).flags_address,
            r == step(old(self).state(old(mem)), old(bios).flags_address, *op, length).outcome,
            final(self).instruction_count == old(self).instruction_count.wrapping_add(1),
            final(self).cycle_count == old(self).cycle_count.wrapping_add(1),
            final(self).rom_base == old(self).rom_base,
            final(self).fatal_error == old(self).fatal_error,
            final(self).deterministic == old(self).deterministic,
            final(self).clock_hz == old(self).clock_hz,
            final(self).decoder == old(self).decoder,
    {
        let start_ip = self.regs.ip;
        self.set_ip(start_ip.wrapping_add(length as u16));
        self.instruction_count = self.instruction_count.wrapping_add(1);
        // each instruction is counted as one cycle
        self.cycle_count = self.cycle_count.wrapping_add(1);
        let (out, repeats) = self.operate(mem, bios, op);
        match out {
            Outcome::Fault(_) | Outcome::PortIn8(_) | Outcome::PortIn16(_) => out,
            _ => {
                if repeats {
                    self.repeat(op.repeat, start_ip);
                }
                out
            },
        }
    }

    /// Finishes an instruction that read `data` from a port: `in` stores it
    /// in its destination, `insb` at ES:DI; then the repeat prefix is
    /// applied with `start_ip`, where the instruction began.
    pub fn complete_in(&mut self, mem: &mut Memory, i: &Instruction, start_ip: u16, data: u16)
        requires
            i.command is In8 || i.command is In16 || i.command is Insb,
            i.command is In8 ==> writable8(i.params.dst),
            i.command is In16 ==> writable16(i.params.dst),
        ensures
            final(self).state(final(mem)) == complete_in_state(
                old(self).state(old(mem)),
                *i,
                start_ip,
                data,
            ),
            final(self).same_but_regs(*old(self)),
    {
        match i.command {
            Op::In8 => self.write_parameter_u8(mem, &i.params.dst, data as u8),
            Op::In16 => self.write_parameter_u16(mem, i.segment_prefix, &i.params.dst, data),
            _ => {
                // Input byte from I/O port specified in DX into memory location specified in ES:DI.
                // The ES segment cannot be overridden with a segment override prefix.
                let es = self.get_r16(R::ES);
                let di = self.get_r16(R::DI);
                mem.write_u8(es, di, data as u8);
                self.advance(R::DI, 1);
            },
        }
        self.repeat(i.repeat, start_ip);
    }
}

} // verus!
