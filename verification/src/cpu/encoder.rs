use vstd::prelude::*;

use crate::cpu::instruction::{Instruction, InstructionView, ModRegRm};
use crate::cpu::op::{Op, OpView, spec_f6_index, spec_feff_index};
use crate::cpu::parameter::{Parameter, ParameterSet};
use crate::cpu::register::R;
use crate::cpu::segment::Segment;

verus! {

/// Why an instruction could not be encoded.
#[derive(Debug)]
pub enum EncodeError {
    UnhandledOp(Op),
    UnhandledParameter(Parameter),
    Text(String),
}

/// What the encoder answers for an instruction it refuses; for a text
/// message, the text the message begins with.
pub ghost enum EncodeFault {
    UnhandledOp(OpView),
    UnhandledParameter(Parameter),
    Text(Seq<char>),
}

impl EncodeError {
    /// The error is the answer `f`.
    pub open spec fn is_fault(&self, f: EncodeFault) -> bool {
        match *self {
            EncodeError::UnhandledOp(op) => f == EncodeFault::UnhandledOp(op@),
            EncodeError::UnhandledParameter(p) => f == EncodeFault::UnhandledParameter(p),
            EncodeError::Text(s) => f is Text && f->Text_0.len() <= s@.len() && s@.subrange(
                0,
                f->Text_0.len() as int,
            ) == f->Text_0,
        }
    }
}

/// What encoding an instruction comes to: its bytes, a refusal, or an
/// instruction outside what the encoder is defined on.
pub ghost enum Encoding {
    Bytes(Seq<u8>),
    Refused(EncodeFault),
    Undefined,
}

/// `pre` followed by an encoding.
pub open spec fn after(pre: Seq<u8>, e: Encoding) -> Encoding {
    match e {
        Encoding::Bytes(b) => Encoding::Bytes(pre + b),
        _ => e,
    }
}

/// A ModR/M byte from its fields.
pub open spec fn modrm(md: int, reg: int, rm: int) -> u8 {
    (md * 64 + reg * 8 + rm) as u8
}

/// A word in little-endian byte order.
pub open spec fn word_bytes(w: u16) -> Seq<u8> {
    seq![(w % 256) as u8, (w / 256) as u8]
}

/// A register that has an encoding number (every register but IP).
pub open spec fn has_index(r: R) -> bool {
    !(r is IP)
}

/// The ModR/M byte and displacement of an r/m operand with `reg` in the reg
/// field; `None` for an operand that the encoder cannot put there.
pub open spec fn rm_bytes(p: Parameter, reg: int) -> Option<Seq<u8>> {
    match p {
        Parameter::Ptr8(_, a) => Some(seq![modrm(0, reg, 6)] + word_bytes(a)),
        Parameter::Ptr16(_, a) => Some(seq![modrm(0, reg, 6)] + word_bytes(a)),
        Parameter::Ptr8Amode(_, am) => Some(seq![modrm(0, reg, am.spec_index())]),
        Parameter::Ptr16Amode(_, am) => Some(seq![modrm(0, reg, am.spec_index())]),
        Parameter::Ptr8AmodeS8(_, am, d) => Some(seq![modrm(1, reg, am.spec_index()), d as u8]),
        Parameter::Ptr16AmodeS8(_, am, d) => Some(seq![modrm(1, reg, am.spec_index()), d as u8]),
        Parameter::Ptr8AmodeS16(_, am, d) => Some(
            seq![modrm(2, reg, am.spec_index())] + word_bytes(d as u16),
        ),
        Parameter::Ptr16AmodeS16(_, am, d) => Some(
            seq![modrm(2, reg, am.spec_index())] + word_bytes(d as u16),
        ),
        Parameter::Reg8(r) => if has_index(r) {
            Some(seq![modrm(3, reg, r.spec_index())])
        } else {
            None
        },
        Parameter::Reg16(r) => if has_index(r) {
            Some(seq![modrm(3, reg, r.spec_index())])
        } else {
            None
        },
        _ => None,
    }
}

/// A byte-sized r/m operand.
pub open spec fn is_rm8(p: Parameter) -> bool {
    p.is_ptr8() || (p matches Parameter::Reg8(r) && has_index(r))
}

/// A word-sized r/m operand.
pub open spec fn is_rm16(p: Parameter) -> bool {
    p is Ptr16 || p is Ptr16Amode || p is Ptr16AmodeS8 || p is Ptr16AmodeS16 || (p matches Parameter::Reg16(
        r,
    ) && has_index(r))
}

/// The r/m operands that the general r/m encoding takes: the byte-sized
/// ones and a word pointer with an 8-bit displacement. Other word operands
/// are put in the r/m field only by `lea`, `shld` and `shrd`.
pub open spec fn is_rm_operand(p: Parameter) -> bool {
    p.is_ptr8() || p is Ptr16AmodeS8 || (p matches Parameter::Reg8(r) && has_index(r))
}

/// The encoding of an r/m operand where the encoder requires one; the
/// encoder is not defined on other operands.
pub open spec fn rm_enc(p: Parameter, reg: int) -> Encoding {
    if is_rm_operand(p) {
        Encoding::Bytes(rm_bytes(p, reg).unwrap())
    } else {
        Encoding::Undefined
    }
}

/// "r/m8, r8" operands: the r/m is `dst`, the register `src`.
pub open spec fn rm8_r8_enc(ps: ParameterSet) -> Encoding {
    match ps.src {
        Parameter::Reg8(r) => if has_index(r) {
            rm_enc(ps.dst, r.spec_index())
        } else {
            Encoding::Undefined
        },
        _ => Encoding::Undefined,
    }
}

/// "r8, r/m8" operands: the register is `dst`, the r/m `src`.
pub open spec fn r8_rm8_enc(ps: ParameterSet) -> Encoding {
    match ps.dst {
        Parameter::Reg8(r) => if has_index(r) {
            rm_enc(ps.src, r.spec_index())
        } else {
            Encoding::Undefined
        },
        _ => Encoding::Undefined,
    }
}

/// The reg field of the 0x80 group for the 8-bit arithmetic operations.
pub open spec fn spec_arith_index(op: Op) -> int {
    match op {
        Op::Add8 => 0,
        Op::Or8 => 1,
        Op::Adc8 => 2,
        Op::Sbb8 => 3,
        Op::And8 => 4,
        Op::Sub8 => 5,
        Op::Xor8 => 6,
        _ => 7,
    }
}

pub open spec fn is_arith8(op: Op) -> bool {
    op is Add8 || op is Or8 || op is Adc8 || op is Sbb8 || op is And8 || op is Sub8 || op is Xor8
        || op is Cmp8
}

/// The reg field of the 0xF6 group for the 8-bit math operations.
pub open spec fn spec_math_index(op: Op) -> int {
    match op {
        Op::Test8 => 0,
        Op::Not8 => 2,
        Op::Neg8 => 3,
        Op::Mul8 => 4,
        Op::Imul8 => 5,
        Op::Div8 => 6,
        _ => 7,
    }
}

pub open spec fn is_math8(op: Op) -> bool {
    op is Test8 || op is Not8 || op is Neg8 || op is Mul8 || op is Imul8 || op is Div8
        || op is Idiv8
}

/// The 0xF6 group index of an 8-bit math operation is the one the encoder
/// writes for it, and never 1.
pub proof fn lemma_f6_index_is_math_index(op: Op)
    requires
        is_math8(op),
    ensures
        spec_f6_index(op) == spec_math_index(op),
        0 <= spec_f6_index(op) < 8,
        spec_f6_index(op) != 1,
{
}

/// The reg field of the 0xC0 / 0xD0 group for the 8-bit shifts and rotates.
pub open spec fn spec_bitshift_index(op: Op) -> int {
    match op {
        Op::Rol8 => 0,
        Op::Ror8 => 1,
        Op::Rcl8 => 2,
        Op::Rcr8 => 3,
        Op::Shl8 => 4,
        Op::Shr8 => 5,
        _ => 7,
    }
}

pub open spec fn is_bitshift8(op: Op) -> bool {
    op is Rol8 || op is Ror8 || op is Rcl8 || op is Rcr8 || op is Shl8 || op is Shr8 || op is Sar8
}

/// The 8-bit arithmetic operations (add, or, adc, sbb, and, sub, xor, cmp).
pub open spec fn arith8_enc(op: Op, ps: ParameterSet) -> Encoding {
    let base = spec_arith_index(op) * 8;
    match ps.dst {
        Parameter::Reg8(r) => if r is AL && ps.src is Imm8 {
            Encoding::Bytes(seq![(base + 4) as u8, ps.src->Imm8_0])
        } else if !has_index(r) {
            Encoding::Undefined
        } else if ps.src is Imm8 {
            Encoding::Bytes(
                seq![0x80u8, modrm(3, spec_arith_index(op), r.spec_index()), ps.src->Imm8_0],
            )
        } else if ps.src.spec_is_ptr() {
            after(seq![(base + 2) as u8], rm_enc(ps.src, r.spec_index()))
        } else {
            after(seq![base as u8], rm8_r8_enc(ps))
        },
        Parameter::Ptr8(..) | Parameter::Ptr8Amode(..) | Parameter::Ptr8AmodeS8(..)
        | Parameter::Ptr8AmodeS16(..) => after(seq![base as u8], rm8_r8_enc(ps)),
        _ => Encoding::Refused(EncodeFault::Text("unhandled param "@)),
    }
}

/// The 8-bit math operations (test, not, neg, mul, imul, div, idiv).
pub open spec fn math8_enc(op: Op, ps: ParameterSet) -> Encoding {
    match ps.dst {
        Parameter::Reg8(r) => if !has_index(r) {
            Encoding::Undefined
        } else if op is Test8 {
            match ps.src {
                Parameter::Imm8(i) => if r is AL {
                    Encoding::Bytes(seq![0xA8u8, i])
                } else {
                    Encoding::Bytes(seq![0xF6u8, modrm(3, spec_math_index(op), r.spec_index()), i])
                },
                _ => after(seq![0x84u8], rm8_r8_enc(ps)),
            }
        } else {
            Encoding::Bytes(seq![0xF6u8, modrm(3, spec_math_index(op), r.spec_index())])
        },
        Parameter::Ptr8(..) | Parameter::Ptr8Amode(..) | Parameter::Ptr8AmodeS8(..)
        | Parameter::Ptr8AmodeS16(..) => if op is Test8 {
            after(seq![0x84u8], rm8_r8_enc(ps))
        } else {
            after(seq![0xF6u8], rm_enc(ps.dst, spec_f6_index(op)))
        },
        _ => Encoding::Refused(EncodeFault::Text("unexpected dst type: "@)),
    }
}

/// The 8-bit shifts and rotates by an immediate count.
pub open spec fn bitshift8_enc(op: Op, ps: ParameterSet) -> Encoding {
    match ps.dst {
        Parameter::Reg8(r) => match ps.src {
            Parameter::Imm8(i) => if !has_index(r) {
                Encoding::Undefined
            } else if i == 1 {
                Encoding::Bytes(seq![0xD0u8, modrm(3, spec_bitshift_index(op), r.spec_index())])
            } else {
                Encoding::Bytes(seq![0xC0u8, modrm(3, spec_bitshift_index(op), r.spec_index()), i])
            },
            _ => Encoding::Undefined,
        },
        _ => Encoding::Refused(EncodeFault::Text("unexpected dst type: "@)),
    }
}

/// `mov` of a byte.
pub open spec fn mov8_enc(ps: ParameterSet) -> Encoding {
    match ps.dst {
        Parameter::Reg8(r) => if r is AL && ps.src is Ptr8 {
            Encoding::Bytes(seq![0xA0u8] + word_bytes(ps.src->Ptr8_1))
        } else if !has_index(r) {
            Encoding::Undefined
        } else if ps.src is Imm8 {
            Encoding::Bytes(seq![(0xB0 + r.spec_index()) as u8, ps.src->Imm8_0])
        } else if ps.src.spec_is_ptr() {
            after(seq![0x8Au8], r8_rm8_enc(ps))
        } else {
            after(seq![0x88u8], rm8_r8_enc(ps))
        },
        Parameter::Ptr8(_, a) => if ps.src == Parameter::Reg8(R::AL) {
            Encoding::Bytes(seq![0xA2u8] + word_bytes(a))
        } else {
            after(seq![0x88u8], rm8_r8_enc(ps))
        },
        Parameter::Ptr8Amode(..) | Parameter::Ptr8AmodeS8(..) | Parameter::Ptr8AmodeS16(
            ..,
        ) => after(seq![0x88u8], rm8_r8_enc(ps)),
        _ => Encoding::Refused(EncodeFault::UnhandledParameter(ps.dst)),
    }
}

/// `mov` of a word: only "r16, imm16".
pub open spec fn mov16_enc(ps: ParameterSet) -> Encoding {
    if ps.dst.spec_is_reg() && ps.src.spec_is_imm() {
        match ps.dst {
            Parameter::Reg16(r) => if !has_index(r) {
                Encoding::Undefined
            } else {
                match ps.src {
                    Parameter::Imm16(v) => Encoding::Bytes(
                        seq![(0xB8 + r.spec_index()) as u8] + word_bytes(v),
                    ),
                    _ => Encoding::Refused(EncodeFault::UnhandledParameter(ps.src)),
                }
            },
            _ => Encoding::Refused(EncodeFault::UnhandledParameter(ps.dst)),
        }
    } else {
        Encoding::Refused(EncodeFault::UnhandledParameter(ps.dst))
    }
}

/// `inc` / `dec` of a word: the one-byte form for a register.
pub open spec fn incdec16_enc(op: Op, ps: ParameterSet) -> Encoding {
    match ps.dst {
        Parameter::Reg16(r) => if !has_index(r) {
            Encoding::Undefined
        } else if op is Inc16 {
            Encoding::Bytes(seq![(0x40 + r.spec_index()) as u8])
        } else {
            Encoding::Bytes(seq![(0x48 + r.spec_index()) as u8])
        },
        _ => after(seq![0xFFu8], rm_enc(ps.dst, spec_feff_index(op))),
    }
}

/// `int`: the one-byte forms for 1 and 3.
pub open spec fn int_enc(ps: ParameterSet) -> Encoding {
    match ps.dst {
        Parameter::Imm8(v) => if v == 1 {
            Encoding::Bytes(seq![0xF1u8])
        } else if v == 3 {
            Encoding::Bytes(seq![0xCCu8])
        } else {
            Encoding::Bytes(seq![0xCDu8, v])
        },
        _ => Encoding::Refused(EncodeFault::UnhandledParameter(ps.dst)),
    }
}

/// `xchg r/m8, r8`.
pub open spec fn xchg8_enc(ps: ParameterSet) -> Encoding {
    match ps.src {
        Parameter::Reg8(r) => if has_index(r) && is_rm8(ps.dst) {
            after(seq![0x86u8], rm_enc(ps.dst, r.spec_index()))
        } else if !has_index(r) {
            Encoding::Refused(EncodeFault::UnhandledParameter(ps.src))
        } else {
            Encoding::Refused(EncodeFault::UnhandledParameter(ps.dst))
        },
        _ => Encoding::Refused(EncodeFault::UnhandledParameter(ps.src)),
    }
}

/// `lea r16, m16`.
pub open spec fn lea16_enc(ps: ParameterSet) -> Encoding {
    match ps.dst {
        Parameter::Reg16(r) => if !has_index(r) {
            Encoding::Refused(EncodeFault::UnhandledParameter(ps.dst))
        } else if is_rm16(ps.src) {
            Encoding::Bytes(seq![0x8Du8] + rm_bytes(ps.src, r.spec_index()).unwrap())
        } else {
            Encoding::Refused(EncodeFault::UnhandledParameter(ps.src))
        },
        _ => Encoding::Refused(EncodeFault::UnhandledParameter(ps.dst)),
    }
}

/// `shld` / `shrd r/m16, r16, imm8`.
pub open spec fn double_shift_enc(op: Op, ps: ParameterSet) -> Encoding {
    let code: u8 = if op is Shld { 0xA4 } else { 0xAC };
    if !is_rm16(ps.dst) {
        Encoding::Refused(EncodeFault::UnhandledParameter(ps.dst))
    } else {
        match ps.src {
            Parameter::Reg16(r) => if !has_index(r) {
                Encoding::Refused(EncodeFault::UnhandledParameter(ps.src))
            } else {
                match ps.src2 {
                    Parameter::Imm8(i) => after(
                        seq![0x0Fu8, code],
                        after(rm_bytes(ps.dst, r.spec_index()).unwrap(), Encoding::Bytes(seq![i])),
                    ),
                    _ => Encoding::Refused(EncodeFault::UnhandledParameter(ps.src2)),
                }
            },
            _ => Encoding::Refused(EncodeFault::UnhandledParameter(ps.src)),
        }
    }
}

/// The encoding of an operation and its operands, without prefixes.
pub open spec fn op_enc(cmd: OpView, ps: ParameterSet) -> Encoding {
    match cmd {
        OpView::Valid(op) => if op is Aaa {
            Encoding::Bytes(seq![0x37u8])
        } else if op is Aas {
            Encoding::Bytes(seq![0x3Fu8])
        } else if op is Dec8 || op is Inc8 {
            after(seq![0xFEu8], rm_enc(ps.dst, spec_feff_index(op)))
        } else if op is Dec16 || op is Inc16 {
            incdec16_enc(op, ps)
        } else if op is Int {
            int_enc(ps)
        } else if op is Mov8 {
            mov8_enc(ps)
        } else if op is Mov16 {
            mov16_enc(ps)
        } else if is_arith8(op) {
            arith8_enc(op, ps)
        } else if is_math8(op) {
            math8_enc(op, ps)
        } else if is_bitshift8(op) {
            bitshift8_enc(op, ps)
        } else if op is Push16 {
            match ps.dst {
                Parameter::Imm16(v) => Encoding::Bytes(seq![0x68u8] + word_bytes(v)),
                _ => Encoding::Refused(EncodeFault::UnhandledParameter(ps.dst)),
            }
        } else if op is Popf {
            Encoding::Bytes(seq![0x9Du8])
        } else if op is Xchg8 {
            xchg8_enc(ps)
        } else if op is Lea16 {
            lea16_enc(ps)
        } else if op is Shld || op is Shrd {
            double_shift_enc(op, ps)
        } else {
            Encoding::Refused(EncodeFault::UnhandledOp(cmd))
        },
        OpView::Invalid(..) => Encoding::Refused(EncodeFault::UnhandledOp(cmd)),
    }
}

/// The prefix byte of a segment override; none for the default segment.
pub open spec fn segment_prefix_bytes(s: Segment) -> Seq<u8> {
    match s {
        Segment::Default => seq![],
        Segment::ES => seq![0x26u8],
        Segment::CS => seq![0x2Eu8],
        Segment::SS => seq![0x36u8],
        Segment::DS => seq![0x3Eu8],
        Segment::FS => seq![0x64u8],
        Segment::GS => seq![0x65u8],
    }
}

/// The prefix bytes of an instruction: LOCK, then the segment override.
pub open spec fn prefix_bytes(i: InstructionView) -> Seq<u8> {
    (if i.lock { seq![0xF0u8] } else { seq![] }) + segment_prefix_bytes(i.segment_prefix)
}

/// The encoding of an instruction.
pub open spec fn spec_encode(i: InstructionView) -> Encoding {
    after(prefix_bytes(i), op_enc(i.command, i.params))
}

/// The instructions the encoder is defined on.
pub open spec fn encodable(i: InstructionView) -> bool {
    !(spec_encode(i) is Undefined)
}

/// The bytes of a sequence of instructions, or the first refusal among them.
pub open spec fn spec_encode_seq(s: Seq<InstructionView>) -> Encoding
    decreases s.len(),
{
    if s.len() == 0 {
        Encoding::Bytes(seq![])
    } else {
        match spec_encode(s[0]) {
            Encoding::Bytes(b) => after(b, spec_encode_seq(s.drop_first())),
            e => e,
        }
    }
}

/// Encodes instructions into machine code.
#[derive(Default)]
pub struct Encoder {}

/// Text that begins with `prefix` and goes on with the debug form of `p`.
/// Calls `format!`, whose `{}` writes a string as it is; what follows the
/// prefix (the derived debug form) is left unstated.
#[verifier::external_body]
fn param_message(prefix: &str, p: &Parameter) -> (s: String)
    ensures
        prefix@.len() <= s@.len(),
        s@.subrange(0, prefix@.len() as int) == prefix@,
{
    format!("{}{:?}", prefix, p)
}

/// Appends a word in little-endian byte order.
fn push_word(out: &mut Vec<u8>, w: u16)
    ensures
        final(out)@ == old(out)@ + word_bytes(w),
{
    assert((w & 0xFF) as u8 == (w % 256) as u8 && (w >> 8u16) as u8 == (w / 256) as u8)
        by (bit_vector);
    out.push((w & 0xFF) as u8);
    out.push((w >> 8u16) as u8);
}

/// Whether an operand is a byte-sized memory operand.
fn is_ptr8(p: &Parameter) -> (r: bool)
    ensures
        r == p.is_ptr8(),
{
    match *p {
        Parameter::Ptr8(..) | Parameter::Ptr8Amode(..) | Parameter::Ptr8AmodeS8(..)
        | Parameter::Ptr8AmodeS16(..) => true,
        _ => false,
    }
}

/// Whether an operand is one the general r/m encoding takes.
fn is_rm_operand_exec(p: &Parameter) -> (r: bool)
    ensures
        r == is_rm_operand(*p),
{
    match *p {
        Parameter::Ptr8(..) | Parameter::Ptr8Amode(..) | Parameter::Ptr8AmodeS8(..)
        | Parameter::Ptr8AmodeS16(..) | Parameter::Ptr16AmodeS8(..) => true,
        Parameter::Reg8(r) => r != R::IP,
        _ => false,
    }
}

/// Whether "r/m8, r8" operands are ones the encoder is defined on.
fn rm8_r8_defined(ps: &ParameterSet) -> (r: bool)
    ensures
        r == !(rm8_r8_enc(*ps) is Undefined),
{
    match ps.src {
        Parameter::Reg8(r) => r != R::IP && is_rm_operand_exec(&ps.dst),
        _ => false,
    }
}

/// Whether the encoder is defined on an operation with the operands `ps`.
fn op_defined(op: &Op, ps: &ParameterSet) -> (r: bool)
    ensures
        r == !(op_enc(op@, *ps) is Undefined),
{
    match *op {
        Op::Inc8 | Op::Dec8 => is_rm_operand_exec(&ps.dst),
        Op::Inc16 | Op::Dec16 => match ps.dst {
            Parameter::Reg16(r) => r != R::IP,
            _ => is_rm_operand_exec(&ps.dst),
        },
        Op::Mov8 => match ps.dst {
            Parameter::Reg8(r) => if r == R::AL && matches!(ps.src, Parameter::Ptr8(..)) {
                true
            } else if r == R::IP {
                false
            } else if matches!(ps.src, Parameter::Imm8(_)) {
                true
            } else if ps.src.is_ptr() {
                is_rm_operand_exec(&ps.src)
            } else {
                rm8_r8_defined(ps)
            },
            Parameter::Ptr8(..) => matches!(ps.src, Parameter::Reg8(R::AL)) || rm8_r8_defined(ps),
            Parameter::Ptr8Amode(..) | Parameter::Ptr8AmodeS8(..) | Parameter::Ptr8AmodeS16(..) => rm8_r8_defined(ps),
            _ => true,
        },
        Op::Mov16 => if ps.dst.is_reg() && ps.src.is_imm() {
            match ps.dst {
                Parameter::Reg16(r) => r != R::IP,
                _ => true,
            }
        } else {
            true
        },
        Op::Add8 | Op::Or8 | Op::Adc8 | Op::Sbb8 | Op::And8 | Op::Sub8 | Op::Xor8 | Op::Cmp8 => match ps.dst {
            Parameter::Reg8(r) => if r == R::AL && matches!(ps.src, Parameter::Imm8(_)) {
                true
            } else if r == R::IP {
                false
            } else if matches!(ps.src, Parameter::Imm8(_)) {
                true
            } else if ps.src.is_ptr() {
                is_rm_operand_exec(&ps.src)
            } else {
                rm8_r8_defined(ps)
            },
            Parameter::Ptr8(..) | Parameter::Ptr8Amode(..) | Parameter::Ptr8AmodeS8(..)
            | Parameter::Ptr8AmodeS16(..) => rm8_r8_defined(ps),
            _ => true,
        },
        Op::Test8 | Op::Not8 | Op::Neg8 | Op::Mul8 | Op::Imul8 | Op::Div8 | Op::Idiv8 => match ps.dst {
            Parameter::Reg8(r) => if r == R::IP {
                false
            } else if matches!(*op, Op::Test8) {
                matches!(ps.src, Parameter::Imm8(_)) || rm8_r8_defined(ps)
            } else {
                true
            },
            Parameter::Ptr8(..) | Parameter::Ptr8Amode(..) | Parameter::Ptr8AmodeS8(..)
            | Parameter::Ptr8AmodeS16(..) => !matches!(*op, Op::Test8) || rm8_r8_defined(ps),
            _ => true,
        },
        Op::Rol8 | Op::Ror8 | Op::Rcl8 | Op::Rcr8 | Op::Shl8 | Op::Shr8 | Op::Sar8 => match ps.dst {
            Parameter::Reg8(r) => matches!(ps.src, Parameter::Imm8(_)) && r != R::IP,
            _ => true,
        },
        _ => true,
    }
}

impl Encoder {
    pub fn new() -> (r: Self) {
        Encoder {}
    }

    /// Whether the encoder is defined on the instruction: its operands are
    /// of kinds that the encoding of its operation can hold.
    pub fn can_encode(&self, op: &Instruction) -> (b: bool)
        ensures
            b == encodable(op@),
    {
        op_defined(&op.command, &op.params)
    }

    /// Encodes instructions one after another; stops at the first that is
    /// refused and returns its error.
    pub fn encode_vec(&self, ops: &[Instruction]) -> (r: Result<Vec<u8>, EncodeError>)
        requires
            forall|k: int| 0 <= k < ops@.len() ==> encodable(#[trigger] ops@[k]@),
        ensures
            match r {
                Ok(v) => spec_encode_seq(ops@.map_values(|i: Instruction| i@)) == Encoding::Bytes(v@),
                Err(e) => spec_encode_seq(ops@.map_values(|i: Instruction| i@)) matches Encoding::Refused(f)
                    && e.is_fault(f),
            },
    {
        let ghost views = ops@.map_values(|i: Instruction| i@);
        let mut out: Vec<u8> = Vec::new();
        let mut k: usize = 0;
        proof {
            assert(views.subrange(0, views.len() as int) =~= views);
            let e = spec_encode_seq(views);
            if e is Bytes {
                assert(out@ + e->Bytes_0 =~= e->Bytes_0);
            }
        }
        while k < ops.len()
            invariant
                k <= ops@.len(),
                views == ops@.map_values(|i: Instruction| i@),
                forall|j: int| 0 <= j < ops@.len() ==> encodable(#[trigger] ops@[j]@),
                after(out@, spec_encode_seq(views.subrange(k as int, views.len() as int)))
                    == spec_encode_seq(views),
            decreases ops@.len() - k,
        {
            let ghost rest = views.subrange(k as int, views.len() as int);
            assert(rest[0] == ops@[k as int]@);
            assert(rest.drop_first() =~= views.subrange(k + 1, views.len() as int));
            let enc = self.encode(&ops[k]);
            match enc {
                Ok(mut data) => {
                    proof {
                        assert(out@ + data@ + spec_encode_seq(rest.drop_first())->Bytes_0
                            =~= out@ + (data@ + spec_encode_seq(rest.drop_first())->Bytes_0));
                    }
                    out.append(&mut data);
                },
                Err(e) => {
                    return Err(e);
                },
            }
            k = k + 1;
        }
        proof {
            assert(views.subrange(k as int, views.len() as int) =~= Seq::<InstructionView>::empty());
            assert(out@ + seq![] =~= out@);
        }
        Ok(out)
    }

    /// encodes Instruction to a valid byte sequence
    pub fn encode(&self, op: &Instruction) -> (r: Result<Vec<u8>, EncodeError>)
        requires
            encodable(op@),
        ensures
            match r {
                Ok(v) => spec_encode(op@) == Encoding::Bytes(v@),
                Err(e) => spec_encode(op@) matches Encoding::Refused(f) && e.is_fault(f),
            },
    {
        let mut out: Vec<u8> = Vec::new();
        if op.lock {
            out.push(0xF0);
        }
        match op.segment_prefix {
            Segment::Default => {},
            Segment::ES => out.push(0x26),
            Segment::CS => out.push(0x2E),
            Segment::SS => out.push(0x36),
            Segment::DS => out.push(0x3E),
            Segment::FS => out.push(0x64),
            Segment::GS => out.push(0x65),
        }
        assert(out@ =~= prefix_bytes(op@));
        match self.encode_op(op) {
            Ok(mut data) => {
                out.append(&mut data);
                Ok(out)
            },
            Err(e) => Err(e),
        }
    }

    /// The operation and its operands, without prefixes.
    fn encode_op(&self, op: &Instruction) -> (r: Result<Vec<u8>, EncodeError>)
        requires
            !(op_enc(op.command@, op.params) is Undefined),
        ensures
            match r {
                Ok(v) => op_enc(op.command@, op.params) == Encoding::Bytes(v@),
                Err(e) => op_enc(op.command@, op.params) matches Encoding::Refused(f) && e.is_fault(f),
            },
    {
        let mut out: Vec<u8> = Vec::new();
        match op.command {
            Op::Aaa => out.push(0x37),
            Op::Aas => out.push(0x3F),
            Op::Dec8 | Op::Inc8 => {
                // 0xFE: r/m8
                out.push(0xFE);
                let mut rm = self.encode_rm(&op.params.dst, op.command.feff_index());
                out.append(&mut rm);
            },
            Op::Dec16 | Op::Inc16 => {
                if let Parameter::Reg16(r) = op.params.dst {
                    let idx = r.index() as u8;
                    match op.command {
                        Op::Inc16 => out.push(0x40 | idx),  // 0x40...0x47: inc r16
                        _ => out.push(0x48 | idx),  // 0x48...0x4F: dec r16
                    }
                    assert(0x40 | idx == 0x40 + idx && 0x48 | idx == 0x48 + idx) by (bit_vector)
                        requires idx < 8;
                } else {
                    // 0xFF: r/m16
                    out.push(0xFF);
                    let mut rm = self.encode_rm(&op.params.dst, op.command.feff_index());
                    out.append(&mut rm);
                }
            },
            Op::Int => {
                if let Parameter::Imm8(imm) = op.params.dst {
                    if imm == 1 {
                        out.push(0xF1);
                    } else if imm == 3 {
                        out.push(0xCC);
                    } else {
                        out.push(0xCD);
                        out.push(imm);
                    }
                } else {
                    return Err(EncodeError::UnhandledParameter(op.params.dst));
                }
            },
            Op::Mov8 => return self.mov8_instr(&op.params),
            Op::Mov16 => {
                //0xB8...0xBF: mov r16, u16
                if op.params.dst.is_reg() && op.params.src.is_imm() {
                    if let Parameter::Reg16(r) = op.params.dst {
                        let idx = r.index() as u8;
                        assert(0xB8 | idx == 0xB8 + idx) by (bit_vector)
                            requires idx < 8;
                        out.push(0xB8 | idx);
                    } else {
                        return Err(EncodeError::UnhandledParameter(op.params.dst));
                    }
                    if let Parameter::Imm16(imm16) = op.params.src {
                        push_word(&mut out, imm16);
                    } else {
                        return Err(EncodeError::UnhandledParameter(op.params.src));
                    }
                } else {
                    return Err(EncodeError::UnhandledParameter(op.params.dst));
                }
            },
            Op::And8 | Op::Or8 | Op::Add8 | Op::Adc8 | Op::Sub8 | Op::Sbb8 | Op::Cmp8 | Op::Xor8 => {
                match self.arith_instr8(op) {
                    Ok(mut data) => out.append(&mut data),
                    Err(why) => return Err(EncodeError::Text(why)),
                }
            },
            Op::Test8 | Op::Not8 | Op::Neg8 | Op::Mul8 | Op::Imul8 | Op::Div8 | Op::Idiv8 => {
                match self.math_instr8(op) {
                    Ok(mut data) => out.append(&mut data),
                    Err(why) => return Err(EncodeError::Text(why)),
                }
            },
            Op::Rol8 | Op::Ror8 | Op::Rcl8 | Op::Rcr8 | Op::Shl8 | Op::Shr8 | Op::Sar8 => {
                match self.bitshift_instr8(op) {
                    Ok(mut data) => out.append(&mut data),
                    Err(why) => return Err(EncodeError::Text(why)),
                }
            },
            Op::Push16 => {
                if let Parameter::Imm16(imm16) = op.params.dst {
                    // 0x68: push imm16
                    out.push(0x68);
                    push_word(&mut out, imm16);
                } else {
                    return Err(EncodeError::UnhandledParameter(op.params.dst));
                }
            },
            Op::Popf => out.push(0x9D),
            Op::Xchg8 => return self.xchg8_instr(&op.params),
            Op::Lea16 => return self.lea16_instr(&op.params),
            Op::Shld | Op::Shrd => return self.double_shift_instr(op),
            _ => {
                return Err(EncodeError::UnhandledOp(op.command.duplicate()));
            },
        }
        proof {
            assert(out@ =~= op_enc(op.command@, op.params)->Bytes_0);
        }
        Ok(out)
    }

    fn mov8_instr(&self, ps: &ParameterSet) -> (r: Result<Vec<u8>, EncodeError>)
        requires
            !(mov8_enc(*ps) is Undefined),
        ensures
            match r {
                Ok(v) => mov8_enc(*ps) == Encoding::Bytes(v@),
                Err(e) => mov8_enc(*ps) matches Encoding::Refused(f) && e.is_fault(f),
            },
    {
        let mut out: Vec<u8> = Vec::new();
        match ps.dst {
            Parameter::Reg8(r) => {
                if r == R::AL {
                    if let Parameter::Ptr8(_, imm16) = ps.src {
                        // 0xA0: mov AL, [moffs8]
                        out.push(0xA0);
                        push_word(&mut out, imm16);
                        assert(out@ =~= seq![0xA0u8] + word_bytes(imm16));
                        return Ok(out);
                    }
                }
                if let Parameter::Imm8(i) = ps.src {
                    // 0xB0...0xB7: mov r8, u8
                    let idx = r.index() as u8;
                    assert(0xB0 | idx == 0xB0 + idx) by (bit_vector)
                        requires idx < 8;
                    out.push(0xB0 | idx);
                    out.push(i);
                    assert(out@ =~= seq![(0xB0 + r.spec_index()) as u8, i]);
                } else if ps.src.is_ptr() {
                    // 0x8A: mov r8, r/m8
                    out.push(0x8A);
                    let mut rm = self.encode_r8_rm8(ps);
                    out.append(&mut rm);
                    assert(out@ =~= seq![0x8Au8] + r8_rm8_enc(*ps)->Bytes_0);
                } else {
                    // 0x88: mov r/m8, r8
                    out.push(0x88);
                    let mut rm = self.encode_rm8_r8(ps);
                    out.append(&mut rm);
                    assert(out@ =~= seq![0x88u8] + rm8_r8_enc(*ps)->Bytes_0);
                }
            },
            Parameter::Ptr8(..) | Parameter::Ptr8Amode(..) | Parameter::Ptr8AmodeS8(..)
            | Parameter::Ptr8AmodeS16(..) => {
                if let Parameter::Ptr8(_, imm16) = ps.dst {
                    if let Parameter::Reg8(r) = ps.src {
                        if r == R::AL {
                            // 0xA2: mov [moffs8], AL
                            out.push(0xA2);
                            push_word(&mut out, imm16);
                            assert(out@ =~= seq![0xA2u8] + word_bytes(imm16));
                            return Ok(out);
                        }
                    }
                }
                // 0x88: mov r/m8, r8
                out.push(0x88);
                let mut rm = self.encode_rm8_r8(ps);
                out.append(&mut rm);
                assert(out@ =~= seq![0x88u8] + rm8_r8_enc(*ps)->Bytes_0);
            },
            _ => {
                return Err(EncodeError::UnhandledParameter(ps.dst));
            },
        }
        Ok(out)
    }

    fn arith_instr8(&self, ins: &Instruction) -> (r: Result<Vec<u8>, String>)
        requires
            is_arith8(ins.command),
            !(arith8_enc(ins.command, ins.params) is Undefined),
        ensures
            match r {
                Ok(v) => arith8_enc(ins.command, ins.params) == Encoding::Bytes(v@),
                Err(s) => EncodeError::Text(s).is_fault(
                    arith8_enc(ins.command, ins.params)->Refused_0,
                ) && arith8_enc(ins.command, ins.params) is Refused,
            },
    {
        let mut out: Vec<u8> = Vec::new();
        let reg = self.arith_index(&ins.command);
        let idx = reg * 8;
        if let Parameter::Reg8(r) = ins.params.dst {
            if r == R::AL {
                if let Parameter::Imm8(imm) = ins.params.src {
                    // 0x04, 0x0C, .. 0x3C: <arithmetic> AL, imm8
                    out.push(idx + 4);
                    out.push(imm);
                    assert(out@ =~= seq![(idx + 4) as u8, imm]);
                    return Ok(out);
                }
            }
        }
        match ins.params.dst {
            Parameter::Reg8(r) => {
                if let Parameter::Imm8(i) = ins.params.src {
                    // 0x80: <arithmetic> r/m8, imm8
                    // md 3 = register adressing
                    let mrr = ModRegRm { md: 3, rm: r.index() as u8, reg };
                    out.push(0x80);
                    out.push(mrr.u8());
                    out.push(i);
                    assert(out@ =~= seq![0x80u8, modrm(3, reg as int, r.spec_index()), i]);
                } else if ins.params.src.is_ptr() {
                    // 0x02, 0x0A, .. 0x3A: <arithmetic> r8, r/m8
                    out.push(idx + 2);
                    let mut rm = self.encode_rm(&ins.params.src, r.index() as u8);
                    out.append(&mut rm);
                    assert(out@ =~= seq![(idx + 2) as u8] + rm_bytes(ins.params.src, r.spec_index()).unwrap());
                } else {
                    // 0x00, 0x08, .. 0x38: <arithmetic> r/m8, r8
                    out.push(idx);
                    let mut rm = self.encode_rm8_r8(&ins.params);
                    out.append(&mut rm);
                    assert(out@ =~= seq![idx] + rm8_r8_enc(ins.params)->Bytes_0);
                }
                Ok(out)
            },
            Parameter::Ptr8(..) | Parameter::Ptr8Amode(..) | Parameter::Ptr8AmodeS8(..)
            | Parameter::Ptr8AmodeS16(..) => {
                // 0x00, 0x08, .. 0x38: <arithmetic> r/m8, r8
                out.push(idx);
                let mut rm = self.encode_rm8_r8(&ins.params);
                out.append(&mut rm);
                assert(out@ =~= seq![idx] + rm8_r8_enc(ins.params)->Bytes_0);
                Ok(out)
            },
            _ => Err(param_message("unhandled param ", &ins.params.dst)),
        }
    }

    fn math_instr8(&self, ins: &Instruction) -> (r: Result<Vec<u8>, String>)
        requires
            is_math8(ins.command),
            !(math8_enc(ins.command, ins.params) is Undefined),
        ensures
            match r {
                Ok(v) => math8_enc(ins.command, ins.params) == Encoding::Bytes(v@),
                Err(s) => EncodeError::Text(s).is_fault(
                    math8_enc(ins.command, ins.params)->Refused_0,
                ) && math8_enc(ins.command, ins.params) is Refused,
            },
    {
        let mut out: Vec<u8> = Vec::new();
        match ins.params.dst {
            Parameter::Reg8(r) => {
                let is_test = match ins.command {
                    Op::Test8 => true,
                    _ => false,
                };
                if is_test {
                    if let Parameter::Imm8(i) = ins.params.src {
                        if r == R::AL {
                            // 0xA8: test AL, imm8
                            out.push(0xA8);
                        } else {
                            // 0xF6: test r/m8, imm8
                            out.push(0xF6);
                            out.push(ModRegRm::rm_reg(r.index() as u8, self.math_index(&ins.command)));
                        }
                        out.push(i);
                        assert(r is AL ==> out@ =~= seq![0xA8u8, i]);
                        assert(!(r is AL) ==> out@ =~= seq![0xF6u8, modrm(3, spec_math_index(ins.command), r.spec_index()), i]);
                    } else {
                        // 0x84: test r/m8, r8
                        out.push(0x84);
                        let mut rm = self.encode_rm8_r8(&ins.params);
                        out.append(&mut rm);
                        assert(out@ =~= seq![0x84u8] + rm8_r8_enc(ins.params)->Bytes_0);
                    }
                } else {
                    // 0xF6: <math> r/m8.  reg = instruction
                    out.push(0xF6);
                    out.push(ModRegRm::rm_reg(r.index() as u8, self.math_index(&ins.command)));
                    assert(out@ =~= seq![0xF6u8, modrm(3, spec_math_index(ins.command), r.spec_index())]);
                }
                Ok(out)
            },
            Parameter::Ptr8(..) | Parameter::Ptr8Amode(..) | Parameter::Ptr8AmodeS8(..)
            | Parameter::Ptr8AmodeS16(..) => {
                let is_test = match ins.command {
                    Op::Test8 => true,
                    _ => false,
                };
                if is_test {
                    // 0x84: test r/m8, r8
                    out.push(0x84);
                    let mut rm = self.encode_rm8_r8(&ins.params);
                    out.append(&mut rm);
                    assert(out@ =~= seq![0x84u8] + rm8_r8_enc(ins.params)->Bytes_0);
                } else {
                    // 0xF6: <math> r/m8
                    out.push(0xF6);
                    let mut rm = self.encode_rm(&ins.params.dst, ins.command.f6_index());
                    out.append(&mut rm);
                    assert(out@ =~= seq![0xF6u8] + rm_bytes(ins.params.dst, spec_f6_index(ins.command)).unwrap());
                }
                Ok(out)
            },
            _ => Err(param_message("unexpected dst type: ", &ins.params.dst)),
        }
    }

    fn bitshift_instr8(&self, ins: &Instruction) -> (r: Result<Vec<u8>, String>)
        requires
            is_bitshift8(ins.command),
            !(bitshift8_enc(ins.command, ins.params) is Undefined),
        ensures
            match r {
                Ok(v) => bitshift8_enc(ins.command, ins.params) == Encoding::Bytes(v@),
                Err(s) => EncodeError::Text(s).is_fault(
                    bitshift8_enc(ins.command, ins.params)->Refused_0,
                ) && bitshift8_enc(ins.command, ins.params) is Refused,
            },
    {
        let mut out: Vec<u8> = Vec::new();
        match ins.params.dst {
            Parameter::Reg8(r) => {
                if let Parameter::Imm8(i) = ins.params.src {
                    // md 3 = register adressing
                    let mrr = ModRegRm {
                        md: 3,
                        rm: r.index() as u8,
                        reg: self.bitshift_index(&ins.command),
                    };
                    if i == 1 {
                        // 0xD0: bit shift byte by 1
                        out.push(0xD0);
                        out.push(mrr.u8());
                        assert(out@ =~= seq![0xD0u8, modrm(3, spec_bitshift_index(ins.command), r.spec_index())]);
                    } else {
                        // 0xC0: r8, byte imm8
                        out.push(0xC0);
                        out.push(mrr.u8());
                        out.push(i);
                        assert(out@ =~= seq![0xC0u8, modrm(3, spec_bitshift_index(ins.command), r.spec_index()), i]);
                    }
                }
                Ok(out)
            },
            _ => Err(param_message("unexpected dst type: ", &ins.params.dst)),
        }
    }

    fn xchg8_instr(&self, ps: &ParameterSet) -> (r: Result<Vec<u8>, EncodeError>)
        ensures
            match r {
                Ok(v) => xchg8_enc(*ps) == Encoding::Bytes(v@),
                Err(e) => xchg8_enc(*ps) matches Encoding::Refused(f) && e.is_fault(f),
            },
    {
        match ps.src {
            Parameter::Reg8(r) => {
                if r == R::IP {
                    return Err(EncodeError::UnhandledParameter(ps.src));
                }
                let ok = match ps.dst {
                    Parameter::Reg8(d) => d != R::IP,
                    _ => is_ptr8(&ps.dst),
                };
                if !ok {
                    return Err(EncodeError::UnhandledParameter(ps.dst));
                }
                // 0x86: xchg r/m8, r8
                let mut out: Vec<u8> = Vec::new();
                out.push(0x86);
                let mut rm = self.encode_rm8_r8(ps);
                out.append(&mut rm);
                Ok(out)
            },
            _ => Err(EncodeError::UnhandledParameter(ps.src)),
        }
    }

    fn lea16_instr(&self, ps: &ParameterSet) -> (r: Result<Vec<u8>, EncodeError>)
        ensures
            match r {
                Ok(v) => lea16_enc(*ps) == Encoding::Bytes(v@),
                Err(e) => lea16_enc(*ps) matches Encoding::Refused(f) && e.is_fault(f),
            },
    {
        match ps.dst {
            Parameter::Reg16(r) => {
                if r == R::IP {
                    return Err(EncodeError::UnhandledParameter(ps.dst));
                }
                if !Self::is_word_rm(&ps.src) {
                    return Err(EncodeError::UnhandledParameter(ps.src));
                }
                // 0x8D: lea r16, m
                let mut out: Vec<u8> = Vec::new();
                out.push(0x8D);
                let mut rm = self.encode_rm16(&ps.src, r.index() as u8);
                out.append(&mut rm);
                Ok(out)
            },
            _ => Err(EncodeError::UnhandledParameter(ps.dst)),
        }
    }

    fn double_shift_instr(&self, ins: &Instruction) -> (r: Result<Vec<u8>, EncodeError>)
        requires
            ins.command is Shld || ins.command is Shrd,
        ensures
            match r {
                Ok(v) => double_shift_enc(ins.command, ins.params) == Encoding::Bytes(v@),
                Err(e) => double_shift_enc(ins.command, ins.params) matches Encoding::Refused(f)
                    && e.is_fault(f),
            },
    {
        let ps = &ins.params;
        if !Self::is_word_rm(&ps.dst) {
            return Err(EncodeError::UnhandledParameter(ps.dst));
        }
        match ps.src {
            Parameter::Reg16(r) => {
                if r == R::IP {
                    return Err(EncodeError::UnhandledParameter(ps.src));
                }
                if !matches!(ps.src2, Parameter::Imm8(_)) {
                    return Err(EncodeError::UnhandledParameter(ps.src2));
                }
                // 0x0F 0xA4: shld r/m16, r16, imm8
                // 0x0F 0xAC: shrd r/m16, r16, imm8
                let mut out: Vec<u8> = Vec::new();
                out.push(0x0F);
                match ins.command {
                    Op::Shld => out.push(0xA4),
                    _ => out.push(0xAC),
                }
                let mut rm = self.encode_rm16(&ps.dst, r.index() as u8);
                out.append(&mut rm);
                let mut imm = self.encode_imm8(&ps.src2);
                out.append(&mut imm);
                proof {
                    let code: u8 = if ins.command is Shld { 0xA4 } else { 0xAC };
                    assert(out@ =~= seq![0x0Fu8, code] + (rm_bytes(ps.dst, r.spec_index()).unwrap()
                        + seq![ps.src2->Imm8_0]));
                }
                Ok(out)
            },
            _ => Err(EncodeError::UnhandledParameter(ps.src)),
        }
    }

    /// Whether an operand is a word-sized r/m operand.
    fn is_word_rm(p: &Parameter) -> (r: bool)
        ensures
            r == is_rm16(*p),
    {
        match *p {
            Parameter::Ptr16(..) | Parameter::Ptr16Amode(..) | Parameter::Ptr16AmodeS8(..)
            | Parameter::Ptr16AmodeS16(..) => true,
            Parameter::Reg16(r) => r != R::IP,
            _ => false,
        }
    }

    fn bitshift_index(&self, op: &Op) -> (r: u8)
        requires
            is_bitshift8(*op),
        ensures
            r == spec_bitshift_index(*op),
            r < 8,
    {
        match *op {
            Op::Rol8 => 0,
            Op::Ror8 => 1,
            Op::Rcl8 => 2,
            Op::Rcr8 => 3,
            Op::Shl8 => 4,
            Op::Shr8 => 5,
            _ => 7,
        }
    }

    fn arith_index(&self, op: &Op) -> (r: u8)
        requires
            is_arith8(*op),
        ensures
            r == spec_arith_index(*op),
            r < 8,
    {
        match *op {
            Op::Add8 => 0,
            Op::Or8 => 1,
            Op::Adc8 => 2,
            Op::Sbb8 => 3,
            Op::And8 => 4,
            Op::Sub8 => 5,
            Op::Xor8 => 6,
            _ => 7,
        }
    }

    fn math_index(&self, op: &Op) -> (r: u8)
        requires
            is_math8(*op),
        ensures
            r == spec_math_index(*op),
            r < 8,
    {
        match *op {
            Op::Test8 => 0,
            Op::Not8 => 2,
            Op::Neg8 => 3,
            Op::Mul8 => 4,
            Op::Imul8 => 5,
            Op::Div8 => 6,
            _ => 7,
        }
    }

    fn encode_r8_rm8(&self, params: &ParameterSet) -> (r: Vec<u8>)
        requires
            r8_rm8_enc(*params) is Bytes,
        ensures
            r8_rm8_enc(*params) == Encoding::Bytes(r@),
    {
        match params.dst {
            Parameter::Reg8(r) => self.encode_rm(&params.src, r.index() as u8),
            _ => Vec::new(),
        }
    }

    fn encode_rm8_r8(&self, params: &ParameterSet) -> (r: Vec<u8>)
        requires
            rm8_r8_enc(*params) is Bytes,
        ensures
            rm8_r8_enc(*params) == Encoding::Bytes(r@),
    {
        match params.src {
            Parameter::Reg8(r) => self.encode_rm(&params.dst, r.index() as u8),
            _ => Vec::new(),
        }
    }

    fn encode_rm(&self, dst: &Parameter, reg: u8) -> (r: Vec<u8>)
        requires
            is_rm_operand(*dst),
            reg < 8,
        ensures
            rm_enc(*dst, reg as int) == Encoding::Bytes(r@),
    {
        let mut out: Vec<u8> = Vec::new();
        match *dst {
            Parameter::Ptr8(_, imm16) => {
                let mrr = ModRegRm { md: 0, rm: 6, reg };
                out.push(mrr.u8());
                push_word(&mut out, imm16);
            },
            Parameter::Ptr8Amode(_, amode) => {
                let mrr = ModRegRm { md: 0, rm: amode.index() as u8, reg };
                out.push(mrr.u8());
            },
            Parameter::Ptr8AmodeS8(_, amode, imm) | Parameter::Ptr16AmodeS8(_, amode, imm) => {
                let mrr = ModRegRm { md: 1, rm: amode.index() as u8, reg };
                out.push(mrr.u8());
                out.push(imm as u8);
            },
            Parameter::Ptr8AmodeS16(_, amode, imm16) => {
                let mrr = ModRegRm { md: 2, rm: amode.index() as u8, reg };
                out.push(mrr.u8());
                push_word(&mut out, imm16 as u16);
            },
            Parameter::Reg8(r) => {
                let mrr = ModRegRm { md: 3, rm: r.index() as u8, reg };
                out.push(mrr.u8());
            },
            _ => {},
        }
        proof {
            assert(out@ =~= rm_bytes(*dst, reg as int).unwrap());
        }
        out
    }

    /// The ModR/M byte and displacement of the word-sized r/m operand of
    /// `lea`, `shld` and `shrd`.
    fn encode_rm16(&self, dst: &Parameter, reg: u8) -> (r: Vec<u8>)
        requires
            is_rm16(*dst),
            reg < 8,
        ensures
            rm_bytes(*dst, reg as int) == Some(r@),
    {
        let mut out: Vec<u8> = Vec::new();
        match *dst {
            Parameter::Ptr16(_, imm16) => {
                let mrr = ModRegRm { md: 0, rm: 6, reg };
                out.push(mrr.u8());
                push_word(&mut out, imm16);
            },
            Parameter::Ptr16Amode(_, amode) => {
                let mrr = ModRegRm { md: 0, rm: amode.index() as u8, reg };
                out.push(mrr.u8());
            },
            Parameter::Ptr16AmodeS8(_, amode, imm) => {
                let mrr = ModRegRm { md: 1, rm: amode.index() as u8, reg };
                out.push(mrr.u8());
                out.push(imm as u8);
            },
            Parameter::Ptr16AmodeS16(_, amode, imm16) => {
                let mrr = ModRegRm { md: 2, rm: amode.index() as u8, reg };
                out.push(mrr.u8());
                push_word(&mut out, imm16 as u16);
            },
            Parameter::Reg16(r) => {
                let mrr = ModRegRm { md: 3, rm: r.index() as u8, reg };
                out.push(mrr.u8());
            },
            _ => {},
        }
        proof {
            assert(out@ =~= rm_bytes(*dst, reg as int).unwrap());
        }
        out
    }

    fn encode_imm8(&self, param: &Parameter) -> (r: Vec<u8>)
        requires
            param is Imm8,
        ensures
            r@ == seq![param->Imm8_0],
    {
        let mut out: Vec<u8> = Vec::new();
        if let Parameter::Imm8(imm) = *param {
            out.push(imm);
        }
        out
    }
}

} // verus!
