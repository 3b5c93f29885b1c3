use vstd::prelude::*;
use vstd::string::*;

use crate::cpu::instruction::{Instruction, InstructionInfo, InstructionView, RepeatMode, spec_hide_segment_prefix};
use crate::cpu::op::{Invalid, Op, OpView};
use crate::cpu::parameter::{Parameter, ParameterSet};
use crate::cpu::segment::{Segment, segment_name};
use crate::cpu::interpreter::CPU;
use crate::cpu::register::{RegsView, R};

verus! {

/// Appends a character to a string (`String::push`).
#[verifier::external_body]
pub(crate) fn push_char(s: &mut String, c: char)
    ensures
        final(s)@ == old(s)@.push(c),
{
    s.push(c);
}

/// The upper-case hexadecimal digit of `d` (0..16).
pub open spec fn hex_digit(d: int) -> char {
    seq!['0', '1', '2', '3', '4', '5', '6', '7', '8', '9', 'A', 'B', 'C', 'D', 'E', 'F'][d]
}

/// The hexadecimal digits of `v`, most significant first, without leading zeros.
pub open spec fn hex_digits(v: nat) -> Seq<char>
    decreases v,
{
    if v < 16 {
        seq![hex_digit(v as int)]
    } else {
        hex_digits(v / 16).push(hex_digit((v % 16) as int))
    }
}

/// `n` zero digits.
pub open spec fn zeros(n: int) -> Seq<char> {
    Seq::new(if n > 0 { n as nat } else { 0 }, |i: int| '0')
}

/// `v` in upper-case hexadecimal, zero-padded to at least `w` digits.
pub open spec fn hex_pad(v: nat, w: nat) -> Seq<char> {
    zeros(w - hex_digits(v).len()) + hex_digits(v)
}

/// The decimal digits of `v`, most significant first.
pub open spec fn dec_digits(v: nat) -> Seq<char>
    decreases v,
{
    if v < 10 {
        seq![hex_digit(v as int)]
    } else {
        dec_digits(v / 10).push(hex_digit((v % 10) as int))
    }
}

/// `s` followed by spaces until its UTF-8 encoding is `len` bytes long.
pub open spec fn pad_right(s: Seq<char>, len: nat) -> Seq<char> {
    let n = (vstd::utf8::encode_utf8(s).len() as usize) as nat;
    s + Seq::new(if n < len { (len - n) as nat } else { 0 }, |i: int| ' ')
}

/// The name of an operation, as its variant is called.
pub open spec fn op_name(op: Op) -> Seq<char> {
    match op {
        Op::Aaa => "Aaa"@,
        Op::Aad => "Aad"@,
        Op::Aam => "Aam"@,
        Op::Aas => "Aas"@,
        Op::Adc8 => "Adc8"@,
        Op::Adc16 => "Adc16"@,
        Op::Add8 => "Add8"@,
        Op::Add16 => "Add16"@,
        Op::Add32 => "Add32"@,
        Op::And8 => "And8"@,
        Op::And16 => "And16"@,
        Op::Arpl => "Arpl"@,
        Op::Bound => "Bound"@,
        Op::Bsf => "Bsf"@,
        Op::Bt => "Bt"@,
        Op::Bts => "Bts"@,
        Op::CallFar => "CallFar"@,
        Op::CallNear => "CallNear"@,
        Op::Cbw => "Cbw"@,
        Op::Clc => "Clc"@,
        Op::Cld => "Cld"@,
        Op::Cli => "Cli"@,
        Op::Cmc => "Cmc"@,
        Op::Cmp8 => "Cmp8"@,
        Op::Cmp16 => "Cmp16"@,
        Op::Cmp32 => "Cmp32"@,
        Op::Cmpsb => "Cmpsb"@,
        Op::Cmpsw => "Cmpsw"@,
        Op::Cwd16 => "Cwd16"@,
        Op::Cwde32 => "Cwde32"@,
        Op::Daa => "Daa"@,
        Op::Das => "Das"@,
        Op::Dec8 => "Dec8"@,
        Op::Dec16 => "Dec16"@,
        Op::Dec32 => "Dec32"@,
        Op::Div8 => "Div8"@,
        Op::Div16 => "Div16"@,
        Op::Div32 => "Div32"@,
        Op::Enter => "Enter"@,
        Op::Hlt => "Hlt"@,
        Op::Idiv8 => "Idiv8"@,
        Op::Idiv16 => "Idiv16"@,
        Op::Idiv32 => "Idiv32"@,
        Op::Imul8 => "Imul8"@,
        Op::Imul16 => "Imul16"@,
        Op::Imul32 => "Imul32"@,
        Op::In8 => "In8"@,
        Op::In16 => "In16"@,
        Op::Inc8 => "Inc8"@,
        Op::Inc16 => "Inc16"@,
        Op::Inc32 => "Inc32"@,
        Op::Insb => "Insb"@,
        Op::Insw => "Insw"@,
        Op::Int => "Int"@,
        Op::Into => "Into"@,
        Op::Iret => "Iret"@,
        Op::Ja => "Ja"@,
        Op::Jc => "Jc"@,
        Op::Jcxz => "Jcxz"@,
        Op::Jg => "Jg"@,
        Op::Jl => "Jl"@,
        Op::JmpFar => "JmpFar"@,
        Op::JmpNear => "JmpNear"@,
        Op::JmpShort => "JmpShort"@,
        Op::Jna => "Jna"@,
        Op::Jnc => "Jnc"@,
        Op::Jng => "Jng"@,
        Op::Jnl => "Jnl"@,
        Op::Jno => "Jno"@,
        Op::Jns => "Jns"@,
        Op::Jnz => "Jnz"@,
        Op::Jo => "Jo"@,
        Op::Jpe => "Jpe"@,
        Op::Jpo => "Jpo"@,
        Op::Js => "Js"@,
        Op::Jz => "Jz"@,
        Op::Lahf => "Lahf"@,
        Op::Lds => "Lds"@,
        Op::Lea16 => "Lea16"@,
        Op::Leave => "Leave"@,
        Op::Les => "Les"@,
        Op::Lodsb => "Lodsb"@,
        Op::Lodsw => "Lodsw"@,
        Op::Lodsd => "Lodsd"@,
        Op::Loop => "Loop"@,
        Op::Loope => "Loope"@,
        Op::Loopne => "Loopne"@,
        Op::Mov8 => "Mov8"@,
        Op::Mov16 => "Mov16"@,
        Op::Mov32 => "Mov32"@,
        Op::Movsb => "Movsb"@,
        Op::Movsw => "Movsw"@,
        Op::Movsd => "Movsd"@,
        Op::Movsx16 => "Movsx16"@,
        Op::Movsx32 => "Movsx32"@,
        Op::Movzx16 => "Movzx16"@,
        Op::Movzx32 => "Movzx32"@,
        Op::Mul8 => "Mul8"@,
        Op::Mul16 => "Mul16"@,
        Op::Mul32 => "Mul32"@,
        Op::Neg8 => "Neg8"@,
        Op::Neg16 => "Neg16"@,
        Op::Neg32 => "Neg32"@,
        Op::Nop => "Nop"@,
        Op::Not8 => "Not8"@,
        Op::Not16 => "Not16"@,
        Op::Or8 => "Or8"@,
        Op::Or16 => "Or16"@,
        Op::Out8 => "Out8"@,
        Op::Out16 => "Out16"@,
        Op::Outsb => "Outsb"@,
        Op::Outsw => "Outsw"@,
        Op::Pop16 => "Pop16"@,
        Op::Pop32 => "Pop32"@,
        Op::Popa16 => "Popa16"@,
        Op::Popad32 => "Popad32"@,
        Op::Popf => "Popf"@,
        Op::Push16 => "Push16"@,
        Op::Push32 => "Push32"@,
        Op::Pusha16 => "Pusha16"@,
        Op::Pushad32 => "Pushad32"@,
        Op::Pushf => "Pushf"@,
        Op::Rcl8 => "Rcl8"@,
        Op::Rcl16 => "Rcl16"@,
        Op::Rcr8 => "Rcr8"@,
        Op::Rcr16 => "Rcr16"@,
        Op::Rcr32 => "Rcr32"@,
        Op::Retf => "Retf"@,
        Op::Retn => "Retn"@,
        Op::RetImm16 => "RetImm16"@,
        Op::Rol8 => "Rol8"@,
        Op::Rol16 => "Rol16"@,
        Op::Ror8 => "Ror8"@,
        Op::Ror16 => "Ror16"@,
        Op::Sahf => "Sahf"@,
        Op::Salc => "Salc"@,
        Op::Sar8 => "Sar8"@,
        Op::Sar16 => "Sar16"@,
        Op::Sar32 => "Sar32"@,
        Op::Sbb8 => "Sbb8"@,
        Op::Sbb16 => "Sbb16"@,
        Op::Scasb => "Scasb"@,
        Op::Scasw => "Scasw"@,
        Op::Setc => "Setc"@,
        Op::Setnz => "Setnz"@,
        Op::Shl8 => "Shl8"@,
        Op::Shl16 => "Shl16"@,
        Op::Shl32 => "Shl32"@,
        Op::Shld => "Shld"@,
        Op::Shr8 => "Shr8"@,
        Op::Shr16 => "Shr16"@,
        Op::Shr32 => "Shr32"@,
        Op::Shrd => "Shrd"@,
        Op::Sldt => "Sldt"@,
        Op::Stc => "Stc"@,
        Op::Std => "Std"@,
        Op::Sti => "Sti"@,
        Op::Stosb => "Stosb"@,
        Op::Stosw => "Stosw"@,
        Op::Stosd => "Stosd"@,
        Op::Sub8 => "Sub8"@,
        Op::Sub16 => "Sub16"@,
        Op::Sub32 => "Sub32"@,
        Op::Test8 => "Test8"@,
        Op::Test16 => "Test16"@,
        Op::Xchg8 => "Xchg8"@,
        Op::Xchg16 => "Xchg16"@,
        Op::Xchg32 => "Xchg32"@,
        Op::Xlatb => "Xlatb"@,
        Op::Xor8 => "Xor8"@,
        Op::Xor16 => "Xor16"@,
        Op::Xor32 => "Xor32"@,
        Op::Uninitialized => "Uninitialized"@,
        Op::Invalid(..) => "Invalid"@,
    }
}

/// The debug text of the kind of an invalid encoding.
pub open spec fn invalid_text(k: Invalid) -> Seq<char> {
    match k {
        Invalid::Reg(r) => "Reg("@ + dec_digits(r as nat) + ")"@,
        Invalid::Op => "Op"@,
        Invalid::FPUOp => "FPUOp"@,
    }
}

/// Bytes in decimal, separated by ", ".
pub open spec fn dec_list(b: Seq<u8>) -> Seq<char>
    decreases b.len(),
{
    if b.len() == 0 {
        seq![]
    } else if b.len() == 1 {
        dec_digits(b[0] as nat)
    } else {
        dec_list(b.drop_last()) + ", "@ + dec_digits(b.last() as nat)
    }
}

/// The debug text of an operation.
pub open spec fn op_text(op: OpView) -> Seq<char> {
    match op {
        OpView::Valid(op) => op_name(op),
        OpView::Invalid(bytes, kind) => "Invalid(["@ + dec_list(bytes) + "], "@ + invalid_text(kind) + ")"@,
    }
}

/// The magnitude of a signed byte; -128 has 128.
pub open spec fn mag8(v: i8) -> nat {
    if v < 0 { (-v) as nat } else { v as nat }
}

/// The magnitude of a signed word; -32768 has 32768.
pub open spec fn mag16(v: i16) -> nat {
    if v < 0 { (-v) as nat } else { v as nat }
}

pub open spec fn sign_text(negative: bool) -> Seq<char> {
    if negative { "-"@ } else { "+"@ }
}

/// A memory operand: `size [segment:place]`.
pub open spec fn ptr_text(size: Seq<char>, seg: Segment, place: Seq<char>) -> Seq<char> {
    size + "["@ + segment_name(seg) + ":"@ + place + "]"@
}

/// The assembler text of an operand.
pub open spec fn param_text(p: Parameter) -> Seq<char> {
    match p {
        Parameter::Imm8(v) => "0x"@ + hex_pad(v as nat, 2),
        Parameter::Imm16(v) => "0x"@ + hex_pad(v as nat, 4),
        Parameter::Imm32(v) => "0x"@ + hex_pad(v as nat, 8),
        Parameter::ImmS8(v) => "byte "@ + sign_text(v < 0) + "0x"@ + hex_pad(mag8(v), 2),
        Parameter::Ptr8(s, v) => ptr_text("byte "@, s, "0x"@ + hex_pad(v as nat, 4)),
        Parameter::Ptr16(s, v) => ptr_text("word "@, s, "0x"@ + hex_pad(v as nat, 4)),
        Parameter::Ptr32(s, v) => ptr_text("dword "@, s, "0x"@ + hex_pad(v as nat, 4)),
        Parameter::Ptr16Imm(s, v) => hex_pad(s as nat, 4) + ":"@ + hex_pad(v as nat, 4),
        Parameter::Ptr8Amode(s, am) => ptr_text("byte "@, s, am.name()),
        Parameter::Ptr8AmodeS8(s, am, d) => ptr_text("byte "@, s, am.name() + sign_text(d < 0) + "0x"@ + hex_pad(mag8(d), 2)),
        Parameter::Ptr8AmodeS16(s, am, d) => ptr_text("byte "@, s, am.name() + sign_text(d < 0) + "0x"@ + hex_pad(mag16(d), 4)),
        Parameter::Ptr16Amode(s, am) => ptr_text("word "@, s, am.name()),
        Parameter::Ptr16AmodeS8(s, am, d) => ptr_text("word "@, s, am.name() + sign_text(d < 0) + "0x"@ + hex_pad(mag8(d), 2)),
        Parameter::Ptr16AmodeS16(s, am, d) => ptr_text("word "@, s, am.name() + sign_text(d < 0) + "0x"@ + hex_pad(mag16(d), 4)),
        Parameter::Ptr32Amode(s, am) => ptr_text("dword "@, s, am.name()),
        Parameter::Ptr32AmodeS8(s, am, d) => ptr_text("dword "@, s, am.name() + sign_text(d < 0) + "0x"@ + hex_pad(mag8(d), 2)),
        Parameter::Ptr32AmodeS16(s, am, d) => ptr_text("dword "@, s, am.name() + sign_text(d < 0) + "0x"@ + hex_pad(mag16(d), 4)),
        Parameter::Reg8(r) => r.name(),
        Parameter::Reg16(r) => r.name(),
        Parameter::Reg32(r) => r.name(),
        Parameter::SReg16(r) => r.name(),
        Parameter::Empty => seq![],
    }
}

/// The text of a REP prefix, with a space after it.
pub open spec fn repeat_text(r: RepeatMode) -> Seq<char> {
    match r {
        RepeatMode::NoRepeat => ""@,
        RepeatMode::Rep => "Rep "@,
        RepeatMode::Repe => "Repe "@,
        RepeatMode::Repne => "Repne "@,
    }
}

/// An instruction without its segment override: the operation, padded to
/// nine columns where operands follow, and the operands separated by ", ".
pub open spec fn describe_text(i: InstructionView) -> Seq<char> {
    let name = repeat_text(i.repeat) + op_text(i.command);
    let ps = i.params;
    if ps.dst is Empty {
        name
    } else {
        let cmd = pad_right(name, 9);
        if ps.src2 is Empty {
            if ps.src is Empty {
                cmd + param_text(ps.dst)
            } else {
                cmd + param_text(ps.dst) + ", "@ + param_text(ps.src)
            }
        } else {
            cmd + param_text(ps.dst) + ", "@ + param_text(ps.src) + ", "@ + param_text(ps.src2)
        }
    }
}

/// The assembler text of an instruction: the segment override comes first
/// unless it is the default one or the operation hides it.
pub open spec fn instruction_text(i: InstructionView) -> Seq<char> {
    if i.segment_prefix is Default || (i.command matches OpView::Valid(op) && spec_hide_segment_prefix(op)) {
        describe_text(i)
    } else {
        segment_name(i.segment_prefix) + " "@ + describe_text(i)
    }
}

/// Bytes as upper-case hexadecimal pairs.
pub open spec fn hex_bytes_text(b: Seq<u8>) -> Seq<char>
    decreases b.len(),
{
    if b.len() == 0 {
        seq![]
    } else {
        hex_bytes_text(b.drop_last()) + hex_pad(b.last() as nat, 2)
    }
}

/// A line of a listing: `[segment:offset] bytes instruction`.
pub open spec fn info_text(segment: nat, offset: nat, bytes: Seq<u8>, i: InstructionView) -> Seq<char> {
    "["@ + hex_pad(segment, 4) + ":"@ + hex_pad(offset, 4) + "] "@ + pad_right(hex_bytes_text(bytes), 16) + " "@ + instruction_text(i)
}

/// Lines joined with newlines between them.
pub open spec fn join_lines(lines: Seq<Seq<char>>) -> Seq<char>
    decreases lines.len(),
{
    if lines.len() == 0 {
        seq![]
    } else if lines.len() == 1 {
        lines[0]
    } else {
        join_lines(lines.drop_last()) + "\n"@ + lines.last()
    }
}

/// Appends the hexadecimal digits of `v`.
fn push_hex_digits(s: &mut String, v: u64)
    ensures
        final(s)@ == old(s)@ + hex_digits(v as nat),
    decreases v,
{
    if v >= 16 {
        push_hex_digits(s, v / 16);
    }
    push_char(s, digit_char((v % 16) as u8));
    proof {
        if v >= 16 {
            assert(hex_digits(v as nat) == hex_digits((v / 16) as nat).push(hex_digit((v % 16) as int)));
        }
    }
}

/// Appends the decimal digits of `v`.
fn push_dec_digits(s: &mut String, v: u64)
    ensures
        final(s)@ == old(s)@ + dec_digits(v as nat),
    decreases v,
{
    if v >= 10 {
        push_dec_digits(s, v / 10);
    }
    push_char(s, digit_char((v % 10) as u8));
}

/// The number of hexadecimal digits of `v`.
fn hex_len(v: u64) -> (r: usize)
    ensures
        r == hex_digits(v as nat).len(),
        r <= 16,
    decreases v,
{
    if v >= 16 {
        let n = hex_len(v / 16);
        if n < 16 {
            n + 1
        } else {
            proof { lemma_hex_len_bound(v as nat); }
            n + 1
        }
    } else {
        1
    }
}

proof fn lemma_hex_len_bound(v: nat)
    requires
        v < 0x1_0000_0000_0000_0000,
    ensures
        hex_digits(v).len() <= 16,
{
    assert(pow16(16) == 0x1_0000_0000_0000_0000) by {
        reveal_with_fuel(pow16, 17);
    }
    lemma_hex_len_pow(v, 16);
}

/// `16^k`.
pub open spec fn pow16(k: nat) -> nat
    decreases k,
{
    if k == 0 {
        1
    } else {
        16 * pow16((k - 1) as nat)
    }
}

/// Below `16^k`, a number has at most `k` hexadecimal digits.
proof fn lemma_hex_len_pow(v: nat, k: nat)
    requires
        k >= 1,
        v < pow16(k),
    ensures
        hex_digits(v).len() <= k,
    decreases k,
{
    if v >= 16 {
        if k == 1 {
            assert(pow16(1) == 16) by {
                reveal_with_fuel(pow16, 2);
            }
        } else {
            assert(v / 16 < pow16((k - 1) as nat));
            lemma_hex_len_pow(v / 16, (k - 1) as nat);
        }
    }
}

/// The digit character of `d` (0..16).
fn digit_char(d: u8) -> (c: char)
    requires
        d < 16,
    ensures
        c == hex_digit(d as int),
{
    match d {
        0 => '0',
        1 => '1',
        2 => '2',
        3 => '3',
        4 => '4',
        5 => '5',
        6 => '6',
        7 => '7',
        8 => '8',
        9 => '9',
        10 => 'A',
        11 => 'B',
        12 => 'C',
        13 => 'D',
        14 => 'E',
        _ => 'F',
    }
}

/// Appends `v` in hexadecimal, zero-padded to at least `w` digits.
pub(crate) fn push_hex(s: &mut String, v: u64, w: usize)
    ensures
        final(s)@ == old(s)@ + hex_pad(v as nat, w as nat),
{
    let n = hex_len(v);
    let mut k: usize = n;
    let ghost start = s@;
    while k < w
        invariant
            n <= k,
            k == n || k <= w,
            n == hex_digits(v as nat).len(),
            s@ == start + zeros(k - n),
        decreases w - k,
    {
        push_char(s, '0');
        k = k + 1;
        proof {
            assert(zeros(k - n) =~= zeros(k - 1 - n).push('0'));
        }
    }
    proof {
        assert(zeros(k - n) =~= zeros(w - n));
    }
    push_hex_digits(s, v);
    proof {
        assert(start + zeros(w - n) + hex_digits(v as nat) =~= start + hex_pad(v as nat, w as nat));
    }
}

/// `s` followed by spaces until it is `len` bytes long.
pub fn right_pad(s: &str, len: usize) -> (r: String)
    ensures
        r@ == pad_right(s@, len as nat),
{
    let mut res = String::new();
    res.append(s);
    let n = s.len();
    if n < len {
        let padding_len = len - n;
        let mut k: usize = 0;
        while k < padding_len
            invariant
                k <= padding_len,
                res@ == s@ + Seq::new(k as nat, |i: int| ' '),
            decreases padding_len - k,
        {
            push_char(&mut res, ' ');
            k = k + 1;
            proof {
                assert(Seq::new(k as nat, |i: int| ' ') =~= Seq::new((k - 1) as nat, |i: int| ' ').push(' '));
            }
        }
    }
    proof {
        assert(res@ =~= pad_right(s@, len as nat));
    }
    res
}

/// The name of an operation that is not invalid.
fn op_name_str(op: &Op) -> (r: &'static str)
    ensures
        !(*op is Invalid) ==> r@ == op_name(*op),
{
    match *op {
        Op::Aaa => "Aaa",
        Op::Aad => "Aad",
        Op::Aam => "Aam",
        Op::Aas => "Aas",
        Op::Adc8 => "Adc8",
        Op::Adc16 => "Adc16",
        Op::Add8 => "Add8",
        Op::Add16 => "Add16",
        Op::Add32 => "Add32",
        Op::And8 => "And8",
        Op::And16 => "And16",
        Op::Arpl => "Arpl",
        Op::Bound => "Bound",
        Op::Bsf => "Bsf",
        Op::Bt => "Bt",
        Op::Bts => "Bts",
        Op::CallFar => "CallFar",
        Op::CallNear => "CallNear",
        Op::Cbw => "Cbw",
        Op::Clc => "Clc",
        Op::Cld => "Cld",
        Op::Cli => "Cli",
        Op::Cmc => "Cmc",
        Op::Cmp8 => "Cmp8",
        Op::Cmp16 => "Cmp16",
        Op::Cmp32 => "Cmp32",
        Op::Cmpsb => "Cmpsb",
        Op::Cmpsw => "Cmpsw",
        Op::Cwd16 => "Cwd16",
        Op::Cwde32 => "Cwde32",
        Op::Daa => "Daa",
        Op::Das => "Das",
        Op::Dec8 => "Dec8",
        Op::Dec16 => "Dec16",
        Op::Dec32 => "Dec32",
        Op::Div8 => "Div8",
        Op::Div16 => "Div16",
        Op::Div32 => "Div32",
        Op::Enter => "Enter",
        Op::Hlt => "Hlt",
        Op::Idiv8 => "Idiv8",
        Op::Idiv16 => "Idiv16",
        Op::Idiv32 => "Idiv32",
        Op::Imul8 => "Imul8",
        Op::Imul16 => "Imul16",
        Op::Imul32 => "Imul32",
        Op::In8 => "In8",
        Op::In16 => "In16",
        Op::Inc8 => "Inc8",
        Op::Inc16 => "Inc16",
        Op::Inc32 => "Inc32",
        Op::Insb => "Insb",
        Op::Insw => "Insw",
        Op::Int => "Int",
        Op::Into => "Into",
        Op::Iret => "Iret",
        Op::Ja => "Ja",
        Op::Jc => "Jc",
        Op::Jcxz => "Jcxz",
        Op::Jg => "Jg",
        Op::Jl => "Jl",
        Op::JmpFar => "JmpFar",
        Op::JmpNear => "JmpNear",
        Op::JmpShort => "JmpShort",
        Op::Jna => "Jna",
        Op::Jnc => "Jnc",
        Op::Jng => "Jng",
        Op::Jnl => "Jnl",
        Op::Jno => "Jno",
        Op::Jns => "Jns",
        Op::Jnz => "Jnz",
        Op::Jo => "Jo",
        Op::Jpe => "Jpe",
        Op::Jpo => "Jpo",
        Op::Js => "Js",
        Op::Jz => "Jz",
        Op::Lahf => "Lahf",
        Op::Lds => "Lds",
        Op::Lea16 => "Lea16",
        Op::Leave => "Leave",
        Op::Les => "Les",
        Op::Lodsb => "Lodsb",
        Op::Lodsw => "Lodsw",
        Op::Lodsd => "Lodsd",
        Op::Loop => "Loop",
        Op::Loope => "Loope",
        Op::Loopne => "Loopne",
        Op::Mov8 => "Mov8",
        Op::Mov16 => "Mov16",
        Op::Mov32 => "Mov32",
        Op::Movsb => "Movsb",
        Op::Movsw => "Movsw",
        Op::Movsd => "Movsd",
        Op::Movsx16 => "Movsx16",
        Op::Movsx32 => "Movsx32",
        Op::Movzx16 => "Movzx16",
        Op::Movzx32 => "Movzx32",
        Op::Mul8 => "Mul8",
        Op::Mul16 => "Mul16",
        Op::Mul32 => "Mul32",
        Op::Neg8 => "Neg8",
        Op::Neg16 => "Neg16",
        Op::Neg32 => "Neg32",
        Op::Nop => "Nop",
        Op::Not8 => "Not8",
        Op::Not16 => "Not16",
        Op::Or8 => "Or8",
        Op::Or16 => "Or16",
        Op::Out8 => "Out8",
        Op::Out16 => "Out16",
        Op::Outsb => "Outsb",
        Op::Outsw => "Outsw",
        Op::Pop16 => "Pop16",
        Op::Pop32 => "Pop32",
        Op::Popa16 => "Popa16",
        Op::Popad32 => "Popad32",
        Op::Popf => "Popf",
        Op::Push16 => "Push16",
        Op::Push32 => "Push32",
        Op::Pusha16 => "Pusha16",
        Op::Pushad32 => "Pushad32",
        Op::Pushf => "Pushf",
        Op::Rcl8 => "Rcl8",
        Op::Rcl16 => "Rcl16",
        Op::Rcr8 => "Rcr8",
        Op::Rcr16 => "Rcr16",
        Op::Rcr32 => "Rcr32",
        Op::Retf => "Retf",
        Op::Retn => "Retn",
        Op::RetImm16 => "RetImm16",
        Op::Rol8 => "Rol8",
        Op::Rol16 => "Rol16",
        Op::Ror8 => "Ror8",
        Op::Ror16 => "Ror16",
        Op::Sahf => "Sahf",
        Op::Salc => "Salc",
        Op::Sar8 => "Sar8",
        Op::Sar16 => "Sar16",
        Op::Sar32 => "Sar32",
        Op::Sbb8 => "Sbb8",
        Op::Sbb16 => "Sbb16",
        Op::Scasb => "Scasb",
        Op::Scasw => "Scasw",
        Op::Setc => "Setc",
        Op::Setnz => "Setnz",
        Op::Shl8 => "Shl8",
        Op::Shl16 => "Shl16",
        Op::Shl32 => "Shl32",
        Op::Shld => "Shld",
        Op::Shr8 => "Shr8",
        Op::Shr16 => "Shr16",
        Op::Shr32 => "Shr32",
        Op::Shrd => "Shrd",
        Op::Sldt => "Sldt",
        Op::Stc => "Stc",
        Op::Std => "Std",
        Op::Sti => "Sti",
        Op::Stosb => "Stosb",
        Op::Stosw => "Stosw",
        Op::Stosd => "Stosd",
        Op::Sub8 => "Sub8",
        Op::Sub16 => "Sub16",
        Op::Sub32 => "Sub32",
        Op::Test8 => "Test8",
        Op::Test16 => "Test16",
        Op::Xchg8 => "Xchg8",
        Op::Xchg16 => "Xchg16",
        Op::Xchg32 => "Xchg32",
        Op::Xlatb => "Xlatb",
        Op::Xor8 => "Xor8",
        Op::Xor16 => "Xor16",
        Op::Xor32 => "Xor32",
        Op::Uninitialized => "Uninitialized",
        Op::Invalid(..) => "Invalid",
    }
}

/// Appends the debug text of an operation.
fn push_op_text(s: &mut String, op: &Op)
    ensures
        final(s)@ == old(s)@ + op_text(op@),
{
    match op {
        Op::Invalid(bytes, kind) => {
            let ghost start = s@;
            s.append("Invalid([");
            let mut k: usize = 0;
            while k < bytes.len()
                invariant
                    k <= bytes@.len(),
                    s@ == start + "Invalid(["@ + dec_list(bytes@.subrange(0, k as int)),
                decreases bytes@.len() - k,
            {
                if k > 0 {
                    s.append(", ");
                }
                push_dec_digits(s, bytes[k] as u64);
                proof {
                    let b = bytes@.subrange(0, k + 1);
                    assert(b.drop_last() =~= bytes@.subrange(0, k as int));
                    if k == 0 {
                        assert(dec_list(bytes@.subrange(0, 0)) =~= Seq::<char>::empty());
                    }
                }
                k = k + 1;
            }
            s.append("], ");
            match kind {
                Invalid::Reg(r) => {
                    s.append("Reg(");
                    push_dec_digits(s, *r as u64);
                    s.append(")");
                },
                Invalid::Op => s.append("Op"),
                Invalid::FPUOp => s.append("FPUOp"),
            }
            s.append(")");
            proof {
                assert(bytes@.subrange(0, bytes@.len() as int) =~= bytes@);
            }
        },
        _ => s.append(op_name_str(op)),
    }
}

/// Appends a signed displacement: its sign, then its magnitude in hex.
fn push_signed(s: &mut String, negative: bool, mag: u64, w: usize)
    ensures
        final(s)@ == old(s)@ + sign_text(negative) + "0x"@ + hex_pad(mag as nat, w as nat),
{
    if negative {
        s.append("-");
    } else {
        s.append("+");
    }
    s.append("0x");
    push_hex(s, mag, w);
}

/// The magnitude of a signed byte.
fn mag_s8(v: i8) -> (r: u64)
    ensures
        r == mag8(v),
{
    if v < 0 {
        (0 - (v as i64)) as u64
    } else {
        v as u64
    }
}

/// The magnitude of a signed word.
fn mag_s16(v: i16) -> (r: u64)
    ensures
        r == mag16(v),
{
    if v < 0 {
        (0 - (v as i64)) as u64
    } else {
        v as u64
    }
}

impl Parameter {
    /// The assembler text of the operand.
    pub fn to_string(&self) -> (r: String)
        ensures
            r@ == param_text(*self),
    {
        let mut s = String::new();
        push_param(&mut s, self);
        proof {
            assert(s@ =~= param_text(*self));
        }
        s
    }
}

/// Appends `size [segment:place]`.
fn push_ptr(s: &mut String, size: &str, seg: Segment, place: &String)
    ensures
        final(s)@ == old(s)@ + ptr_text(size@, seg, place@),
{
    let ghost start = s@;
    s.append(size);
    s.append("[");
    s.append(seg.as_str());
    s.append(":");
    s.append(place.as_str());
    s.append("]");
    assert(s@ =~= start + ptr_text(size@, seg, place@));
}

/// Appends the text of a byte memory operand.
fn push_mem8(s: &mut String, p: &Parameter)
    requires
        *p is Ptr8 || *p is Ptr8Amode || *p is Ptr8AmodeS8 || *p is Ptr8AmodeS16,
    ensures
        final(s)@ == old(s)@ + param_text(*p),
{
    let mut place = String::new();
    let seg = match *p {
        Parameter::Ptr8(seg, v) => {
            place.append("0x");
            push_hex(&mut place, v as u64, 4);
            seg
        },
        Parameter::Ptr8Amode(seg, am) => {
            place.append(am.as_str());
            seg
        },
        Parameter::Ptr8AmodeS8(seg, am, d) => {
            place.append(am.as_str());
            push_signed(&mut place, d < 0, mag_s8(d), 2);
            seg
        },
        Parameter::Ptr8AmodeS16(seg, am, d) => {
            place.append(am.as_str());
            push_signed(&mut place, d < 0, mag_s16(d), 4);
            seg
        },
        _ => Segment::Default,
    };
    push_ptr(s, "byte ", seg, &place);
}

/// Appends the text of a word memory operand.
fn push_mem16(s: &mut String, p: &Parameter)
    requires
        *p is Ptr16 || *p is Ptr16Amode || *p is Ptr16AmodeS8 || *p is Ptr16AmodeS16,
    ensures
        final(s)@ == old(s)@ + param_text(*p),
{
    let mut place = String::new();
    let seg = match *p {
        Parameter::Ptr16(seg, v) => {
            place.append("0x");
            push_hex(&mut place, v as u64, 4);
            seg
        },
        Parameter::Ptr16Amode(seg, am) => {
            place.append(am.as_str());
            seg
        },
        Parameter::Ptr16AmodeS8(seg, am, d) => {
            place.append(am.as_str());
            push_signed(&mut place, d < 0, mag_s8(d), 2);
            seg
        },
        Parameter::Ptr16AmodeS16(seg, am, d) => {
            place.append(am.as_str());
            push_signed(&mut place, d < 0, mag_s16(d), 4);
            seg
        },
        _ => Segment::Default,
    };
    push_ptr(s, "word ", seg, &place);
}

/// Appends the text of a dword memory operand.
fn push_mem32(s: &mut String, p: &Parameter)
    requires
        *p is Ptr32 || *p is Ptr32Amode || *p is Ptr32AmodeS8 || *p is Ptr32AmodeS16,
    ensures
        final(s)@ == old(s)@ + param_text(*p),
{
    let mut place = String::new();
    let seg = match *p {
        Parameter::Ptr32(seg, v) => {
            place.append("0x");
            push_hex(&mut place, v as u64, 4);
            seg
        },
        Parameter::Ptr32Amode(seg, am) => {
            place.append(am.as_str());
            seg
        },
        Parameter::Ptr32AmodeS8(seg, am, d) => {
            place.append(am.as_str());
            push_signed(&mut place, d < 0, mag_s8(d), 2);
            seg
        },
        Parameter::Ptr32AmodeS16(seg, am, d) => {
            place.append(am.as_str());
            push_signed(&mut place, d < 0, mag_s16(d), 4);
            seg
        },
        _ => Segment::Default,
    };
    push_ptr(s, "dword ", seg, &place);
}

/// Appends the assembler text of an operand.
fn push_param(s: &mut String, p: &Parameter)
    ensures
        final(s)@ == old(s)@ + param_text(*p),
{
    let ghost start = s@;
    match *p {
        Parameter::Imm8(v) => {
            s.append("0x");
            push_hex(s, v as u64, 2);
        },
        Parameter::Imm16(v) => {
            s.append("0x");
            push_hex(s, v as u64, 4);
        },
        Parameter::Imm32(v) => {
            s.append("0x");
            push_hex(s, v as u64, 8);
        },
        Parameter::ImmS8(v) => {
            s.append("byte ");
            push_signed(s, v < 0, mag_s8(v), 2);
            assert(s@ =~= start + param_text(*p));
        },
        Parameter::Ptr16Imm(seg, v) => {
            push_hex(s, seg as u64, 4);
            s.append(":");
            push_hex(s, v as u64, 4);
            assert(s@ =~= start + param_text(*p));
        },
        Parameter::Ptr8(..) | Parameter::Ptr8Amode(..) | Parameter::Ptr8AmodeS8(..)
        | Parameter::Ptr8AmodeS16(..) => push_mem8(s, p),
        Parameter::Ptr16(..) | Parameter::Ptr16Amode(..) | Parameter::Ptr16AmodeS8(..)
        | Parameter::Ptr16AmodeS16(..) => push_mem16(s, p),
        Parameter::Ptr32(..) | Parameter::Ptr32Amode(..) | Parameter::Ptr32AmodeS8(..)
        | Parameter::Ptr32AmodeS16(..) => push_mem32(s, p),
        Parameter::Reg8(r) | Parameter::Reg16(r) | Parameter::Reg32(r) | Parameter::SReg16(r) => {
            s.append(r.as_str());
        },
        Parameter::Empty => {
            assert(s@ =~= start + param_text(*p));
        },
    }
}

impl RepeatMode {
    fn as_str(&self) -> (r: &'static str)
        ensures
            r@ == repeat_text(*self),
    {
        match *self {
            RepeatMode::NoRepeat => "",
            RepeatMode::Rep => "Rep ",
            RepeatMode::Repe => "Repe ",
            RepeatMode::Repne => "Repne ",
        }
    }
}

impl Instruction {
    fn describe_instruction(&self) -> (r: String)
        ensures
            r@ == describe_text(self@),
    {
        let mut name = String::new();
        name.append(self.repeat.as_str());
        push_op_text(&mut name, &self.command);
        assert(name@ =~= repeat_text(self.repeat) + op_text(self.command@));
        match self.params.dst {
            Parameter::Empty => name,
            _ => {
                let mut cmd = right_pad(name.as_str(), 9);
                let ghost c = cmd@;
                push_param(&mut cmd, &self.params.dst);
                match self.params.src2 {
                    Parameter::Empty => match self.params.src {
                        Parameter::Empty => {},
                        _ => {
                            cmd.append(", ");
                            push_param(&mut cmd, &self.params.src);
                        },
                    },
                    _ => {
                        cmd.append(", ");
                        push_param(&mut cmd, &self.params.src);
                        cmd.append(", ");
                        push_param(&mut cmd, &self.params.src2);
                    },
                }
                cmd
            },
        }
    }

    /// The assembler text of the instruction.
    pub fn to_string(&self) -> (r: String)
        ensures
            r@ == instruction_text(self@),
    {
        let instr = self.describe_instruction();
        let hide = match self.segment_prefix {
            Segment::Default => true,
            _ => self.hide_segment_prefix(),
        };
        if hide {
            instr
        } else {
            let mut s = String::new();
            s.append(self.segment_prefix.as_str());
            s.append(" ");
            s.append(instr.as_str());
            s
        }
    }
}

/// Bytes as upper-case hexadecimal pairs.
pub fn hex_bytes(data: &[u8]) -> (r: String)
    ensures
        r@ == hex_bytes_text(data@),
{
    let mut s = String::new();
    let mut k: usize = 0;
    while k < data.len()
        invariant
            k <= data@.len(),
            s@ == hex_bytes_text(data@.subrange(0, k as int)),
        decreases data@.len() - k,
    {
        push_hex(&mut s, data[k] as u64, 2);
        proof {
            assert(data@.subrange(0, k + 1).drop_last() =~= data@.subrange(0, k as int));
        }
        k = k + 1;
    }
    proof {
        assert(data@.subrange(0, data@.len() as int) =~= data@);
    }
    s
}

impl InstructionInfo {
    /// A line of a listing: `[segment:offset] bytes instruction`.
    pub fn to_string(&self) -> (r: String)
        ensures
            r@ == info_text(self.segment as nat, self.offset as nat, self.bytes@, self.instruction@),
    {
        let mut s = String::new();
        s.append("[");
        push_hex(&mut s, self.segment as u64, 4);
        s.append(":");
        push_hex(&mut s, self.offset as u64, 4);
        s.append("] ");
        let hex = hex_bytes(self.bytes.as_slice());
        let padded = right_pad(hex.as_str(), 16);
        s.append(padded.as_str());
        s.append(" ");
        let text = self.instruction.to_string();
        s.append(text.as_str());
        s
    }
}

/// The listing of decoded instructions, one line each.
pub fn instruction_info_to_str(ops: &[InstructionInfo]) -> (r: String)
    ensures
        r@ == join_lines(ops@.map_values(|op: InstructionInfo| info_text(op.segment as nat, op.offset as nat, op.bytes@, op.instruction@))),
{
    let ghost lines = ops@.map_values(|op: InstructionInfo| info_text(op.segment as nat, op.offset as nat, op.bytes@, op.instruction@));
    let mut s = String::new();
    let mut k: usize = 0;
    while k < ops.len()
        invariant
            k <= ops@.len(),
            lines == ops@.map_values(|op: InstructionInfo| info_text(op.segment as nat, op.offset as nat, op.bytes@, op.instruction@)),
            s@ == join_lines(lines.subrange(0, k as int)),
        decreases ops@.len() - k,
    {
        if k > 0 {
            s.append("\n");
        }
        let line = ops[k].to_string();
        s.append(line.as_str());
        proof {
            assert(lines.subrange(0, k + 1).drop_last() =~= lines.subrange(0, k as int));
            if k == 0 {
                assert(s@ =~= join_lines(lines.subrange(0, 1)));
            }
        }
        k = k + 1;
    }
    proof {
        assert(lines.subrange(0, lines.len() as int) =~= lines);
    }
    s
}

/// The assembler text of instructions, one line each.
pub fn instructions_to_str(ops: &[Instruction]) -> (r: String)
    ensures
        r@ == join_lines(ops@.map_values(|op: Instruction| instruction_text(op@))),
{
    let ghost lines = ops@.map_values(|op: Instruction| instruction_text(op@));
    let mut s = String::new();
    let mut k: usize = 0;
    while k < ops.len()
        invariant
            k <= ops@.len(),
            lines == ops@.map_values(|op: Instruction| instruction_text(op@)),
            s@ == join_lines(lines.subrange(0, k as int)),
        decreases ops@.len() - k,
    {
        if k > 0 {
            s.append("\n");
        }
        let line = ops[k].to_string();
        s.append(line.as_str());
        proof {
            assert(lines.subrange(0, k + 1).drop_last() =~= lines.subrange(0, k as int));
            if k == 0 {
                assert(s@ =~= join_lines(lines.subrange(0, 1)));
            }
        }
        k = k + 1;
    }
    proof {
        assert(lines.subrange(0, lines.len() as int) =~= lines);
    }
    s
}

/// A label followed by a word in four hexadecimal digits.
pub open spec fn field_text(label: Seq<char>, v: u16) -> Seq<char> {
    label + hex_pad(v as nat, 4)
}

/// A flag as the digit 0 or 1.
pub open spec fn flag_text(b: bool) -> Seq<char> {
    dec_digits(if b { 1 } else { 0 })
}

/// The register dump: four lines of registers, the instruction count after
/// IP, then the flags CF, ZF, SF, OF, AF, PF, DF and IF as digits.
pub open spec fn registers_text(r: RegsView, count: nat) -> Seq<char> {
    let f = r.flags;
    field_text("AX:"@, r.r16(R::AX)) + field_text("  SI:"@, r.r16(R::SI)) + field_text(
        "  DS:"@,
        r.r16(R::DS),
    ) + field_text("  IP:"@, r.ip) + "  cnt:"@ + dec_digits(count) + "\n"@ + field_text(
        "BX:"@,
        r.r16(R::BX),
    ) + field_text("  DI:"@, r.r16(R::DI)) + field_text("  CS:"@, r.r16(R::CS)) + field_text(
        "  fl:"@,
        f.spec_u16(),
    ) + "\n"@ + field_text("CX:"@, r.r16(R::CX)) + field_text("  BP:"@, r.r16(R::BP))
        + field_text("  ES:"@, r.r16(R::ES)) + field_text("  GS:"@, r.r16(R::GS)) + "\n"@
        + field_text("DX:"@, r.r16(R::DX)) + field_text("  SP:"@, r.r16(R::SP)) + field_text(
        "  FS:"@,
        r.r16(R::FS),
    ) + field_text("  SS:"@, r.r16(R::SS)) + "\n"@ + "C"@ + flag_text(f.carry) + " Z"@ + flag_text(
        f.zero,
    ) + " S"@ + flag_text(f.sign) + " O"@ + flag_text(f.overflow) + " A"@ + flag_text(f.adjust)
        + " P"@ + flag_text(f.parity) + " D"@ + flag_text(f.direction) + " I"@ + flag_text(
        f.interrupt,
    )
}

fn push_field(s: &mut String, label: &str, v: u16)
    ensures
        final(s)@ == old(s)@ + field_text(label@, v),
{
    s.append(label);
    push_hex(s, v as u64, 4);
    proof {
        assert(old(s)@ + label@ + hex_pad(v as nat, 4) =~= old(s)@ + field_text(label@, v));
    }
}

fn push_flag(s: &mut String, label: &str, b: bool)
    ensures
        final(s)@ == old(s)@ + label@ + flag_text(b),
{
    s.append(label);
    push_dec_digits(s, if b { 1 } else { 0 });
}

impl CPU {
    /// The registers, the instruction count and the flags as text.
    pub fn print_registers(&self) -> (r: String)
        ensures
            r@ == registers_text(self.regs@, self.instruction_count as nat),
    {
        let mut res = String::new();
        push_field(&mut res, "AX:", self.get_r16(R::AX));
        push_field(&mut res, "  SI:", self.get_r16(R::SI));
        push_field(&mut res, "  DS:", self.get_r16(R::DS));
        push_field(&mut res, "  IP:", self.regs.ip);
        res.append("  cnt:");
        push_dec_digits(&mut res, self.instruction_count as u64);
        res.append("\n");
        push_field(&mut res, "BX:", self.get_r16(R::BX));
        push_field(&mut res, "  DI:", self.get_r16(R::DI));
        push_field(&mut res, "  CS:", self.get_r16(R::CS));
        push_field(&mut res, "  fl:", self.regs.flags.u16());
        res.append("\n");
        push_field(&mut res, "CX:", self.get_r16(R::CX));
        push_field(&mut res, "  BP:", self.get_r16(R::BP));
        push_field(&mut res, "  ES:", self.get_r16(R::ES));
        push_field(&mut res, "  GS:", self.get_r16(R::GS));
        res.append("\n");
        push_field(&mut res, "DX:", self.get_r16(R::DX));
        push_field(&mut res, "  SP:", self.get_r16(R::SP));
        push_field(&mut res, "  FS:", self.get_r16(R::FS));
        push_field(&mut res, "  SS:", self.get_r16(R::SS));
        res.append("\n");
        let f = self.regs.flags;
        push_flag(&mut res, "C", f.carry);
        push_flag(&mut res, " Z", f.zero);
        push_flag(&mut res, " S", f.sign);
        push_flag(&mut res, " O", f.overflow);
        push_flag(&mut res, " A", f.adjust);
        push_flag(&mut res, " P", f.parity);
        push_flag(&mut res, " D", f.direction);
        push_flag(&mut res, " I", f.interrupt);
        proof {
            assert(res@ =~= registers_text(self.regs@, self.instruction_count as nat));
        }
        res
    }
}

} // verus!
