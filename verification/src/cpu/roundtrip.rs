use vstd::prelude::*;

use crate::cpu::decoder::{AddressSize, OperandSize};
use crate::cpu::decoder_spec::{
    add16, apply_prefix, arith8, body_00_3f, body_0f, body_40_7f, body_80_bf, body_c0_ff, code_u16,
    code_u8, decode_at, group, imm_pos, initial_prefixes, is_prefix, lemma_add16, math8, modrm_md,
    modrm_reg, modrm_rm, op_r_rm, op_rm_r, p2, reg_after, shift8, spec_body, spec_decode, spec_reg,
    spec_rm, valid, Body, Prefixes, Width,
};
use crate::cpu::encoder::{
    is_arith8, is_bitshift8, is_math8, modrm, op_enc, prefix_bytes, rm_bytes,
    segment_prefix_bytes, spec_arith_index, spec_bitshift_index, spec_encode, spec_math_index,
    word_bytes, Encoding,
};
use crate::cpu::instruction::{InstructionView, RepeatMode};
use crate::cpu::op::{Op, OpView, spec_f6_index, spec_feff_index};
use crate::cpu::parameter::{Parameter, ParameterSet};
use crate::cpu::register::{AMode, R, spec_amode_from, spec_r16, spec_r8};
use crate::cpu::segment::Segment;
use crate::memory::le16;

verus! {

/// The bytes `b` stand in the code segment `seg` from offset `pos` on,
/// wrapping within the segment.
pub open spec fn bytes_at(mem: Seq<u8>, seg: u16, pos: u16, b: Seq<u8>) -> bool {
    forall|k: int| 0 <= k < b.len() ==> #[trigger] code_u8(mem, seg, add16(pos, k)) == b[k]
}

/// A byte-sized memory operand in the form the decoder gives one under the
/// segment override `s` and 16-bit addressing.
pub open spec fn mem8_form(p: Parameter, s: Segment) -> bool {
    match p {
        Parameter::Ptr8(t, _) => t == s,
        Parameter::Ptr8Amode(t, am) => t == s && am.is_16bit() && !(am is BP),
        Parameter::Ptr8AmodeS8(t, am, _) => t == s && am.is_16bit(),
        Parameter::Ptr8AmodeS16(t, am, _) => t == s && am.is_16bit(),
        _ => false,
    }
}

/// A word-sized memory operand in the form the decoder gives one.
pub open spec fn mem16_form(p: Parameter, s: Segment) -> bool {
    match p {
        Parameter::Ptr16(t, _) => t == s,
        Parameter::Ptr16Amode(t, am) => t == s && am.is_16bit() && !(am is BP),
        Parameter::Ptr16AmodeS8(t, am, _) => t == s && am.is_16bit(),
        Parameter::Ptr16AmodeS16(t, am, _) => t == s && am.is_16bit(),
        _ => false,
    }
}

/// An 8-bit register operand.
pub open spec fn reg8_form(p: Parameter) -> bool {
    p matches Parameter::Reg8(r) && r.is_r8()
}

/// A 16-bit register operand.
pub open spec fn reg16_form(p: Parameter) -> bool {
    p matches Parameter::Reg16(r) && r.is_r16()
}

/// A byte-sized r/m operand in decoded form.
pub open spec fn rm8_form(p: Parameter, s: Segment) -> bool {
    mem8_form(p, s) || reg8_form(p)
}

/// A word-sized r/m operand in decoded form.
pub open spec fn rm16_form(p: Parameter, s: Segment) -> bool {
    mem16_form(p, s) || reg16_form(p)
}

/// An r/m operand of width `w` in decoded form.
pub open spec fn rm_form(p: Parameter, s: Segment, w: Width) -> bool {
    match w {
        Width::W8 => rm8_form(p, s),
        _ => rm16_form(p, s),
    }
}

pub proof fn lemma_modrm_fields(md: int, reg: int, rm: int)
    requires
        0 <= md < 4,
        0 <= reg < 8,
        0 <= rm < 8,
    ensures
        modrm_md(modrm(md, reg, rm)) == md,
        modrm_reg(modrm(md, reg, rm)) == reg,
        modrm_rm(modrm(md, reg, rm)) == rm,
{
    let b = modrm(md, reg, rm);
    assert(b == md * 64 + reg * 8 + rm);
    assert((md * 64 + reg * 8 + rm) / 64 == md);
    assert((md * 64 + reg * 8 + rm) / 8 == md * 8 + reg);
    assert((md * 8 + reg) % 8 == reg);
    assert((md * 64 + reg * 8 + rm) % 8 == rm);
}

pub proof fn lemma_word(w: u16)
    ensures
        le16(word_bytes(w)[0], word_bytes(w)[1]) == w,
{
}

pub proof fn lemma_s8(d: i8)
    ensures
        ((d as u8) as i8) == d,
{
    assert(((d as u8) as i8) == d) by (bit_vector);
}

pub proof fn lemma_s16(d: i16)
    ensures
        ((d as u16) as i16) == d,
{
    assert(((d as u16) as i16) == d) by (bit_vector);
}

pub proof fn lemma_r8_index(r: R)
    requires
        r.is_r8(),
    ensures
        0 <= r.spec_index() < 8,
        spec_r8(r.spec_index() as u8) == r,
{
}

pub proof fn lemma_r16_index(r: R)
    requires
        r.is_r16(),
    ensures
        0 <= r.spec_index() < 8,
        spec_r16(r.spec_index() as u8) == r,
{
}

pub proof fn lemma_amode_index(am: AMode)
    requires
        am.is_16bit(),
    ensures
        0 <= am.spec_index() < 8,
        spec_amode_from(AddressSize::_16bit, am.spec_index() as u8) == am,
{
}

/// A word placed at `pos` reads back.
pub proof fn lemma_code_word(mem: Seq<u8>, seg: u16, pos: u16, w: u16)
    requires
        bytes_at(mem, seg, pos, word_bytes(w)),
    ensures
        code_u16(mem, seg, pos) == w,
{
    assert(code_u8(mem, seg, add16(pos, 0)) == word_bytes(w)[0]);
    assert(code_u8(mem, seg, add16(pos, 1)) == word_bytes(w)[1]);
    assert(add16(pos, 0) == pos);
    lemma_word(w);
}

/// Bytes placed at `pos` include those placed from `k` bytes later on.
pub proof fn lemma_bytes_skip(mem: Seq<u8>, seg: u16, pos: u16, b: Seq<u8>, k: int)
    requires
        bytes_at(mem, seg, pos, b),
        0 <= k <= b.len(),
    ensures
        bytes_at(mem, seg, add16(pos, k), b.subrange(k, b.len() as int)),
        bytes_at(mem, seg, pos, b.subrange(0, k)),
{
    assert forall|j: int| 0 <= j < b.len() - k implies #[trigger] code_u8(mem, seg, add16(add16(pos, k), j))
        == b.subrange(k, b.len() as int)[j] by {
        lemma_add16(pos, k, j);
        assert(code_u8(mem, seg, add16(pos, k + j)) == b[k + j]);
    }
    assert forall|j: int| 0 <= j < k implies #[trigger] code_u8(mem, seg, add16(pos, j))
        == b.subrange(0, k)[j] by {
        assert(code_u8(mem, seg, add16(pos, j)) == b[j]);
    }
}

/// An r/m operand in decoded form decodes back from its ModR/M byte and
/// displacement, and the ModR/M byte carries `reg`.
pub proof fn lemma_rm(mem: Seq<u8>, seg: u16, q: u16, pre: Prefixes, w: Width, p: Parameter, reg: int)
    requires
        pre.address_size is _16bit,
        !(w is W32),
        rm_form(p, pre.segment_prefix, w),
        0 <= reg < 8,
        rm_bytes(p, reg) is Some,
        bytes_at(mem, seg, q, rm_bytes(p, reg).unwrap()),
    ensures
        spec_rm(mem, seg, q, pre, w) == (p, rm_bytes(p, reg).unwrap().len()),
        modrm_reg(code_u8(mem, seg, q)) == reg,
{
    let b = rm_bytes(p, reg).unwrap();
    assert(add16(q, 0) == q);
    assert(code_u8(mem, seg, add16(q, 0)) == b[0]);
    let q1 = add16(q, 1);
    match p {
        Parameter::Ptr8(_, a) => {
            lemma_modrm_fields(0, reg, 6);
            lemma_bytes_skip(mem, seg, q, b, 1);
            assert(b.subrange(1, 3) =~= word_bytes(a));
            lemma_code_word(mem, seg, q1, a);
        },
        Parameter::Ptr16(_, a) => {
            lemma_modrm_fields(0, reg, 6);
            lemma_bytes_skip(mem, seg, q, b, 1);
            assert(b.subrange(1, 3) =~= word_bytes(a));
            lemma_code_word(mem, seg, q1, a);
        },
        Parameter::Ptr8Amode(_, am) => {
            lemma_amode_index(am);
            lemma_modrm_fields(0, reg, am.spec_index());
        },
        Parameter::Ptr16Amode(_, am) => {
            lemma_amode_index(am);
            lemma_modrm_fields(0, reg, am.spec_index());
        },
        Parameter::Ptr8AmodeS8(_, am, d) => {
            lemma_amode_index(am);
            lemma_modrm_fields(1, reg, am.spec_index());
            assert(code_u8(mem, seg, add16(q, 1)) == b[1]);
            lemma_s8(d);
        },
        Parameter::Ptr16AmodeS8(_, am, d) => {
            lemma_amode_index(am);
            lemma_modrm_fields(1, reg, am.spec_index());
            assert(code_u8(mem, seg, add16(q, 1)) == b[1]);
            lemma_s8(d);
        },
        Parameter::Ptr8AmodeS16(_, am, d) => {
            lemma_amode_index(am);
            lemma_modrm_fields(2, reg, am.spec_index());
            lemma_bytes_skip(mem, seg, q, b, 1);
            assert(b.subrange(1, 3) =~= word_bytes(d as u16));
            lemma_code_word(mem, seg, q1, d as u16);
            lemma_s16(d);
        },
        Parameter::Ptr16AmodeS16(_, am, d) => {
            lemma_amode_index(am);
            lemma_modrm_fields(2, reg, am.spec_index());
            lemma_bytes_skip(mem, seg, q, b, 1);
            assert(b.subrange(1, 3) =~= word_bytes(d as u16));
            lemma_code_word(mem, seg, q1, d as u16);
            lemma_s16(d);
        },
        Parameter::Reg8(r) => {
            lemma_r8_index(r);
            lemma_modrm_fields(3, reg, r.spec_index());
        },
        Parameter::Reg16(r) => {
            lemma_r16_index(r);
            lemma_modrm_fields(3, reg, r.spec_index());
        },
        _ => {},
    }
}

/// The register operand of width `w` whose number the reg field holds.
pub open spec fn reg_param(w: Width, r: R) -> Parameter {
    match w {
        Width::W8 => Parameter::Reg8(r),
        _ => Parameter::Reg16(r),
    }
}

/// A register of the class of width `w`.
pub open spec fn reg_of_width(w: Width, r: R) -> bool {
    match w {
        Width::W8 => r.is_r8(),
        _ => r.is_r16(),
    }
}

/// An opcode byte followed by a ModR/M operand and reg field.
pub open spec fn opcode_rm(opc: u8, p: Parameter, reg: int) -> Seq<u8> {
    seq![opc] + rm_bytes(p, reg).unwrap()
}

/// "r/m, reg" operands after an opcode byte decode back.
pub proof fn lemma_rm_reg_operands(
    mem: Seq<u8>,
    seg: u16,
    pos: u16,
    pre: Prefixes,
    w: Width,
    rm: Parameter,
    r: R,
    tail: Seq<u8>,
)
    requires
        pre.address_size is _16bit,
        !(w is W32),
        rm_form(rm, pre.segment_prefix, w),
        reg_of_width(w, r),
        rm_bytes(rm, r.spec_index()) is Some,
        bytes_at(mem, seg, add16(pos, 1), rm_bytes(rm, r.spec_index()).unwrap() + tail),
    ensures
        spec_rm(mem, seg, add16(pos, 1), pre, w) == (rm, rm_bytes(rm, r.spec_index()).unwrap().len()),
        spec_reg(mem, seg, add16(pos, 1), w) == reg_param(w, r),
        bytes_at(
            mem,
            seg,
            add16(pos, 1 + rm_bytes(rm, r.spec_index()).unwrap().len() as int),
            tail,
        ),
{
    let b = rm_bytes(rm, r.spec_index()).unwrap();
    let q = add16(pos, 1);
    lemma_bytes_skip(mem, seg, q, b + tail, b.len() as int);
    assert((b + tail).subrange(0, b.len() as int) =~= b);
    assert((b + tail).subrange(b.len() as int, (b + tail).len() as int) =~= tail);
    if w is W8 {
        lemma_r8_index(r);
    } else {
        lemma_r16_index(r);
    }
    lemma_rm(mem, seg, q, pre, w, rm, r.spec_index());
    lemma_add16(pos, 1, b.len() as int);
}

/// An r/m operand after an opcode byte decodes back, with the group number
/// `g` in the reg field; `tail` follows it.
pub proof fn lemma_rm_operand(
    mem: Seq<u8>,
    seg: u16,
    pos: u16,
    pre: Prefixes,
    w: Width,
    rm: Parameter,
    g: int,
    tail: Seq<u8>,
)
    requires
        pre.address_size is _16bit,
        !(w is W32),
        rm_form(rm, pre.segment_prefix, w),
        0 <= g < 8,
        rm_bytes(rm, g) is Some,
        bytes_at(mem, seg, add16(pos, 1), rm_bytes(rm, g).unwrap() + tail),
    ensures
        spec_rm(mem, seg, add16(pos, 1), pre, w) == (rm, rm_bytes(rm, g).unwrap().len()),
        reg_after(mem, seg, pos) == g,
        imm_pos(mem, seg, pos, pre, w) == add16(pos, 1 + rm_bytes(rm, g).unwrap().len() as int),
        bytes_at(mem, seg, add16(pos, 1 + rm_bytes(rm, g).unwrap().len() as int), tail),
{
    let b = rm_bytes(rm, g).unwrap();
    let q = add16(pos, 1);
    lemma_bytes_skip(mem, seg, q, b + tail, b.len() as int);
    assert((b + tail).subrange(0, b.len() as int) =~= b);
    assert((b + tail).subrange(b.len() as int, (b + tail).len() as int) =~= tail);
    lemma_rm(mem, seg, q, pre, w, rm, g);
    lemma_add16(pos, 1, b.len() as int);
}

/// The shape in which the decoder gives an operation's operands, under the
/// segment override `s` and 16-bit operand and address sizes: registers of
/// the operation's width, memory operands with the override, and no operand
/// after the last one the operation takes.
pub open spec fn decoded_form(op: Op, ps: ParameterSet, s: Segment) -> bool {
    let two = ps.src2 is Empty;
    let one = two && ps.src is Empty;
    if op is Aaa || op is Aas || op is Popf {
        one && ps.dst is Empty
    } else if op is Inc8 || op is Dec8 {
        one && rm8_form(ps.dst, s)
    } else if op is Inc16 || op is Dec16 {
        one && rm16_form(ps.dst, s)
    } else if op is Int {
        one && ps.dst is Imm8
    } else if op is Push16 {
        one && ps.dst is Imm16
    } else if op is Mov16 {
        two && reg16_form(ps.dst) && ps.src is Imm16
    } else if op is Mov8 || is_arith8(op) {
        two && ((rm8_form(ps.dst, s) && reg8_form(ps.src)) || (reg8_form(ps.dst) && (rm8_form(
            ps.src,
            s,
        ) || ps.src is Imm8)))
    } else if op is Test8 {
        two && ((rm8_form(ps.dst, s) && reg8_form(ps.src)) || (reg8_form(ps.dst) && ps.src is Imm8))
    } else if is_math8(op) {
        one && rm8_form(ps.dst, s)
    } else if is_bitshift8(op) {
        two && reg8_form(ps.dst) && ps.src is Imm8
    } else if op is Xchg8 {
        two && rm8_form(ps.dst, s) && reg8_form(ps.src)
    } else if op is Lea16 {
        two && reg16_form(ps.dst) && mem16_form(ps.src, s)
    } else if op is Shld || op is Shrd {
        rm16_form(ps.dst, s) && reg16_form(ps.src) && ps.src2 is Imm8
    } else {
        true
    }
}

/// An instruction in the form the decoder gives one: no REP prefix,
/// 16-bit operand and address sizes, operands in decoded form.
pub open spec fn canonical(i: InstructionView) -> bool {
    &&& i.repeat is NoRepeat
    &&& i.op_size is _16bit
    &&& i.address_size is _16bit
    &&& match i.command {
        OpView::Valid(op) => decoded_form(op, i.params, i.segment_prefix),
        OpView::Invalid(..) => true,
    }
}

/// What the opcode at `pos` must decode to for an encoded operation.
pub open spec fn body_decodes(mem: Seq<u8>, seg: u16, pos: u16, pre: Prefixes, op: Op, ps: ParameterSet, n: nat) -> bool {
    &&& !is_prefix(code_u8(mem, seg, pos))
    &&& spec_body(mem, seg, pos, pre) == Some(Body { cmd: OpView::Valid(op), params: ps, len: n })
}

/// The conditions under which an encoded operation is decoded back.
pub open spec fn encoded_at(mem: Seq<u8>, seg: u16, pos: u16, pre: Prefixes, op: Op, ps: ParameterSet) -> bool {
    &&& pre.op_size is _16bit
    &&& pre.address_size is _16bit
    &&& decoded_form(op, ps, pre.segment_prefix)
    &&& op_enc(OpView::Valid(op), ps) is Bytes
    &&& bytes_at(mem, seg, pos, op_enc(OpView::Valid(op), ps)->Bytes_0)
}

/// The first byte and the rest of placed bytes.
pub proof fn lemma_split_first(mem: Seq<u8>, seg: u16, pos: u16, b: Seq<u8>)
    requires
        bytes_at(mem, seg, pos, b),
        b.len() > 0,
    ensures
        code_u8(mem, seg, pos) == b[0],
        bytes_at(mem, seg, add16(pos, 1), b.subrange(1, b.len() as int)),
{
    assert(add16(pos, 0) == pos);
    assert(code_u8(mem, seg, add16(pos, 0)) == b[0]);
    lemma_bytes_skip(mem, seg, pos, b, 1);
}

/// aaa, aas and popf decode back.
pub proof fn lemma_body_plain(mem: Seq<u8>, seg: u16, pos: u16, pre: Prefixes, op: Op, ps: ParameterSet)
    requires
        encoded_at(mem, seg, pos, pre, op, ps),
        op is Aaa || op is Aas || op is Popf,
    ensures
        body_decodes(mem, seg, pos, pre, op, ps, op_enc(OpView::Valid(op), ps)->Bytes_0.len()),
{
    reveal(spec_body);
    reveal(body_00_3f);
    reveal(body_80_bf);
    let b = op_enc(OpView::Valid(op), ps)->Bytes_0;
    lemma_split_first(mem, seg, pos, b);
}

/// int, push imm16 and mov r16, imm16 decode back.
pub proof fn lemma_body_imm(mem: Seq<u8>, seg: u16, pos: u16, pre: Prefixes, op: Op, ps: ParameterSet)
    requires
        encoded_at(mem, seg, pos, pre, op, ps),
        op is Int || op is Push16 || op is Mov16,
    ensures
        body_decodes(mem, seg, pos, pre, op, ps, op_enc(OpView::Valid(op), ps)->Bytes_0.len()),
{
    reveal(spec_body);
    reveal(body_40_7f);
    reveal(body_80_bf);
    reveal(body_c0_ff);
    let b = op_enc(OpView::Valid(op), ps)->Bytes_0;
    lemma_split_first(mem, seg, pos, b);
    let rest = b.subrange(1, b.len() as int);
    if op is Int {
        if b.len() == 2 {
            assert(code_u8(mem, seg, add16(add16(pos, 1), 0)) == rest[0]);
            assert(add16(add16(pos, 1), 0) == add16(pos, 1));
        }
    } else if op is Push16 {
        assert(rest =~= word_bytes(ps.dst->Imm16_0));
        lemma_code_word(mem, seg, add16(pos, 1), ps.dst->Imm16_0);
    } else {
        let r = ps.dst->Reg16_0;
        lemma_r16_index(r);
        assert((0xB8 + r.spec_index()) as u8 % 8 == r.spec_index());
        assert(rest =~= word_bytes(ps.src->Imm16_0));
        lemma_code_word(mem, seg, add16(pos, 1), ps.src->Imm16_0);
    }
}

/// inc and dec of a 16-bit register decode back.
pub proof fn lemma_body_incdec_reg(mem: Seq<u8>, seg: u16, pos: u16, pre: Prefixes, op: Op, ps: ParameterSet)
    requires
        encoded_at(mem, seg, pos, pre, op, ps),
        op is Inc16 || op is Dec16,
        ps.dst is Reg16,
    ensures
        body_decodes(mem, seg, pos, pre, op, ps, op_enc(OpView::Valid(op), ps)->Bytes_0.len()),
{
    reveal(spec_body);
    reveal(body_40_7f);
    let b = op_enc(OpView::Valid(op), ps)->Bytes_0;
    lemma_split_first(mem, seg, pos, b);
    let r = ps.dst->Reg16_0;
    lemma_r16_index(r);
    assert((0x40 + r.spec_index()) as u8 % 8 == r.spec_index());
    assert((0x48 + r.spec_index()) as u8 % 8 == r.spec_index());
}

/// inc and dec of an r/m operand (0xFE / 0xFF group) decode back.
pub proof fn lemma_body_incdec_rm(mem: Seq<u8>, seg: u16, pos: u16, pre: Prefixes, op: Op, ps: ParameterSet)
    requires
        encoded_at(mem, seg, pos, pre, op, ps),
        op is Inc8 || op is Dec8 || ((op is Inc16 || op is Dec16) && !(ps.dst is Reg16)),
    ensures
        body_decodes(mem, seg, pos, pre, op, ps, op_enc(OpView::Valid(op), ps)->Bytes_0.len()),
{
    let b = op_enc(OpView::Valid(op), ps)->Bytes_0;
    lemma_split_first(mem, seg, pos, b);
    let rest = b.subrange(1, b.len() as int);
    let g = spec_feff_index(op);
    let w = if op is Inc8 || op is Dec8 { Width::W8 } else { Width::W16 };
    assert(rest =~= rm_bytes(ps.dst, g).unwrap() + seq![]);
    lemma_rm_operand(mem, seg, pos, pre, w, ps.dst, g, seq![]);
    assert(spec_body(mem, seg, pos, pre) == body_c0_ff(mem, seg, pos, pre)) by { reveal(spec_body); }
    reveal(body_c0_ff);
}

/// An opcode byte followed by "r/m, reg" operands decodes back, in either
/// operand order.
pub proof fn lemma_rm_r_body(
    mem: Seq<u8>,
    seg: u16,
    pos: u16,
    pre: Prefixes,
    w: Width,
    rm: Parameter,
    r: R,
    b: Seq<u8>,
)
    requires
        pre.address_size is _16bit,
        !(w is W32),
        rm_form(rm, pre.segment_prefix, w),
        reg_of_width(w, r),
        rm_bytes(rm, r.spec_index()) is Some,
        b.len() >= 1,
        b.subrange(1, b.len() as int) == rm_bytes(rm, r.spec_index()).unwrap(),
        bytes_at(mem, seg, pos, b),
    ensures
        code_u8(mem, seg, pos) == b[0],
        forall|op: Op| #[trigger]
            op_rm_r(mem, seg, pos, pre, op, w) == valid(op, p2(rm, reg_param(w, r)), b.len()),
        forall|op: Op| #[trigger]
            op_r_rm(mem, seg, pos, pre, op, w, w) == valid(op, p2(reg_param(w, r), rm), b.len()),
{
    lemma_split_first(mem, seg, pos, b);
    let rb = rm_bytes(rm, r.spec_index()).unwrap();
    assert(rb + seq![] =~= rb);
    lemma_rm_reg_operands(mem, seg, pos, pre, w, rm, r, seq![]);
}

/// An opcode byte followed by an r/m operand with group number `g` and the
/// bytes `tail` decodes back as a group instruction.
pub proof fn lemma_group_body(
    mem: Seq<u8>,
    seg: u16,
    pos: u16,
    pre: Prefixes,
    w: Width,
    rm: Parameter,
    g: int,
    tail: Seq<u8>,
    b: Seq<u8>,
)
    requires
        pre.address_size is _16bit,
        !(w is W32),
        rm_form(rm, pre.segment_prefix, w),
        0 <= g < 8,
        rm_bytes(rm, g) is Some,
        b == seq![b[0]] + rm_bytes(rm, g).unwrap() + tail,
        bytes_at(mem, seg, pos, b),
    ensures
        code_u8(mem, seg, pos) == b[0],
        reg_after(mem, seg, pos) == g,
        forall|cmd: OpView, src: Parameter, n: nat| #[trigger]
            group(mem, seg, pos, pre, w, cmd, src, n) == Some(
                Body { cmd, params: p2(rm, src), len: 1 + rm_bytes(rm, g).unwrap().len() + n },
            ),
        imm_pos(mem, seg, pos, pre, w) == add16(pos, 1 + rm_bytes(rm, g).unwrap().len() as int),
        bytes_at(mem, seg, add16(pos, 1 + rm_bytes(rm, g).unwrap().len() as int), tail),
{
    lemma_split_first(mem, seg, pos, b);
    assert(b.subrange(1, b.len() as int) =~= rm_bytes(rm, g).unwrap() + tail);
    lemma_rm_operand(mem, seg, pos, pre, w, rm, g, tail);
}

/// The byte of placed bytes at index `k`.
pub proof fn lemma_byte_at(mem: Seq<u8>, seg: u16, pos: u16, b: Seq<u8>, k: int)
    requires
        bytes_at(mem, seg, pos, b),
        0 <= k < b.len(),
    ensures
        code_u8(mem, seg, add16(pos, k)) == b[k],
{
}

/// What the 0x80..=0xBF opcode at `pos` decodes to.
pub proof fn lemma_in_80_bf(mem: Seq<u8>, seg: u16, pos: u16, pre: Prefixes)
    requires
        0x80 <= code_u8(mem, seg, pos) < 0xC0,
    ensures
        spec_body(mem, seg, pos, pre) == body_80_bf(mem, seg, pos, pre),
        !is_prefix(code_u8(mem, seg, pos)),
{
    reveal(spec_body);
}

/// mov between AL and a direct address decodes back.
pub proof fn lemma_body_mov8_moffs(mem: Seq<u8>, seg: u16, pos: u16, pre: Prefixes, ps: ParameterSet)
    requires
        encoded_at(mem, seg, pos, pre, Op::Mov8, ps),
        (ps.dst == Parameter::Reg8(R::AL) && ps.src is Ptr8) || (ps.dst is Ptr8 && ps.src
            == Parameter::Reg8(R::AL)),
    ensures
        body_decodes(mem, seg, pos, pre, Op::Mov8, ps, op_enc(OpView::Valid(Op::Mov8), ps)->Bytes_0.len()),
{
    let b = op_enc(OpView::Valid(Op::Mov8), ps)->Bytes_0;
    lemma_split_first(mem, seg, pos, b);
    lemma_in_80_bf(mem, seg, pos, pre);
    reveal(body_80_bf);
    let rest = b.subrange(1, b.len() as int);
    if ps.dst == Parameter::Reg8(R::AL) {
        assert(rest =~= word_bytes(ps.src->Ptr8_1));
        lemma_code_word(mem, seg, add16(pos, 1), ps.src->Ptr8_1);
    } else {
        assert(rest =~= word_bytes(ps.dst->Ptr8_1));
        lemma_code_word(mem, seg, add16(pos, 1), ps.dst->Ptr8_1);
    }
}

/// mov r8, imm8 decodes back.
pub proof fn lemma_body_mov8_imm(mem: Seq<u8>, seg: u16, pos: u16, pre: Prefixes, ps: ParameterSet)
    requires
        encoded_at(mem, seg, pos, pre, Op::Mov8, ps),
        ps.dst is Reg8,
        ps.src is Imm8,
    ensures
        body_decodes(mem, seg, pos, pre, Op::Mov8, ps, op_enc(OpView::Valid(Op::Mov8), ps)->Bytes_0.len()),
{
    let b = op_enc(OpView::Valid(Op::Mov8), ps)->Bytes_0;
    let r = ps.dst->Reg8_0;
    lemma_r8_index(r);
    lemma_split_first(mem, seg, pos, b);
    lemma_in_80_bf(mem, seg, pos, pre);
    reveal(body_80_bf);
    assert((0xB0 + r.spec_index()) as u8 % 8 == r.spec_index());
    lemma_byte_at(mem, seg, pos, b, 1);
}

/// mov r8, r/m8 (0x8A) decodes back.
pub proof fn lemma_body_mov8_r_rm(mem: Seq<u8>, seg: u16, pos: u16, pre: Prefixes, ps: ParameterSet)
    requires
        encoded_at(mem, seg, pos, pre, Op::Mov8, ps),
        ps.dst is Reg8,
        !(ps.src is Imm8),
        ps.src.spec_is_ptr(),
        !(ps.dst == Parameter::Reg8(R::AL) && ps.src is Ptr8),
    ensures
        body_decodes(mem, seg, pos, pre, Op::Mov8, ps, op_enc(OpView::Valid(Op::Mov8), ps)->Bytes_0.len()),
{
    let b = op_enc(OpView::Valid(Op::Mov8), ps)->Bytes_0;
    let r = ps.dst->Reg8_0;
    lemma_r8_index(r);
    assert(b.subrange(1, b.len() as int) =~= rm_bytes(ps.src, r.spec_index()).unwrap());
    lemma_rm_r_body(mem, seg, pos, pre, Width::W8, ps.src, r, b);
    lemma_in_80_bf(mem, seg, pos, pre);
    reveal(body_80_bf);
    assert(op_r_rm(mem, seg, pos, pre, Op::Mov8, Width::W8, Width::W8) == valid(Op::Mov8, p2(Parameter::Reg8(r), ps.src), b.len()));
}

/// mov r/m8, r8 (0x88) decodes back.
pub proof fn lemma_body_mov8_rm_r(mem: Seq<u8>, seg: u16, pos: u16, pre: Prefixes, ps: ParameterSet)
    requires
        encoded_at(mem, seg, pos, pre, Op::Mov8, ps),
        !(ps.dst is Reg8 && (ps.src is Imm8 || ps.src.spec_is_ptr())),
        !(ps.dst is Ptr8 && ps.src == Parameter::Reg8(R::AL)),
    ensures
        body_decodes(mem, seg, pos, pre, Op::Mov8, ps, op_enc(OpView::Valid(Op::Mov8), ps)->Bytes_0.len()),
{
    let b = op_enc(OpView::Valid(Op::Mov8), ps)->Bytes_0;
    let r = ps.src->Reg8_0;
    lemma_r8_index(r);
    assert(b.subrange(1, b.len() as int) =~= rm_bytes(ps.dst, r.spec_index()).unwrap());
    lemma_rm_r_body(mem, seg, pos, pre, Width::W8, ps.dst, r, b);
    lemma_in_80_bf(mem, seg, pos, pre);
    reveal(body_80_bf);
    assert(op_rm_r(mem, seg, pos, pre, Op::Mov8, Width::W8) == valid(Op::Mov8, p2(ps.dst, Parameter::Reg8(r)), b.len()));
}

/// mov of a byte decodes back.
pub proof fn lemma_body_mov8(mem: Seq<u8>, seg: u16, pos: u16, pre: Prefixes, ps: ParameterSet)
    requires
        encoded_at(mem, seg, pos, pre, Op::Mov8, ps),
    ensures
        body_decodes(mem, seg, pos, pre, Op::Mov8, ps, op_enc(OpView::Valid(Op::Mov8), ps)->Bytes_0.len()),
{
    if (ps.dst == Parameter::Reg8(R::AL) && ps.src is Ptr8) || (ps.dst is Ptr8 && ps.src == Parameter::Reg8(R::AL)) {
        lemma_body_mov8_moffs(mem, seg, pos, pre, ps);
    } else if ps.dst is Reg8 && ps.src is Imm8 {
        lemma_body_mov8_imm(mem, seg, pos, pre, ps);
    } else if ps.dst is Reg8 && ps.src.spec_is_ptr() {
        lemma_body_mov8_r_rm(mem, seg, pos, pre, ps);
    } else {
        lemma_body_mov8_rm_r(mem, seg, pos, pre, ps);
    }
}

/// What an opcode in 0x00..=0x3F that is no prefix decodes to.
pub proof fn lemma_in_00_3f(mem: Seq<u8>, seg: u16, pos: u16, pre: Prefixes)
    requires
        code_u8(mem, seg, pos) < 0x40,
        code_u8(mem, seg, pos) != 0x26,
        code_u8(mem, seg, pos) != 0x2E,
        code_u8(mem, seg, pos) != 0x36,
        code_u8(mem, seg, pos) != 0x3E,
    ensures
        spec_body(mem, seg, pos, pre) == body_00_3f(mem, seg, pos, pre),
        !is_prefix(code_u8(mem, seg, pos)),
{
    reveal(spec_body);
}

/// What an opcode in 0xC0..=0xFF that is no prefix decodes to.
pub proof fn lemma_in_c0_ff(mem: Seq<u8>, seg: u16, pos: u16, pre: Prefixes)
    requires
        0xC0 <= code_u8(mem, seg, pos),
        code_u8(mem, seg, pos) != 0xF0,
        code_u8(mem, seg, pos) != 0xF2,
        code_u8(mem, seg, pos) != 0xF3,
    ensures
        spec_body(mem, seg, pos, pre) == body_c0_ff(mem, seg, pos, pre),
        !is_prefix(code_u8(mem, seg, pos)),
{
    reveal(spec_body);
}

/// The opcode that `arith8` decodes the group number of `op` to.
pub proof fn lemma_arith_index(op: Op)
    requires
        is_arith8(op),
    ensures
        0 <= spec_arith_index(op) < 8,
        arith8(spec_arith_index(op) as u8) == op,
{
}

/// The 8-bit arithmetic with AL and an immediate decodes back.
pub proof fn lemma_body_arith8_al(mem: Seq<u8>, seg: u16, pos: u16, pre: Prefixes, op: Op, ps: ParameterSet)
    requires
        encoded_at(mem, seg, pos, pre, op, ps),
        is_arith8(op),
        ps.dst == Parameter::Reg8(R::AL),
        ps.src is Imm8,
    ensures
        body_decodes(mem, seg, pos, pre, op, ps, op_enc(OpView::Valid(op), ps)->Bytes_0.len()),
{
    let b = op_enc(OpView::Valid(op), ps)->Bytes_0;
    lemma_split_first(mem, seg, pos, b);
    lemma_byte_at(mem, seg, pos, b, 1);
    lemma_in_00_3f(mem, seg, pos, pre);
    reveal(body_00_3f);
}

/// The 8-bit arithmetic with a register and an immediate (0x80) decodes back.
pub proof fn lemma_body_arith8_imm(mem: Seq<u8>, seg: u16, pos: u16, pre: Prefixes, op: Op, ps: ParameterSet)
    requires
        encoded_at(mem, seg, pos, pre, op, ps),
        is_arith8(op),
        ps.dst is Reg8,
        ps.dst != Parameter::Reg8(R::AL),
        ps.src is Imm8,
    ensures
        body_decodes(mem, seg, pos, pre, op, ps, op_enc(OpView::Valid(op), ps)->Bytes_0.len()),
{
    let b = op_enc(OpView::Valid(op), ps)->Bytes_0;
    let g = spec_arith_index(op);
    lemma_arith_index(op);
    let r = ps.dst->Reg8_0;
    lemma_r8_index(r);
    assert(rm_bytes(ps.dst, g) == Some(seq![modrm(3, g, r.spec_index())]));
    assert(b =~= seq![b[0]] + rm_bytes(ps.dst, g).unwrap() + seq![ps.src->Imm8_0]);
    lemma_group_body(mem, seg, pos, pre, Width::W8, ps.dst, g, seq![ps.src->Imm8_0], b);
    lemma_byte_at(mem, seg, add16(pos, 2), seq![ps.src->Imm8_0], 0);
    assert(add16(add16(pos, 2), 0) == add16(pos, 2));
    lemma_in_80_bf(mem, seg, pos, pre);
    reveal(body_80_bf);
}

/// The 8-bit arithmetic "reg, r/m" (0x02, 0x0A, ..) decodes back.
pub proof fn lemma_body_arith8_r_rm(mem: Seq<u8>, seg: u16, pos: u16, pre: Prefixes, op: Op, ps: ParameterSet)
    requires
        encoded_at(mem, seg, pos, pre, op, ps),
        is_arith8(op),
        ps.dst is Reg8,
        !(ps.src is Imm8),
        ps.src.spec_is_ptr(),
    ensures
        body_decodes(mem, seg, pos, pre, op, ps, op_enc(OpView::Valid(op), ps)->Bytes_0.len()),
{
    let b = op_enc(OpView::Valid(op), ps)->Bytes_0;
    let r = ps.dst->Reg8_0;
    lemma_r8_index(r);
    lemma_arith_index(op);
    assert(b.subrange(1, b.len() as int) =~= rm_bytes(ps.src, r.spec_index()).unwrap());
    lemma_rm_r_body(mem, seg, pos, pre, Width::W8, ps.src, r, b);
    lemma_in_00_3f(mem, seg, pos, pre);
    reveal(body_00_3f);
    assert(op_r_rm(mem, seg, pos, pre, op, Width::W8, Width::W8) == valid(op, p2(Parameter::Reg8(r), ps.src), b.len()));
}

/// The 8-bit arithmetic "r/m, reg" (0x00, 0x08, ..) decodes back.
pub proof fn lemma_body_arith8_rm_r(mem: Seq<u8>, seg: u16, pos: u16, pre: Prefixes, op: Op, ps: ParameterSet)
    requires
        encoded_at(mem, seg, pos, pre, op, ps),
        is_arith8(op),
        !(ps.dst is Reg8 && (ps.src is Imm8 || ps.src.spec_is_ptr())),
    ensures
        body_decodes(mem, seg, pos, pre, op, ps, op_enc(OpView::Valid(op), ps)->Bytes_0.len()),
{
    let b = op_enc(OpView::Valid(op), ps)->Bytes_0;
    let r = ps.src->Reg8_0;
    lemma_r8_index(r);
    lemma_arith_index(op);
    assert(b.subrange(1, b.len() as int) =~= rm_bytes(ps.dst, r.spec_index()).unwrap());
    lemma_rm_r_body(mem, seg, pos, pre, Width::W8, ps.dst, r, b);
    lemma_in_00_3f(mem, seg, pos, pre);
    reveal(body_00_3f);
    assert(op_rm_r(mem, seg, pos, pre, op, Width::W8) == valid(op, p2(ps.dst, Parameter::Reg8(r)), b.len()));
}

/// test with AL and an immediate (0xA8) decodes back.
pub proof fn lemma_body_test8_al(mem: Seq<u8>, seg: u16, pos: u16, pre: Prefixes, ps: ParameterSet)
    requires
        encoded_at(mem, seg, pos, pre, Op::Test8, ps),
        ps.dst == Parameter::Reg8(R::AL),
        ps.src is Imm8,
    ensures
        body_decodes(mem, seg, pos, pre, Op::Test8, ps, op_enc(OpView::Valid(Op::Test8), ps)->Bytes_0.len()),
{
    let b = op_enc(OpView::Valid(Op::Test8), ps)->Bytes_0;
    lemma_split_first(mem, seg, pos, b);
    lemma_byte_at(mem, seg, pos, b, 1);
    lemma_in_80_bf(mem, seg, pos, pre);
    reveal(body_80_bf);
}

/// test r/m8, r8 (0x84) decodes back.
pub proof fn lemma_body_test8_rm_r(mem: Seq<u8>, seg: u16, pos: u16, pre: Prefixes, ps: ParameterSet)
    requires
        encoded_at(mem, seg, pos, pre, Op::Test8, ps),
        ps.src is Reg8,
    ensures
        body_decodes(mem, seg, pos, pre, Op::Test8, ps, op_enc(OpView::Valid(Op::Test8), ps)->Bytes_0.len()),
{
    let b = op_enc(OpView::Valid(Op::Test8), ps)->Bytes_0;
    let r = ps.src->Reg8_0;
    lemma_r8_index(r);
    assert(b.subrange(1, b.len() as int) =~= rm_bytes(ps.dst, r.spec_index()).unwrap());
    lemma_rm_r_body(mem, seg, pos, pre, Width::W8, ps.dst, r, b);
    lemma_in_80_bf(mem, seg, pos, pre);
    reveal(body_80_bf);
    assert(op_rm_r(mem, seg, pos, pre, Op::Test8, Width::W8) == valid(Op::Test8, p2(ps.dst, Parameter::Reg8(r)), b.len()));
}

/// The math group 0xF6 (test with an immediate, not, neg, mul, imul, div,
/// idiv) decodes back.
pub proof fn lemma_body_f6(mem: Seq<u8>, seg: u16, pos: u16, pre: Prefixes, op: Op, ps: ParameterSet)
    requires
        encoded_at(mem, seg, pos, pre, op, ps),
        is_math8(op),
        op is Test8 ==> ps.dst is Reg8 && ps.dst != Parameter::Reg8(R::AL) && ps.src is Imm8,
    ensures
        body_decodes(mem, seg, pos, pre, op, ps, op_enc(OpView::Valid(op), ps)->Bytes_0.len()),
{
    let b = op_enc(OpView::Valid(op), ps)->Bytes_0;
    let g = spec_math_index(op);
    assert(0 <= g < 8);
    assert(!(op is Test8) ==> g == spec_f6_index(op) && math8(g as u8) == op);
    let tail = if op is Test8 { seq![ps.src->Imm8_0] } else { seq![] };
    if ps.dst is Reg8 {
        let r = ps.dst->Reg8_0;
        lemma_r8_index(r);
        assert(rm_bytes(ps.dst, g) == Some(seq![modrm(3, g, r.spec_index())]));
    }
    assert(b =~= seq![b[0]] + rm_bytes(ps.dst, g).unwrap() + tail);
    lemma_group_body(mem, seg, pos, pre, Width::W8, ps.dst, g, tail, b);
    if op is Test8 {
        lemma_byte_at(mem, seg, add16(pos, 2), tail, 0);
        assert(add16(add16(pos, 2), 0) == add16(pos, 2));
    }
    lemma_in_c0_ff(mem, seg, pos, pre);
    reveal(body_c0_ff);
}

/// The 8-bit shifts and rotates by an immediate (0xC0, 0xD0) decode back.
pub proof fn lemma_body_shift8(mem: Seq<u8>, seg: u16, pos: u16, pre: Prefixes, op: Op, ps: ParameterSet)
    requires
        encoded_at(mem, seg, pos, pre, op, ps),
        is_bitshift8(op),
    ensures
        body_decodes(mem, seg, pos, pre, op, ps, op_enc(OpView::Valid(op), ps)->Bytes_0.len()),
{
    let b = op_enc(OpView::Valid(op), ps)->Bytes_0;
    let g = spec_bitshift_index(op);
    assert(0 <= g < 8);
    let r = ps.dst->Reg8_0;
    let i = ps.src->Imm8_0;
    lemma_r8_index(r);
    assert(rm_bytes(ps.dst, g) == Some(seq![modrm(3, g, r.spec_index())]));
    let tail = if i == 1 { seq![] } else { seq![i] };
    assert(b =~= seq![b[0]] + rm_bytes(ps.dst, g).unwrap() + tail);
    lemma_group_body(mem, seg, pos, pre, Width::W8, ps.dst, g, tail, b);
    if i != 1 {
        lemma_byte_at(mem, seg, add16(pos, 2), tail, 0);
        assert(add16(add16(pos, 2), 0) == add16(pos, 2));
    }
    lemma_in_c0_ff(mem, seg, pos, pre);
    reveal(body_c0_ff);
}

/// The 8-bit math operations decode back.
pub proof fn lemma_body_math8(mem: Seq<u8>, seg: u16, pos: u16, pre: Prefixes, op: Op, ps: ParameterSet)
    requires
        encoded_at(mem, seg, pos, pre, op, ps),
        is_math8(op),
    ensures
        body_decodes(mem, seg, pos, pre, op, ps, op_enc(OpView::Valid(op), ps)->Bytes_0.len()),
{
    if op is Test8 {
        if ps.dst == Parameter::Reg8(R::AL) && ps.src is Imm8 {
            lemma_body_test8_al(mem, seg, pos, pre, ps);
        } else if ps.src is Imm8 {
            lemma_body_f6(mem, seg, pos, pre, op, ps);
        } else {
            lemma_body_test8_rm_r(mem, seg, pos, pre, ps);
        }
    } else {
        lemma_body_f6(mem, seg, pos, pre, op, ps);
    }
}

/// The 8-bit arithmetic operations decode back.
pub proof fn lemma_body_arith8(mem: Seq<u8>, seg: u16, pos: u16, pre: Prefixes, op: Op, ps: ParameterSet)
    requires
        encoded_at(mem, seg, pos, pre, op, ps),
        is_arith8(op),
    ensures
        body_decodes(mem, seg, pos, pre, op, ps, op_enc(OpView::Valid(op), ps)->Bytes_0.len()),
{
    if ps.dst == Parameter::Reg8(R::AL) && ps.src is Imm8 {
        lemma_body_arith8_al(mem, seg, pos, pre, op, ps);
    } else if ps.dst is Reg8 && ps.src is Imm8 {
        lemma_body_arith8_imm(mem, seg, pos, pre, op, ps);
    } else if ps.dst is Reg8 && ps.src.spec_is_ptr() {
        lemma_body_arith8_r_rm(mem, seg, pos, pre, op, ps);
    } else {
        lemma_body_arith8_rm_r(mem, seg, pos, pre, op, ps);
    }
}

/// xchg r/m8, r8 (0x86) and lea r16, m (0x8D) decode back.
pub proof fn lemma_body_xchg_lea(mem: Seq<u8>, seg: u16, pos: u16, pre: Prefixes, op: Op, ps: ParameterSet)
    requires
        encoded_at(mem, seg, pos, pre, op, ps),
        op is Xchg8 || op is Lea16,
    ensures
        body_decodes(mem, seg, pos, pre, op, ps, op_enc(OpView::Valid(op), ps)->Bytes_0.len()),
{
    let b = op_enc(OpView::Valid(op), ps)->Bytes_0;
    if op is Xchg8 {
        let r = ps.src->Reg8_0;
        lemma_r8_index(r);
        assert(b.subrange(1, b.len() as int) =~= rm_bytes(ps.dst, r.spec_index()).unwrap());
        lemma_rm_r_body(mem, seg, pos, pre, Width::W8, ps.dst, r, b);
        lemma_in_80_bf(mem, seg, pos, pre);
        reveal(body_80_bf);
        assert(op_rm_r(mem, seg, pos, pre, op, Width::W8) == valid(op, p2(ps.dst, Parameter::Reg8(r)), b.len()));
    } else {
        let r = ps.dst->Reg16_0;
        lemma_r16_index(r);
        assert(b.subrange(1, b.len() as int) =~= rm_bytes(ps.src, r.spec_index()).unwrap());
        lemma_rm_r_body(mem, seg, pos, pre, Width::W16, ps.src, r, b);
        lemma_in_80_bf(mem, seg, pos, pre);
        reveal(body_80_bf);
        assert(op_r_rm(mem, seg, pos, pre, op, Width::W16, Width::W16) == valid(op, p2(Parameter::Reg16(r), ps.src), b.len()));
    }
}

/// shld / shrd r/m16, r16, imm8 (0x0F 0xA4 / 0xAC) decode back.
pub proof fn lemma_body_double_shift(mem: Seq<u8>, seg: u16, pos: u16, pre: Prefixes, op: Op, ps: ParameterSet)
    requires
        encoded_at(mem, seg, pos, pre, op, ps),
        op is Shld || op is Shrd,
    ensures
        body_decodes(mem, seg, pos, pre, op, ps, op_enc(OpView::Valid(op), ps)->Bytes_0.len()),
{
    let b = op_enc(OpView::Valid(op), ps)->Bytes_0;
    let r = ps.src->Reg16_0;
    let i = ps.src2->Imm8_0;
    lemma_r16_index(r);
    let rb = rm_bytes(ps.dst, r.spec_index()).unwrap();
    lemma_split_first(mem, seg, pos, b);
    let p1 = add16(pos, 1);
    let rest = b.subrange(1, b.len() as int);
    lemma_split_first(mem, seg, p1, rest);
    lemma_add16(pos, 1, 1);
    assert(rest.subrange(1, rest.len() as int) =~= rb + seq![i]);
    lemma_rm_reg_operands(mem, seg, p1, pre, Width::W16, ps.dst, r, seq![i]);
    lemma_add16(p1, 1, rb.len() as int);
    lemma_byte_at(mem, seg, add16(pos, 2 + rb.len() as int), seq![i], 0);
    assert(add16(add16(pos, 2 + rb.len() as int), 0) == add16(pos, 2 + rb.len() as int));
    lemma_add16(add16(pos, 2), 0, rb.len() as int);
    lemma_in_00_3f(mem, seg, pos, pre);
    reveal(body_00_3f);
    reveal(body_0f);
}

/// Every operation the encoder encodes, in decoded form, decodes back from
/// its bytes.
pub proof fn lemma_body(mem: Seq<u8>, seg: u16, pos: u16, pre: Prefixes, op: Op, ps: ParameterSet)
    requires
        encoded_at(mem, seg, pos, pre, op, ps),
    ensures
        body_decodes(mem, seg, pos, pre, op, ps, op_enc(OpView::Valid(op), ps)->Bytes_0.len()),
{
    if op is Aaa || op is Aas || op is Popf {
        lemma_body_plain(mem, seg, pos, pre, op, ps);
    } else if op is Int || op is Push16 || op is Mov16 {
        lemma_body_imm(mem, seg, pos, pre, op, ps);
    } else if (op is Inc16 || op is Dec16) && ps.dst is Reg16 {
        lemma_body_incdec_reg(mem, seg, pos, pre, op, ps);
    } else if op is Inc8 || op is Dec8 || op is Inc16 || op is Dec16 {
        lemma_body_incdec_rm(mem, seg, pos, pre, op, ps);
    } else if op is Mov8 {
        lemma_body_mov8(mem, seg, pos, pre, ps);
    } else if is_arith8(op) {
        lemma_body_arith8(mem, seg, pos, pre, op, ps);
    } else if is_math8(op) {
        lemma_body_math8(mem, seg, pos, pre, op, ps);
    } else if is_bitshift8(op) {
        lemma_body_shift8(mem, seg, pos, pre, op, ps);
    } else if op is Xchg8 || op is Lea16 {
        lemma_body_xchg_lea(mem, seg, pos, pre, op, ps);
    } else if op is Shld || op is Shrd {
        lemma_body_double_shift(mem, seg, pos, pre, op, ps);
    }
}

/// A prefix byte other than REP hands the rest to the decoder with its
/// state recorded.
pub proof fn lemma_decode_prefix(mem: Seq<u8>, seg: u16, pos: u16, pre: Prefixes, fuel: nat)
    requires
        is_prefix(code_u8(mem, seg, pos)),
        code_u8(mem, seg, pos) != 0xF3,
        fuel > 0,
    ensures
        spec_decode(mem, seg, pos, pre, fuel) == match spec_decode(
            mem,
            seg,
            add16(pos, 1),
            apply_prefix(pre, code_u8(mem, seg, pos)),
            (fuel - 1) as nat,
        ) {
            Some((iv, n)) => Some((iv, n + 1)),
            None => None,
        },
{
}

/// The prefix state after the prefix bytes of an instruction.
pub open spec fn prefixes_of(i: InstructionView) -> Prefixes {
    Prefixes {
        segment_prefix: i.segment_prefix,
        repeat: RepeatMode::NoRepeat,
        lock: i.lock,
        op_size: OperandSize::_16bit,
        address_size: AddressSize::_16bit,
    }
}

/// An operation and its operands after the segment override decode back.
pub proof fn lemma_decode_after_segment(
    mem: Seq<u8>,
    seg: u16,
    pos: u16,
    i: InstructionView,
    op: Op,
    fuel: nat,
)
    requires
        canonical(i),
        i.command == OpView::Valid(op),
        op_enc(i.command, i.params) is Bytes,
        bytes_at(mem, seg, pos, segment_prefix_bytes(i.segment_prefix) + op_enc(i.command, i.params)->Bytes_0),
        fuel > 0,
    ensures
        spec_decode(mem, seg, pos, Prefixes { segment_prefix: Segment::Default, ..prefixes_of(i) }, fuel)
            == Some((i, segment_prefix_bytes(i.segment_prefix).len() + op_enc(i.command, i.params)->Bytes_0.len())),
{
    let sb = segment_prefix_bytes(i.segment_prefix);
    let ob = op_enc(i.command, i.params)->Bytes_0;
    let pre0 = Prefixes { segment_prefix: Segment::Default, ..prefixes_of(i) };
    let pre = prefixes_of(i);
    if sb.len() == 0 {
        assert(sb + ob =~= ob);
        assert(pre0 == pre);
        lemma_body(mem, seg, pos, pre, op, i.params);
    } else {
        lemma_split_first(mem, seg, pos, sb + ob);
        assert((sb + ob).subrange(1, (sb + ob).len() as int) =~= ob);
        assert(apply_prefix(pre0, sb[0]) == pre);
        lemma_body(mem, seg, add16(pos, 1), pre, op, i.params);
        lemma_decode_prefix(mem, seg, pos, pre0, fuel);
        assert(spec_decode(mem, seg, add16(pos, 1), pre, (fuel - 1) as nat) == Some((i, ob.len())));
    }
}

/// Decoding undoes encoding: an instruction in the form the decoder gives
/// one (no REP prefix, 16-bit operand and address sizes, operands of the
/// operation's width, memory operands under the instruction's segment
/// override), once encoded and placed at `seg:off`, decodes to the same
/// instruction, and the decoder takes exactly the encoded bytes.
pub proof fn lemma_decode_encoded(i: InstructionView, mem: Seq<u8>, seg: u16, off: u16)
    requires
        canonical(i),
        spec_encode(i) is Bytes,
        bytes_at(mem, seg, off, spec_encode(i)->Bytes_0),
    ensures
        decode_at(mem, seg, off) == Some((i, spec_encode(i)->Bytes_0.len())),
{
    let op = i.command->Valid_0;
    let sb = segment_prefix_bytes(i.segment_prefix);
    let ob = op_enc(i.command, i.params)->Bytes_0;
    let b = spec_encode(i)->Bytes_0;
    let pre0 = Prefixes { segment_prefix: Segment::Default, ..prefixes_of(i) };
    if i.lock {
        assert(b =~= seq![0xF0u8] + (sb + ob));
        lemma_split_first(mem, seg, off, b);
        assert(b.subrange(1, b.len() as int) =~= sb + ob);
        assert(apply_prefix(initial_prefixes(), 0xF0) == pre0);
        lemma_decode_after_segment(mem, seg, add16(off, 1), i, op, 65535);
        lemma_decode_prefix(mem, seg, off, initial_prefixes(), 65536);
    } else {
        assert(b =~= sb + ob);
        assert(initial_prefixes() == pre0);
        lemma_decode_after_segment(mem, seg, off, i, op, 65536);
    }
}

} // verus!
