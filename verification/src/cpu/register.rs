use vstd::prelude::*;

use crate::cpu::decoder::AddressSize;
use crate::cpu::flag::Flags;

verus! {

/// A 32-bit general purpose register (AL -> AX -> EAX).
#[derive(Copy, Clone, Debug, Default)]
pub struct GPR {
    val: u32,
}

/// Low byte of a 32-bit register value.
pub open spec fn lo8(v: u32) -> u8 {
    (v % 256) as u8
}

/// Second byte of a 32-bit register value.
pub open spec fn hi8(v: u32) -> u8 {
    ((v / 256) % 256) as u8
}

/// Low word of a 32-bit register value.
pub open spec fn lo16(v: u32) -> u16 {
    (v % 65536) as u16
}

/// `v` with its low byte replaced.
pub open spec fn with_lo8(v: u32, b: u8) -> u32 {
    ((v / 256) * 256 + b) as u32
}

/// `v` with its second byte replaced.
pub open spec fn with_hi8(v: u32, b: u8) -> u32 {
    ((v / 65536) * 65536 + b * 256 + v % 256) as u32
}

/// `v` with its low word replaced.
pub open spec fn with_lo16(v: u32, w: u16) -> u32 {
    ((v / 65536) * 65536 + w) as u32
}

impl View for GPR {
    type V = u32;

    closed spec fn view(&self) -> u32 {
        self.val
    }
}

impl GPR {
    /// sets the high byte of the word register
    pub fn set_hi(&mut self, val: u8)
        ensures
            final(self)@ == with_hi8(old(self)@, val),
    {
        let old_val = self.val;
        assert((old_val & 0xFFFF_00FF) + ((val as u32) << 8u32) <= 0xFFFF_FFFF
            && (old_val & 0xFFFF_00FF) + ((val as u32) << 8u32) == (old_val / 65536) * 65536
            + val * 256 + old_val % 256) by (bit_vector);
        self.val = (self.val & 0xFFFF_00FF) + ((val as u32) << 8u32);
    }

    /// sets the low byte of the word register
    pub fn set_lo(&mut self, val: u8)
        ensures
            final(self)@ == with_lo8(old(self)@, val),
    {
        let old_val = self.val;
        assert((old_val & 0xFFFF_FF00) + (val as u32) <= 0xFFFF_FFFF && (old_val & 0xFFFF_FF00)
            + (val as u32) == (old_val / 256) * 256 + val) by (bit_vector);
        self.val = (self.val & 0xFFFF_FF00) + (val as u32);
    }

    /// gets the low byte of the word register
    pub fn lo_u8(&self) -> (r: u8)
        ensures
            r == lo8(self@),
    {
        let v = self.val;
        assert((v & 0xFF) as u8 == v % 256) by (bit_vector);
        (self.val & 0xFF) as u8
    }

    /// gets the high byte of the word register
    pub fn hi_u8(&self) -> (r: u8)
        ensures
            r == hi8(self@),
    {
        let v = self.val;
        assert((v >> 8u32) as u8 == (v / 256) % 256) by (bit_vector);
        (self.val >> 8u32) as u8
    }

    pub fn set16(&mut self, val: u16)
        ensures
            final(self)@ == with_lo16(old(self)@, val),
    {
        let old_val = self.val;
        assert((old_val & 0xFFFF_0000) | (val as u32) == (old_val / 65536) * 65536 + val)
            by (bit_vector);
        self.val = (self.val & 0xFFFF_0000) | (val as u32);
    }

    pub fn set32(&mut self, val: u32)
        ensures
            final(self)@ == val,
    {
        self.val = val;
    }
}

/// The registers an instruction can name.
#[derive(Copy, Clone, Debug, PartialEq, Eq, Structural)]
pub enum R {
    AL, CL, DL, BL, AH, CH, DH, BH,         // 8-bit gpr
    AX, CX, DX, BX, SP, BP, SI, DI,         // 16-bit gpr
    ES, CS, SS, DS, FS, GS,                 // sr
    IP,                                     // ip
    EAX, ECX, EDX, EBX, ESP, EBP, ESI, EDI, // 32-bit gpr
}

impl R {
    pub open spec fn is_r8(self) -> bool {
        self is AL || self is CL || self is DL || self is BL || self is AH || self is CH
            || self is DH || self is BH
    }

    pub open spec fn is_r16(self) -> bool {
        self is AX || self is CX || self is DX || self is BX || self is SP || self is BP
            || self is SI || self is DI
    }

    pub open spec fn is_sreg(self) -> bool {
        self is ES || self is CS || self is SS || self is DS || self is FS || self is GS
    }

    pub open spec fn is_r32(self) -> bool {
        self is EAX || self is ECX || self is EDX || self is EBX || self is ESP || self is EBP
            || self is ESI || self is EDI
    }

    /// The encoding number of a register within its class.
    pub open spec fn spec_index(self) -> int {
        match self {
            R::AL | R::AX | R::EAX | R::ES => 0,
            R::CL | R::CX | R::ECX | R::CS => 1,
            R::DL | R::DX | R::EDX | R::SS => 2,
            R::BL | R::BX | R::EBX | R::DS => 3,
            R::AH | R::SP | R::ESP | R::FS => 4,
            R::CH | R::BP | R::EBP | R::GS => 5,
            R::DH | R::SI | R::ESI => 6,
            R::BH | R::DI | R::EDI => 7,
            R::IP => 8,
        }
    }

    /// The assembler name of a register.
    pub open spec fn name(self) -> Seq<char> {
        match self {
            R::AL => seq!['a', 'l'],
            R::CL => seq!['c', 'l'],
            R::DL => seq!['d', 'l'],
            R::BL => seq!['b', 'l'],
            R::AH => seq!['a', 'h'],
            R::CH => seq!['c', 'h'],
            R::DH => seq!['d', 'h'],
            R::BH => seq!['b', 'h'],
            R::AX => seq!['a', 'x'],
            R::CX => seq!['c', 'x'],
            R::DX => seq!['d', 'x'],
            R::BX => seq!['b', 'x'],
            R::SP => seq!['s', 'p'],
            R::BP => seq!['b', 'p'],
            R::SI => seq!['s', 'i'],
            R::DI => seq!['d', 'i'],
            R::ES => seq!['e', 's'],
            R::CS => seq!['c', 's'],
            R::SS => seq!['s', 's'],
            R::DS => seq!['d', 's'],
            R::FS => seq!['f', 's'],
            R::GS => seq!['g', 's'],
            R::IP => seq!['i', 'p'],
            R::EAX => seq!['e', 'a', 'x'],
            R::ECX => seq!['e', 'c', 'x'],
            R::EDX => seq!['e', 'd', 'x'],
            R::EBX => seq!['e', 'b', 'x'],
            R::ESP => seq!['e', 's', 'p'],
            R::EBP => seq!['e', 'b', 'p'],
            R::ESI => seq!['e', 's', 'i'],
            R::EDI => seq!['e', 'd', 'i'],
        }
    }

    /// The assembler name of the register.
    pub fn as_str(&self) -> (r: &'static str)
        ensures
            r@ == self.name(),
    {
        match *self {
            R::AL => {
                proof { reveal_strlit("al"); }
                "al"
            },
            R::CL => {
                proof { reveal_strlit("cl"); }
                "cl"
            },
            R::DL => {
                proof { reveal_strlit("dl"); }
                "dl"
            },
            R::BL => {
                proof { reveal_strlit("bl"); }
                "bl"
            },
            R::AH => {
                proof { reveal_strlit("ah"); }
                "ah"
            },
            R::CH => {
                proof { reveal_strlit("ch"); }
                "ch"
            },
            R::DH => {
                proof { reveal_strlit("dh"); }
                "dh"
            },
            R::BH => {
                proof { reveal_strlit("bh"); }
                "bh"
            },
            R::AX => {
                proof { reveal_strlit("ax"); }
                "ax"
            },
            R::CX => {
                proof { reveal_strlit("cx"); }
                "cx"
            },
            R::DX => {
                proof { reveal_strlit("dx"); }
                "dx"
            },
            R::BX => {
                proof { reveal_strlit("bx"); }
                "bx"
            },
            R::SP => {
                proof { reveal_strlit("sp"); }
                "sp"
            },
            R::BP => {
                proof { reveal_strlit("bp"); }
                "bp"
            },
            R::SI => {
                proof { reveal_strlit("si"); }
                "si"
            },
            R::DI => {
                proof { reveal_strlit("di"); }
                "di"
            },
            R::ES => {
                proof { reveal_strlit("es"); }
                "es"
            },
            R::CS => {
                proof { reveal_strlit("cs"); }
                "cs"
            },
            R::SS => {
                proof { reveal_strlit("ss"); }
                "ss"
            },
            R::DS => {
                proof { reveal_strlit("ds"); }
                "ds"
            },
            R::FS => {
                proof { reveal_strlit("fs"); }
                "fs"
            },
            R::GS => {
                proof { reveal_strlit("gs"); }
                "gs"
            },
            R::IP => {
                proof { reveal_strlit("ip"); }
                "ip"
            },
            R::EAX => {
                proof { reveal_strlit("eax"); }
                "eax"
            },
            R::ECX => {
                proof { reveal_strlit("ecx"); }
                "ecx"
            },
            R::EDX => {
                proof { reveal_strlit("edx"); }
                "edx"
            },
            R::EBX => {
                proof { reveal_strlit("ebx"); }
                "ebx"
            },
            R::ESP => {
                proof { reveal_strlit("esp"); }
                "esp"
            },
            R::EBP => {
                proof { reveal_strlit("ebp"); }
                "ebp"
            },
            R::ESI => {
                proof { reveal_strlit("esi"); }
                "esi"
            },
            R::EDI => {
                proof { reveal_strlit("edi"); }
                "edi"
            },
        }
    }

    pub fn index(&self) -> (r: usize)
        requires
            !(*self is IP),
        ensures
            r == self.spec_index(),
            r < 8,
    {
        match *self {
            R::AL | R::AX | R::EAX | R::ES => 0,
            R::CL | R::CX | R::ECX | R::CS => 1,
            R::DL | R::DX | R::EDX | R::SS => 2,
            R::BL | R::BX | R::EBX | R::DS => 3,
            R::AH | R::SP | R::ESP | R::FS => 4,
            R::CH | R::BP | R::EBP | R::GS => 5,
            R::DH | R::SI | R::ESI => 6,
            R::BH | R::DI | R::EDI => 7,
            R::IP => 8,
        }
    }
}

/// The 8-bit register with encoding number `v`.
pub open spec fn spec_r8(v: u8) -> R {
    if v == 0 { R::AL }
    else if v == 1 { R::CL }
    else if v == 2 { R::DL }
    else if v == 3 { R::BL }
    else if v == 4 { R::AH }
    else if v == 5 { R::CH }
    else if v == 6 { R::DH }
    else { R::BH }
}

/// The 16-bit register with encoding number `v`.
pub open spec fn spec_r16(v: u8) -> R {
    if v == 0 { R::AX }
    else if v == 1 { R::CX }
    else if v == 2 { R::DX }
    else if v == 3 { R::BX }
    else if v == 4 { R::SP }
    else if v == 5 { R::BP }
    else if v == 6 { R::SI }
    else { R::DI }
}

/// The 32-bit register with encoding number `v`.
pub open spec fn spec_r32(v: u8) -> R {
    if v == 0 { R::EAX }
    else if v == 1 { R::ECX }
    else if v == 2 { R::EDX }
    else if v == 3 { R::EBX }
    else if v == 4 { R::ESP }
    else if v == 5 { R::EBP }
    else if v == 6 { R::ESI }
    else { R::EDI }
}

/// The segment register with encoding number `v`.
pub open spec fn spec_sr(v: u8) -> R {
    if v == 0 { R::ES }
    else if v == 1 { R::CS }
    else if v == 2 { R::SS }
    else if v == 3 { R::DS }
    else if v == 4 { R::FS }
    else { R::GS }
}

pub fn r8(v: u8) -> (r: R)
    requires
        v < 8,
    ensures
        r == spec_r8(v),
        r.is_r8(),
        r.spec_index() == v,
{
    match v {
        0 => R::AL,
        1 => R::CL,
        2 => R::DL,
        3 => R::BL,
        4 => R::AH,
        5 => R::CH,
        6 => R::DH,
        _ => R::BH,
    }
}

pub fn r16(v: u8) -> (r: R)
    requires
        v < 8,
    ensures
        r == spec_r16(v),
        r.is_r16(),
        r.spec_index() == v,
{
    match v {
        0 => R::AX,
        1 => R::CX,
        2 => R::DX,
        3 => R::BX,
        4 => R::SP,
        5 => R::BP,
        6 => R::SI,
        _ => R::DI,
    }
}

pub fn r32(v: u8) -> (r: R)
    requires
        v < 8,
    ensures
        r == spec_r32(v),
        r.is_r32(),
        r.spec_index() == v,
{
    match v {
        0 => R::EAX,
        1 => R::ECX,
        2 => R::EDX,
        3 => R::EBX,
        4 => R::ESP,
        5 => R::EBP,
        6 => R::ESI,
        _ => R::EDI,
    }
}

pub fn sr(v: u8) -> (r: R)
    requires
        v < 6,
    ensures
        r == spec_sr(v),
        r.is_sreg(),
        r.spec_index() == v,
{
    match v {
        0 => R::ES,
        1 => R::CS,
        2 => R::SS,
        3 => R::DS,
        4 => R::FS,
        _ => R::GS,
    }
}

/// A memory addressing mode of a ModR/M operand.
#[derive(Copy, Clone, Debug, PartialEq, Eq, Structural)]
pub enum AMode {
    // 16-bit addressing modes
    BXSI, BXDI, BPSI, BPDI, SI, DI, BP, BX,

    // 32-bit addressing modes
    EAX, ECX, EDX, EBX, ESP, EBP, ESI, EDI,
}

impl AMode {
    pub open spec fn spec_index(self) -> int {
        match self {
            AMode::BXSI | AMode::EAX => 0,
            AMode::BXDI | AMode::ECX => 1,
            AMode::BPSI | AMode::EDX => 2,
            AMode::BPDI | AMode::EBX => 3,
            AMode::SI | AMode::ESP => 4,
            AMode::DI | AMode::EBP => 5,
            AMode::BP | AMode::ESI => 6,
            AMode::BX | AMode::EDI => 7,
        }
    }

    pub open spec fn is_16bit(self) -> bool {
        self is BXSI || self is BXDI || self is BPSI || self is BPDI || self is SI || self is DI
            || self is BP || self is BX
    }

    /// The assembler text of an addressing mode.
    pub open spec fn name(self) -> Seq<char> {
        match self {
            AMode::BXSI => seq!['b', 'x', '+', 's', 'i'],
            AMode::BXDI => seq!['b', 'x', '+', 'd', 'i'],
            AMode::BPSI => seq!['b', 'p', '+', 's', 'i'],
            AMode::BPDI => seq!['b', 'p', '+', 'd', 'i'],
            AMode::SI => seq!['s', 'i'],
            AMode::DI => seq!['d', 'i'],
            AMode::BP => seq!['b', 'p'],
            AMode::BX => seq!['b', 'x'],
            AMode::EAX => seq!['e', 'a', 'x'],
            AMode::ECX => seq!['e', 'c', 'x'],
            AMode::EDX => seq!['e', 'd', 'x'],
            AMode::EBX => seq!['e', 'b', 'x'],
            AMode::ESP => seq!['e', 's', 'p'],
            AMode::EBP => seq!['e', 'b', 'p'],
            AMode::ESI => seq!['e', 's', 'i'],
            AMode::EDI => seq!['e', 'd', 'i'],
        }
    }

    /// The assembler text of the addressing mode.
    pub fn as_str(&self) -> (r: &'static str)
        ensures
            r@ == self.name(),
    {
        match *self {
            AMode::BXSI => {
                proof { reveal_strlit("bx+si"); }
                "bx+si"
            },
            AMode::BXDI => {
                proof { reveal_strlit("bx+di"); }
                "bx+di"
            },
            AMode::BPSI => {
                proof { reveal_strlit("bp+si"); }
                "bp+si"
            },
            AMode::BPDI => {
                proof { reveal_strlit("bp+di"); }
                "bp+di"
            },
            AMode::SI => {
                proof { reveal_strlit("si"); }
                "si"
            },
            AMode::DI => {
                proof { reveal_strlit("di"); }
                "di"
            },
            AMode::BP => {
                proof { reveal_strlit("bp"); }
                "bp"
            },
            AMode::BX => {
                proof { reveal_strlit("bx"); }
                "bx"
            },
            AMode::EAX => {
                proof { reveal_strlit("eax"); }
                "eax"
            },
            AMode::ECX => {
                proof { reveal_strlit("ecx"); }
                "ecx"
            },
            AMode::EDX => {
                proof { reveal_strlit("edx"); }
                "edx"
            },
            AMode::EBX => {
                proof { reveal_strlit("ebx"); }
                "ebx"
            },
            AMode::ESP => {
                proof { reveal_strlit("esp"); }
                "esp"
            },
            AMode::EBP => {
                proof { reveal_strlit("ebp"); }
                "ebp"
            },
            AMode::ESI => {
                proof { reveal_strlit("esi"); }
                "esi"
            },
            AMode::EDI => {
                proof { reveal_strlit("edi"); }
                "edi"
            },
        }
    }

    pub fn index(&self) -> (r: usize)
        ensures
            r == self.spec_index(),
            r < 8,
    {
        match *self {
            AMode::BXSI | AMode::EAX => 0,
            AMode::BXDI | AMode::ECX => 1,
            AMode::BPSI | AMode::EDX => 2,
            AMode::BPDI | AMode::EBX => 3,
            AMode::SI | AMode::ESP => 4,
            AMode::DI | AMode::EBP => 5,
            AMode::BP | AMode::ESI => 6,
            AMode::BX | AMode::EDI => 7,
        }
    }
}

/// The addressing mode with encoding number `v` under an address size.
pub open spec fn spec_amode_from(size: AddressSize, v: u8) -> AMode {
    match size {
        AddressSize::_16bit => {
            if v == 0 { AMode::BXSI }
            else if v == 1 { AMode::BXDI }
            else if v == 2 { AMode::BPSI }
            else if v == 3 { AMode::BPDI }
            else if v == 4 { AMode::SI }
            else if v == 5 { AMode::DI }
            else if v == 6 { AMode::BP }
            else { AMode::BX }
        },
        AddressSize::_32bit => {
            if v == 0 { AMode::EAX }
            else if v == 1 { AMode::ECX }
            else if v == 2 { AMode::EDX }
            else if v == 3 { AMode::EBX }
            else if v == 4 { AMode::ESP }
            else if v == 5 { AMode::EBP }
            else if v == 6 { AMode::ESI }
            else { AMode::EDI }
        },
    }
}

impl AddressSize {
    pub fn amode_from(&self, val: u8) -> (r: AMode)
        requires
            val < 8,
        ensures
            r == spec_amode_from(*self, val),
            r.spec_index() == val,
            r.is_16bit() <==> *self is _16bit,
    {
        match self {
            AddressSize::_16bit => {
                match val {
                    0 => AMode::BXSI,
                    1 => AMode::BXDI,
                    2 => AMode::BPSI,
                    3 => AMode::BPDI,
                    4 => AMode::SI,
                    5 => AMode::DI,
                    6 => AMode::BP,
                    _ => AMode::BX,
                }
            },
            AddressSize::_32bit => {
                match val {
                    0 => AMode::EAX,
                    1 => AMode::ECX,
                    2 => AMode::EDX,
                    3 => AMode::EBX,
                    4 => AMode::ESP,
                    5 => AMode::EBP,
                    6 => AMode::ESI,
                    _ => AMode::EDI,
                }
            },
        }
    }
}

/// The register file: 8 general purpose registers, segment registers, ip and flags.
#[derive(Clone)]
pub struct RegisterSnapshot {
    pub ip: u16,
    pub gpr: [GPR; 15],  // 8 general purpose registers, 6 segment registers, 1 ip
    pub sreg16: [u16; 6],  // segment registers
    pub flags: Flags,
}

/// The register file as mathematical values: the 32-bit general purpose
/// registers by number, the segment registers by number, ip and flags.
pub ghost struct RegsView {
    pub ip: u16,
    pub gpr: Seq<u32>,
    pub sreg: Seq<u16>,
    pub flags: Flags,
}

impl View for RegisterSnapshot {
    type V = RegsView;

    open spec fn view(&self) -> RegsView {
        RegsView {
            ip: self.ip,
            gpr: self.gpr@.map_values(|g: GPR| g@),
            sreg: self.sreg16@,
            flags: self.flags,
        }
    }
}

impl RegsView {
    /// The value of an 8-bit register.
    pub open spec fn r8(self, r: R) -> u8 {
        let g = self.gpr[r.spec_index() % 4];
        if r.spec_index() < 4 { lo8(g) } else { hi8(g) }
    }

    /// The value of a 16-bit general purpose, segment or instruction pointer register.
    pub open spec fn r16(self, r: R) -> u16 {
        if r.is_r16() {
            lo16(self.gpr[r.spec_index()])
        } else if r.is_sreg() {
            self.sreg[r.spec_index()]
        } else {
            self.ip
        }
    }

    /// The value of a 32-bit register.
    pub open spec fn r32(self, r: R) -> u32 {
        self.gpr[r.spec_index()]
    }

    /// The registers after the 8-bit register `r` is set to `v`.
    pub open spec fn with_r8(self, r: R, v: u8) -> RegsView {
        let i = r.spec_index() % 4;
        RegsView {
            gpr: self.gpr.update(
                i,
                if r.spec_index() < 4 { with_lo8(self.gpr[i], v) } else { with_hi8(self.gpr[i], v) },
            ),
            ..self
        }
    }

    /// The registers after the 16-bit general purpose or segment register `r`
    /// is set to `v`.
    pub open spec fn with_r16(self, r: R, v: u16) -> RegsView {
        if r.is_sreg() {
            RegsView { sreg: self.sreg.update(r.spec_index(), v), ..self }
        } else {
            RegsView {
                gpr: self.gpr.update(r.spec_index(), with_lo16(self.gpr[r.spec_index()], v)),
                ..self
            }
        }
    }

    /// The registers after the 32-bit register `r` is set to `v`.
    pub open spec fn with_r32(self, r: R, v: u32) -> RegsView {
        RegsView { gpr: self.gpr.update(r.spec_index(), v), ..self }
    }

    /// The register file has its fixed number of slots.
    pub open spec fn wf(self) -> bool {
        self.gpr.len() == 15 && self.sreg.len() == 6
    }
}

/// The 8-bit register with number `i` holds the low byte of the 16-bit
/// register `i % 4` for `i < 4`, its high byte for `i >= 4`.
pub open spec fn byte_of(w: u16, high: bool) -> u8 {
    if high { (w / 256) as u8 } else { (w % 256) as u8 }
}

/// An 8-bit register reads back what was written to it; the other 8-bit
/// registers, and the 16- and 32-bit registers that do not hold it, keep
/// their values; the 16-bit register that holds it changes in that byte only.
pub proof fn lemma_write_read_r8(v: RegsView, r: R, x: u8)
    requires
        v.wf(),
        r.is_r8(),
    ensures
        v.with_r8(r, x).r8(r) == x,
        forall|r2: R| r2.is_r8() && r2 != r ==> #[trigger] v.with_r8(r, x).r8(r2) == v.r8(r2),
        forall|r2: R|
            r2.is_r16() && r2.spec_index() != r.spec_index() % 4 ==> #[trigger] v.with_r8(r, x).r16(r2)
                == v.r16(r2),
        forall|r2: R|
            r2.is_r16() && r2.spec_index() == r.spec_index() % 4 ==> byte_of(#[trigger] v.with_r8(r, x).r16(r2), r.spec_index() >= 4) == x
                && byte_of(v.with_r8(r, x).r16(r2), r.spec_index() < 4) == byte_of(v.r16(r2), r.spec_index() < 4),
        v.with_r8(r, x).sreg == v.sreg,
        v.with_r8(r, x).ip == v.ip,
        v.with_r8(r, x).flags == v.flags,
{
    let i = r.spec_index() % 4;
    let g = v.gpr[i];
    assert(lo8(with_lo8(g, x)) == x && hi8(with_hi8(g, x)) == x && lo8(with_hi8(g, x)) == lo8(g)
        && hi8(with_lo8(g, x)) == hi8(g)) by {
        assert(lo8(with_lo8(g, x)) == x) by (nonlinear_arith);
        assert(hi8(with_hi8(g, x)) == x) by (nonlinear_arith);
        assert(lo8(with_hi8(g, x)) == lo8(g)) by (nonlinear_arith);
        assert(hi8(with_lo8(g, x)) == hi8(g)) by (nonlinear_arith);
    }
    assert forall|r2: R| r2.is_r16() && r2.spec_index() == i implies byte_of(
        #[trigger] v.with_r8(r, x).r16(r2),
        r.spec_index() >= 4,
    ) == x && byte_of(v.with_r8(r, x).r16(r2), r.spec_index() < 4) == byte_of(v.r16(r2), r.spec_index() < 4) by {
        let n = v.with_r8(r, x).gpr[i];
        assert(byte_of(lo16(n), true) == hi8(n)) by (nonlinear_arith);
        assert(byte_of(lo16(n), false) == lo8(n)) by (nonlinear_arith);
        assert(byte_of(lo16(g), true) == hi8(g)) by (nonlinear_arith);
        assert(byte_of(lo16(g), false) == lo8(g)) by (nonlinear_arith);
    }
}

/// A 16-bit register reads back what was written to it, its two bytes read
/// as 8-bit registers where it has them, the 32-bit register that holds it
/// keeps its upper half, and every other register keeps its value.
pub proof fn lemma_write_read_r16(v: RegsView, r: R, x: u16)
    requires
        v.wf(),
        r.is_r16(),
    ensures
        v.with_r16(r, x).r16(r) == x,
        forall|r2: R| (r2.is_r16() || r2.is_sreg()) && r2 != r ==> #[trigger] v.with_r16(r, x).r16(r2) == v.r16(r2),
        forall|r2: R|
            r2.is_r32() && r2.spec_index() == r.spec_index() ==> #[trigger] v.with_r16(r, x).r32(r2)
                == with_lo16(v.r32(r2), x),
        forall|r2: R| r2.is_r32() && r2.spec_index() != r.spec_index() ==> #[trigger] v.with_r16(r, x).r32(r2) == v.r32(r2),
        forall|r2: R| r2.is_r8() && r2.spec_index() % 4 == r.spec_index() ==> #[trigger] v.with_r16(r, x).r8(r2) == byte_of(x, r2.spec_index() >= 4),
        v.with_r16(r, x).ip == v.ip,
        v.with_r16(r, x).flags == v.flags,
{
    let g = v.gpr[r.spec_index()];
    assert(lo16(with_lo16(g, x)) == x) by (nonlinear_arith);
    assert(lo8(with_lo16(g, x)) == byte_of(x, false)) by (nonlinear_arith);
    assert(hi8(with_lo16(g, x)) == byte_of(x, true)) by (nonlinear_arith);
}

/// A 32-bit register reads back what was written to it, its low half reads
/// as the 16-bit register, and every other register keeps its value.
pub proof fn lemma_write_read_r32(v: RegsView, r: R, x: u32)
    requires
        v.wf(),
        r.is_r32(),
    ensures
        v.with_r32(r, x).r32(r) == x,
        forall|r2: R| r2.is_r32() && r2 != r ==> #[trigger] v.with_r32(r, x).r32(r2) == v.r32(r2),
        forall|r2: R| r2.is_r16() && r2.spec_index() == r.spec_index() ==> #[trigger] v.with_r32(r, x).r16(r2) == lo16(x),
        forall|r2: R| r2.is_r16() && r2.spec_index() != r.spec_index() ==> #[trigger] v.with_r32(r, x).r16(r2) == v.r16(r2),
        v.with_r32(r, x).sreg == v.sreg,
        v.with_r32(r, x).ip == v.ip,
        v.with_r32(r, x).flags == v.flags,
{
}

/// Writing a 16-bit register twice leaves the second value; writing back
/// the value it holds changes nothing.
pub proof fn lemma_overwrite_r16(v: RegsView, r: R, x: u16, y: u16)
    requires
        v.wf(),
        r.is_r16() || r.is_sreg(),
    ensures
        v.with_r16(r, x).with_r16(r, y) == v.with_r16(r, y),
        v.with_r16(r, v.r16(r)) == v,
{
    if r.is_r16() {
        let i = r.spec_index();
        let g = v.gpr[i];
        assert(with_lo16(with_lo16(g, x), y) == with_lo16(g, y)) by (nonlinear_arith);
        assert(with_lo16(g, lo16(g)) == g) by (nonlinear_arith);
        assert(v.with_r16(r, x).with_r16(r, y).gpr =~= v.with_r16(r, y).gpr);
        assert(v.with_r16(r, v.r16(r)).gpr =~= v.gpr);
    } else {
        assert(v.with_r16(r, x).with_r16(r, y).sreg =~= v.with_r16(r, y).sreg);
        assert(v.with_r16(r, v.r16(r)).sreg =~= v.sreg);
    }
}

impl Default for RegisterSnapshot {
    /// Every register zero, every flag clear.
    fn default() -> (r: Self)
        ensures
            r@.ip == 0,
            r@.gpr == Seq::new(15, |i: int| 0u32),
            r@.sreg == Seq::new(6, |i: int| 0u16),
            r@.flags == Flags::cleared(),
    {
        let r = RegisterSnapshot {
            ip: 0,
            gpr: [GPR { val: 0 }; 15],
            sreg16: [0u16; 6],
            flags: Flags::new(),
        };
        proof {
            assert(r@.gpr =~= Seq::new(15, |i: int| 0u32));
            assert(r@.sreg =~= Seq::new(6, |i: int| 0u16));
        }
        r
    }
}

impl RegisterSnapshot {
    /// The value of an 8-bit register.
    pub open spec fn reg8(&self, r: R) -> u8 {
        let g = self.gpr@[r.spec_index() % 4]@;
        if r.spec_index() < 4 { lo8(g) } else { hi8(g) }
    }

    /// The value of a 16-bit, segment or instruction pointer register.
    pub open spec fn reg16(&self, r: R) -> u16 {
        if r.is_r16() {
            lo16(self.gpr@[r.spec_index()]@)
        } else if r.is_sreg() {
            self.sreg16@[r.spec_index()]
        } else {
            self.ip
        }
    }

    /// The value of a 32-bit register.
    pub open spec fn reg32(&self, r: R) -> u32 {
        self.gpr@[r.spec_index()]@
    }

    pub fn get_r8(&self, r: &R) -> (v: u8)
        requires
            r.is_r8(),
        ensures
            v == self.reg8(*r),
            v == self@.r8(*r),
    {
        match *r {
            R::AL => self.gpr[0].lo_u8(),
            R::CL => self.gpr[1].lo_u8(),
            R::DL => self.gpr[2].lo_u8(),
            R::BL => self.gpr[3].lo_u8(),
            R::AH => self.gpr[0].hi_u8(),
            R::CH => self.gpr[1].hi_u8(),
            R::DH => self.gpr[2].hi_u8(),
            _ => self.gpr[3].hi_u8(),
        }
    }

    pub fn set_r8(&mut self, r: &R, val: u8)
        requires
            r.is_r8(),
        ensures
            final(self).ip == old(self).ip,
            final(self).sreg16 == old(self).sreg16,
            final(self).flags == old(self).flags,
            final(self).gpr@.len() == 15,
            forall|i: int|
                0 <= i < 15 && i != r.spec_index() % 4 ==> final(self).gpr@[i]@ == old(
                    self,
                ).gpr@[i]@,
            final(self).gpr@[r.spec_index() % 4]@ == (if r.spec_index() < 4 {
                with_lo8(old(self).gpr@[r.spec_index() % 4]@, val)
            } else {
                with_hi8(old(self).gpr@[r.spec_index() % 4]@, val)
            }),
            final(self)@ == old(self)@.with_r8(*r, val),
    {
        let slot: usize = r.index() % 4;
        let mut g = self.gpr[slot];
        if r.index() < 4 {
            g.set_lo(val);
        } else {
            g.set_hi(val);
        }
        self.gpr[slot] = g;
        proof {
            assert(self@.gpr =~= old(self)@.with_r8(*r, val).gpr);
        }
    }

    pub fn get_r16(&self, r: &R) -> (v: u16)
        requires
            r.is_r16() || r.is_sreg() || *r is IP,
        ensures
            v == self.reg16(*r),
            v == self@.r16(*r),
    {
        if let R::IP = *r {
            return self.ip;
        }
        let i = r.index();
        match *r {
            R::ES | R::CS | R::SS | R::DS | R::FS | R::GS => self.sreg16[i],
            _ => {
                self.gpr[i].lo_u16()
            },
        }
    }

    pub fn set_r16(&mut self, r: &R, val: u16)
        requires
            r.is_r16() || r.is_sreg(),
        ensures
            final(self).ip == old(self).ip,
            final(self).flags == old(self).flags,
            r.is_sreg() ==> final(self).gpr == old(self).gpr,
            r.is_sreg() ==> final(self).sreg16@ == old(self).sreg16@.update(r.spec_index(), val),
            r.is_r16() ==> final(self).sreg16 == old(self).sreg16,
            final(self).gpr@.len() == 15,
            r.is_r16() ==> forall|i: int|
                0 <= i < 15 && i != r.spec_index() ==> final(self).gpr@[i]@ == old(self).gpr@[i]@,
            r.is_r16() ==> final(self).gpr@[r.spec_index()]@ == with_lo16(
                old(self).gpr@[r.spec_index()]@,
                val,
            ),
            final(self)@ == old(self)@.with_r16(*r, val),
    {
        let i = r.index();
        match *r {
            R::ES | R::CS | R::SS | R::DS | R::FS | R::GS => {
                self.sreg16[i] = val;
            },
            _ => {
                let mut g = self.gpr[i];
                g.set16(val);
                self.gpr[i] = g;
            },
        }
        proof {
            assert(self@.gpr =~= old(self)@.with_r16(*r, val).gpr);
            assert(self@.sreg =~= old(self)@.with_r16(*r, val).sreg);
        }
    }

    pub fn get_r32(&self, r: &R) -> (v: u32)
        requires
            r.is_r32(),
        ensures
            v == self.reg32(*r),
            v == self@.r32(*r),
    {
        let i = r.index();
        self.gpr[i].get32()
    }

    pub fn set_r32(&mut self, r: &R, val: u32)
        requires
            r.is_r32(),
        ensures
            final(self).ip == old(self).ip,
            final(self).flags == old(self).flags,
            final(self).sreg16 == old(self).sreg16,
            final(self).gpr@.len() == 15,
            forall|i: int|
                0 <= i < 15 && i != r.spec_index() ==> final(self).gpr@[i]@ == old(self).gpr@[i]@,
            final(self).gpr@[r.spec_index()]@ == val,
            final(self)@ == old(self)@.with_r32(*r, val),
    {
        let i = r.index();
        let mut g = self.gpr[i];
        g.set32(val);
        self.gpr[i] = g;
        proof {
            assert(self@.gpr =~= old(self)@.with_r32(*r, val).gpr);
        }
    }
}

impl GPR {
    fn lo_u16(&self) -> (r: u16)
        ensures
            r == lo16(self@),
    {
        let v = self.val;
        assert(v as u16 == v % 65536) by (bit_vector);
        self.val as u16
    }

    fn get32(&self) -> (r: u32)
        ensures
            r == self@,
    {
        self.val
    }
}

} // verus!
