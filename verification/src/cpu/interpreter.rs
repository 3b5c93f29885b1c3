use vstd::prelude::*;

use crate::bios::BIOS;
use crate::cpu::decoder::Decoder;
use crate::cpu::flag::{even_parity, Flags};
use crate::cpu::instruction::{Instruction, InstructionView};
use crate::cpu::op::{Op, OpView};
use crate::cpu::parameter::{Parameter, ParameterSet, spec_count};
use crate::cpu::register::{AMode, RegisterSnapshot, RegsView, R};
use crate::cpu::segment::{Segment, segment_register};
use crate::memory::{dword_at, flat, le32, put16, put8, word_at, Memory, MemoryAddress, MEMORY_SIZE};

verus! {

/// A processor exception, by its vector name.
#[derive(Copy, Clone, Debug, PartialEq, Eq, Structural)]
pub enum Exception {
    /// Divide by 0
    DIV0,
    /// Invalid opcode (UD2)
    UD,
    /// Double fault
    DF,
    /// Invalid TSS
    TS,
    /// Segment not present
    NP,
    /// Stack-segment fault
    SS,
    /// General protection fault
    GP,
    /// Page fault
    PF,
}

/// The x86 processor: its registers and counters.
pub struct CPU {
    pub instruction_count: usize,
    pub cycle_count: usize,
    /// general purpose registers, segment registers, ip
    pub regs: RegisterSnapshot,
    /// base address the rom was loaded to
    pub rom_base: u32,
    /// for debugging: signals to debugger we hit an error
    pub fatal_error: bool,
    /// for testing: toggles non-deterministic behaviour
    pub deterministic: bool,
    pub decoder: Decoder,
    pub clock_hz: usize,
}

/// The segment DOS loads a .com program into.
pub const PSP_SEGMENT: u16 = 0x085F;

/// The segment a BIOS image is loaded into.
pub const BIOS_SEGMENT: u16 = 0xF000;

/// The registers at the start of a .com program: CS, DS, ES, SS and DX hold
/// the program's segment, SP and DI 0xFFFE, BP 0x091C, CX 0xFF, SI and IP
/// 0x0100; the others keep their values.
pub open spec fn com_regs(r: RegsView) -> RegsView {
    let s = r.with_r16(R::CS, PSP_SEGMENT).with_r16(R::DS, PSP_SEGMENT).with_r16(
        R::ES,
        PSP_SEGMENT,
    ).with_r16(R::SS, PSP_SEGMENT).with_r16(R::SP, 0xFFFE).with_r16(R::BP, 0x091C).with_r16(
        R::CX,
        0xFF,
    ).with_r16(R::DX, PSP_SEGMENT).with_r16(R::SI, 0x100).with_r16(R::DI, 0xFFFE);
    RegsView { ip: 0x0100, ..s }
}

/// Memory `mem` with `data` copied to it from the flat address `at` on.
pub open spec fn loaded(mem: Seq<u8>, at: int, data: Seq<u8>) -> Seq<u8> {
    Seq::new(MEMORY_SIZE as nat, |i: int| if at <= i < at + data.len() { data[i - at] } else { mem[i] })
}

/// The base of a segment: the value of its segment register.
pub open spec fn seg_value(regs: RegsView, s: Segment) -> u16 {
    regs.r16(segment_register(s))
}

/// The offset an addressing mode computes; a 32-bit mode gives the whole
/// register.
pub open spec fn amode_value(regs: RegsView, am: AMode) -> usize {
    match am {
        AMode::BXSI => regs.r16(R::BX).wrapping_add(regs.r16(R::SI)) as usize,
        AMode::BXDI => regs.r16(R::BX).wrapping_add(regs.r16(R::DI)) as usize,
        AMode::BPSI => regs.r16(R::BP).wrapping_add(regs.r16(R::SI)) as usize,
        AMode::BPDI => regs.r16(R::BP).wrapping_add(regs.r16(R::DI)) as usize,
        AMode::SI => regs.r16(R::SI) as usize,
        AMode::DI => regs.r16(R::DI) as usize,
        AMode::BP => regs.r16(R::BP) as usize,
        AMode::BX => regs.r16(R::BX) as usize,
        AMode::EAX => regs.r32(R::EAX) as usize,
        AMode::ECX => regs.r32(R::ECX) as usize,
        AMode::EDX => regs.r32(R::EDX) as usize,
        AMode::EBX => regs.r32(R::EBX) as usize,
        AMode::ESP => regs.r32(R::ESP) as usize,
        AMode::EBP => regs.r32(R::EBP) as usize,
        AMode::ESI => regs.r32(R::ESI) as usize,
        AMode::EDI => regs.r32(R::EDI) as usize,
    }
}

/// The offset of an addressing mode plus a displacement, within the segment.
pub open spec fn ea(regs: RegsView, am: AMode, disp: u16) -> u16 {
    (amode_value(regs, am) as u16).wrapping_add(disp)
}

/// The segment and offset a memory operand names; `None` for any other
/// operand.
pub open spec fn mem_location(regs: RegsView, p: Parameter) -> Option<(u16, u16)> {
    match p {
        Parameter::Ptr8(s, off) | Parameter::Ptr16(s, off) | Parameter::Ptr32(s, off) => Some(
            (seg_value(regs, s), off),
        ),
        Parameter::Ptr8Amode(s, am) | Parameter::Ptr16Amode(s, am) | Parameter::Ptr32Amode(s, am) => Some(
            (seg_value(regs, s), amode_value(regs, am) as u16),
        ),
        Parameter::Ptr8AmodeS8(s, am, d) | Parameter::Ptr16AmodeS8(s, am, d) | Parameter::Ptr32AmodeS8(
            s,
            am,
            d,
        ) => Some((seg_value(regs, s), ea(regs, am, d as u16))),
        Parameter::Ptr8AmodeS16(s, am, d) | Parameter::Ptr16AmodeS16(s, am, d) | Parameter::Ptr32AmodeS16(
            s,
            am,
            d,
        ) => Some((seg_value(regs, s), ea(regs, am, d as u16))),
        _ => None,
    }
}

/// An operand the processor can read.
pub open spec fn readable(p: Parameter) -> bool {
    match p {
        Parameter::Imm8(_) | Parameter::Imm16(_) | Parameter::Imm32(_) | Parameter::ImmS8(_) => true,
        Parameter::Reg8(r) => r.is_r8(),
        Parameter::Reg16(r) | Parameter::SReg16(r) => r.is_r16() || r.is_sreg() || r is IP,
        Parameter::Reg32(r) => r.is_r32(),
        Parameter::Ptr16Imm(..) | Parameter::Ptr32AmodeS16(..) | Parameter::Empty => false,
        _ => true,
    }
}

/// The value of an operand, widened to a machine word: bytes, words and
/// dwords unsigned, a signed byte sign-extended.
pub open spec fn read_value(regs: RegsView, mem: Seq<u8>, p: Parameter) -> usize {
    match p {
        Parameter::Imm8(v) => v as usize,
        Parameter::Imm16(v) => v as usize,
        Parameter::Imm32(v) => v as usize,
        Parameter::ImmS8(v) => v as usize,
        Parameter::Reg8(r) => regs.r8(r) as usize,
        Parameter::Reg16(r) | Parameter::SReg16(r) => regs.r16(r) as usize,
        Parameter::Reg32(r) => regs.r32(r) as usize,
        Parameter::Ptr8(..) | Parameter::Ptr8Amode(..) | Parameter::Ptr8AmodeS8(..)
        | Parameter::Ptr8AmodeS16(..) => {
            let (s, o) = mem_location(regs, p).unwrap();
            mem[flat(s, o)] as usize
        },
        Parameter::Ptr16(..) | Parameter::Ptr16Amode(..) | Parameter::Ptr16AmodeS8(..)
        | Parameter::Ptr16AmodeS16(..) => {
            let (s, o) = mem_location(regs, p).unwrap();
            word_at(mem, flat(s, o)) as usize
        },
        _ => {
            let (s, o) = mem_location(regs, p).unwrap();
            dword_at(mem, flat(s, o)) as usize
        },
    }
}

/// The registers and memory of the machine.
pub ghost struct State {
    pub regs: RegsView,
    pub mem: Seq<u8>,
}

/// An operand a byte can be written to.
pub open spec fn writable8(p: Parameter) -> bool {
    match p {
        Parameter::Reg8(r) => r.is_r8(),
        _ => p.is_ptr8(),
    }
}

/// The state after writing the byte `v` to the operand `p`.
pub open spec fn write8(st: State, p: Parameter, v: u8) -> State {
    match p {
        Parameter::Reg8(r) => State { regs: st.regs.with_r8(r, v), ..st },
        _ => {
            let (s, o) = mem_location(st.regs, p).unwrap();
            State { mem: put8(st.mem, s, o, v), ..st }
        },
    }
}

/// An operand a word can be written to.
pub open spec fn writable16(p: Parameter) -> bool {
    match p {
        Parameter::Reg16(r) | Parameter::SReg16(r) => r.is_r16() || r.is_sreg(),
        Parameter::Imm16(_) | Parameter::Ptr16(..) | Parameter::Ptr16Amode(..)
        | Parameter::Ptr16AmodeS8(..) | Parameter::Ptr16AmodeS16(..) => true,
        _ => false,
    }
}

/// The state after writing the word `v` to the operand `p`; an immediate
/// names an offset in the segment `segment`.
pub open spec fn write16(st: State, segment: Segment, p: Parameter, v: u16) -> State {
    match p {
        Parameter::Reg16(r) | Parameter::SReg16(r) => State { regs: st.regs.with_r16(r, v), ..st },
        Parameter::Imm16(off) => State {
            mem: put16(st.mem, seg_value(st.regs, segment), off, v),
            ..st
        },
        _ => {
            let (s, o) = mem_location(st.regs, p).unwrap();
            State { mem: put16(st.mem, s, o, v), ..st }
        },
    }
}

/// An operand a dword can be written to.
pub open spec fn writable32(p: Parameter) -> bool {
    match p {
        Parameter::Reg32(r) => r.is_r32(),
        Parameter::Ptr32(..) | Parameter::Ptr32Amode(..) | Parameter::Ptr32AmodeS8(..)
        | Parameter::Ptr32AmodeS16(..) => true,
        _ => false,
    }
}

/// Memory after storing the dword `v` at `seg:off`, low byte first.
pub open spec fn put32(mem: Seq<u8>, seg: u16, off: u16, v: u32) -> Seq<u8> {
    let a = flat(seg, off);
    mem.update(a, (v % 256) as u8).update(a + 1, ((v / 256) % 256) as u8).update(
        a + 2,
        ((v / 65536) % 256) as u8,
    ).update(a + 3, (v / 16777216) as u8)
}

/// The state after writing the dword `v` to the operand `p`.
pub open spec fn write32(st: State, p: Parameter, v: u32) -> State {
    match p {
        Parameter::Reg32(r) => State { regs: st.regs.with_r32(r, v), ..st },
        _ => {
            let (s, o) = mem_location(st.regs, p).unwrap();
            State { mem: put32(st.mem, s, o, v), ..st }
        },
    }
}

impl CPU {
    /// The registers and memory as one state.
    pub open spec fn state(&self, mem: &Memory) -> State {
        State { regs: self.regs@, mem: mem@ }
    }

    pub fn default() -> (r: Self)
        ensures
            r.instruction_count == 0,
            r.cycle_count == 0,
            r.regs@.ip == 0,
            r.regs@.gpr == Seq::new(15, |i: int| 0u32),
            r.regs@.sreg == Seq::new(6, |i: int| 0u16),
            r.regs@.flags == Flags::cleared(),
            r.rom_base == 0,
            !r.fatal_error,
            !r.deterministic,
            r.clock_hz == 5_000_000,
    {
        CPU {
            instruction_count: 0,
            cycle_count: 0,
            regs: RegisterSnapshot::default(),
            rom_base: 0,
            fatal_error: false,
            deterministic: false,
            decoder: Decoder::default(),
            clock_hz: 5_000_000,  // Intel 8086: 0.330 MIPS at 5.000 MHz
        }
    }

    /// A processor whose behaviour does not depend on the host: the same as
    /// `default` with `deterministic` set.
    pub fn deterministic() -> (r: Self)
        ensures
            r.instruction_count == 0,
            r.cycle_count == 0,
            r.regs@.ip == 0,
            r.regs@.gpr == Seq::new(15, |i: int| 0u32),
            r.regs@.sreg == Seq::new(6, |i: int| 0u16),
            r.regs@.flags == Flags::cleared(),
            r.rom_base == 0,
            !r.fatal_error,
            r.deterministic,
            r.clock_hz == 5_000_000,
    {
        let mut res = Self::default();
        res.deterministic = true;
        res
    }

    pub fn get_r8(&self, r: R) -> (v: u8)
        requires
            r.is_r8(),
        ensures
            v == self.regs@.r8(r),
    {
        self.regs.get_r8(&r)
    }

    pub fn set_r8(&mut self, r: R, val: u8)
        requires
            r.is_r8(),
        ensures
            final(self).regs@ == old(self).regs@.with_r8(r, val),
            final(self).same_but_regs(*old(self)),
    {
        self.regs.set_r8(&r, val);
    }

    pub fn get_r16(&self, r: R) -> (v: u16)
        requires
            r.is_r16() || r.is_sreg() || r is IP,
        ensures
            v == self.regs@.r16(r),
    {
        self.regs.get_r16(&r)
    }

    pub fn set_r16(&mut self, r: R, val: u16)
        requires
            r.is_r16() || r.is_sreg(),
        ensures
            final(self).regs@ == old(self).regs@.with_r16(r, val),
            final(self).same_but_regs(*old(self)),
    {
        self.regs.set_r16(&r, val);
    }

    pub fn get_r32(&self, r: R) -> (v: u32)
        requires
            r.is_r32(),
        ensures
            v == self.regs@.r32(r),
    {
        self.regs.get_r32(&r)
    }

    pub fn set_r32(&mut self, r: R, val: u32)
        requires
            r.is_r32(),
        ensures
            final(self).regs@ == old(self).regs@.with_r32(r, val),
            final(self).same_but_regs(*old(self)),
    {
        self.regs.set_r32(&r, val);
    }

    /// Reads the byte at CS:IP and moves IP past it.
    pub fn read_u8(&mut self, mem: &Memory) -> (b: u8)
        ensures
            b == mem@[flat(old(self).regs@.r16(R::CS), old(self).regs@.ip)],
            final(self).regs@ == (RegsView { ip: old(self).regs@.ip.wrapping_add(1), ..old(self).regs@ }),
            final(self).same_but_regs(*old(self)),
    {
        let (seg, off) = self.get_address_pair();
        let b = mem.read_u8(seg, off);
        self.regs.ip = self.regs.ip.wrapping_add(1);
        b
    }

    /// Reads the little-endian word at CS:IP and moves IP past it.
    pub fn read_u16(&mut self, mem: &Memory) -> (w: u16)
        ensures
            ({
                let (cs, ip) = (old(self).regs@.r16(R::CS), old(self).regs@.ip);
                w == mem@[flat(cs, ip)] as u16 + (mem@[flat(cs, ip.wrapping_add(1))] as u16) * 256
            }),
            final(self).regs@ == (RegsView { ip: old(self).regs@.ip.wrapping_add(1).wrapping_add(1), ..old(self).regs@ }),
            final(self).same_but_regs(*old(self)),
    {
        let lo = self.read_u8(mem);
        let hi = self.read_u8(mem);
        let w = (hi as u16) << 8u16 | (lo as u16);
        proof {
            assert((hi as u16) << 8u16 | (lo as u16) == lo as u16 + (hi as u16) * 256) by (bit_vector);
        }
        w
    }

    /// Reads the byte at CS:IP as a signed byte and moves IP past it.
    pub fn read_s8(&mut self, mem: &Memory) -> (b: i8)
        ensures
            b == mem@[flat(old(self).regs@.r16(R::CS), old(self).regs@.ip)] as i8,
            final(self).regs@ == (RegsView { ip: old(self).regs@.ip.wrapping_add(1), ..old(self).regs@ }),
            final(self).same_but_regs(*old(self)),
    {
        self.read_u8(mem) as i8
    }

    /// Reads the word at CS:IP as a signed word and moves IP past it.
    pub fn read_s16(&mut self, mem: &Memory) -> (w: i16)
        ensures
            ({
                let (cs, ip) = (old(self).regs@.r16(R::CS), old(self).regs@.ip);
                w == (mem@[flat(cs, ip)] as u16 + (mem@[flat(cs, ip.wrapping_add(1))] as u16) * 256) as i16
            }),
            final(self).regs@ == (RegsView { ip: old(self).regs@.ip.wrapping_add(1).wrapping_add(1), ..old(self).regs@ }),
            final(self).same_but_regs(*old(self)),
    {
        self.read_u16(mem) as i16
    }

    /// Reads a signed byte displacement at CS:IP and returns the target it
    /// names: the address after it plus the displacement, within the segment.
    pub fn read_rel8(&mut self, mem: &Memory) -> (t: u16)
        ensures
            ({
                let (cs, ip) = (old(self).regs@.r16(R::CS), old(self).regs@.ip);
                t == ip.wrapping_add(1).wrapping_add((mem@[flat(cs, ip)] as i8) as u16)
            }),
            final(self).regs@ == (RegsView { ip: old(self).regs@.ip.wrapping_add(1), ..old(self).regs@ }),
            final(self).same_but_regs(*old(self)),
    {
        let val = self.read_u8(mem) as i8;
        self.regs.ip.wrapping_add(val as u16)
    }

    /// Reads a signed word displacement at CS:IP and returns the target it
    /// names: the address after it plus the displacement, within the segment.
    pub fn read_rel16(&mut self, mem: &Memory) -> (t: u16)
        ensures
            ({
                let (cs, ip) = (old(self).regs@.r16(R::CS), old(self).regs@.ip);
                let w = (mem@[flat(cs, ip)] as u16 + (mem@[flat(cs, ip.wrapping_add(1))] as u16) * 256) as u16;
                t == ip.wrapping_add(1).wrapping_add(1).wrapping_add(w)
            }),
            final(self).regs@ == (RegsView { ip: old(self).regs@.ip.wrapping_add(1).wrapping_add(1), ..old(self).regs@ }),
            final(self).same_but_regs(*old(self)),
    {
        let val = self.read_u16(mem);
        self.regs.ip.wrapping_add(val)
    }

    /// The value of a segment register.
    pub fn get_sr(&self, r: R) -> (v: u16)
        requires
            r.is_sreg(),
        ensures
            v == self.regs@.r16(r),
    {
        self.regs.get_r16(&r)
    }

    /// Sets a segment register.
    pub fn set_sr(&mut self, r: R, val: u16)
        requires
            r.is_sreg(),
        ensures
            final(self).regs@ == old(self).regs@.with_r16(r, val),
            final(self).same_but_regs(*old(self)),
    {
        self.regs.set_r16(&r, val);
    }

    /// CS:IP as a memory address.
    pub fn get_memory_address(&self) -> (r: MemoryAddress)
        ensures
            r == MemoryAddress::RealSegmentOffset(self.regs@.r16(R::CS), self.regs@.ip),
    {
        MemoryAddress::RealSegmentOffset(self.get_r16(R::CS), self.regs.ip)
    }

    /// Every field but the registers is as in `other`.
    pub open spec fn same_but_regs(self, other: CPU) -> bool {
        &&& self.instruction_count == other.instruction_count
        &&& self.cycle_count == other.cycle_count
        &&& self.rom_base == other.rom_base
        &&& self.fatal_error == other.fatal_error
        &&& self.deterministic == other.deterministic
        &&& self.clock_hz == other.clock_hz
        &&& self.decoder == other.decoder
    }

    /// base address the rom was loaded to
    pub fn get_rom_base(&self) -> (r: u32)
        ensures
            r == self.rom_base,
    {
        self.rom_base
    }

    /// returns the absolute address of CS:IP
    pub fn get_address(&self) -> (r: u32)
        ensures
            r == flat(self.regs@.r16(R::CS), self.regs@.ip),
    {
        let cs = self.get_r16(R::CS);
        (cs as u32) * 16 + (self.regs.ip as u32)
    }

    /// Loads a .com program at 085F:0100, the segment DOS gives it, and sets
    /// up the registers as DOS does at program load.
    pub fn load_com(&mut self, mem: &mut Memory, data: &[u8])
        requires
            flat(PSP_SEGMENT, 0x0100) + data@.len() <= MEMORY_SIZE,
        ensures
            final(self).regs@ == com_regs(old(self).regs@),
            final(self).rom_base == flat(PSP_SEGMENT, 0x0100),
            final(mem)@ == loaded(old(mem)@, flat(PSP_SEGMENT, 0x0100), data@),
            final(self).instruction_count == old(self).instruction_count,
            final(self).cycle_count == old(self).cycle_count,
            final(self).fatal_error == old(self).fatal_error,
            final(self).deterministic == old(self).deterministic,
            final(self).clock_hz == old(self).clock_hz,
            final(self).decoder == old(self).decoder,
    {
        self.set_r16(R::CS, PSP_SEGMENT);
        self.set_r16(R::DS, PSP_SEGMENT);
        self.set_r16(R::ES, PSP_SEGMENT);
        self.set_r16(R::SS, PSP_SEGMENT);
        // offset of last word available in first 64k segment
        self.set_r16(R::SP, 0xFFFE);
        self.set_r16(R::BP, 0x091C);
        // This is what dosbox initializes the registers to at program load
        self.set_r16(R::CX, 0xFF);
        self.set_r16(R::DX, PSP_SEGMENT);
        self.set_r16(R::SI, 0x100);
        self.set_r16(R::DI, 0xFFFE);
        self.regs.ip = 0x0100;
        self.rom_base = self.get_address();
        mem.write(PSP_SEGMENT, 0x0100, data);
        proof {
            assert(final(mem)@ =~= loaded(old(mem)@, flat(PSP_SEGMENT, 0x0100), data@));
        }
    }

    /// Loads a BIOS image at F000:0000 and points CS:IP at its start.
    pub fn load_bios(&mut self, mem: &mut Memory, data: &[u8])
        requires
            flat(BIOS_SEGMENT, 0) + data@.len() <= MEMORY_SIZE,
        ensures
            final(self).regs@ == (RegsView { ip: 0, ..old(self).regs@.with_r16(R::CS, BIOS_SEGMENT) }),
            final(self).rom_base == 0,
            final(mem)@ == loaded(old(mem)@, flat(BIOS_SEGMENT, 0), data@),
            final(self).instruction_count == old(self).instruction_count,
            final(self).cycle_count == old(self).cycle_count,
            final(self).fatal_error == old(self).fatal_error,
            final(self).deterministic == old(self).deterministic,
            final(self).clock_hz == old(self).clock_hz,
            final(self).decoder == old(self).decoder,
    {
        self.set_r16(R::CS, BIOS_SEGMENT);
        self.regs.ip = 0x0000;
        self.rom_base = self.regs.ip as u32;
        mem.write(BIOS_SEGMENT, 0x0000, data);
        proof {
            assert(final(mem)@ =~= loaded(old(mem)@, flat(BIOS_SEGMENT, 0), data@));
        }
    }

    /// returns cs, ip
    pub fn get_address_pair(&self) -> (r: (u16, u16))
        ensures
            r == (self.regs@.r16(R::CS), self.regs@.ip),
    {
        (self.get_r16(R::CS), self.regs.ip)
    }

    /// returns the value of the given segment register
    pub fn segment(&self, seg: Segment) -> (r: u16)
        ensures
            r == seg_value(self.regs@, seg),
    {
        self.get_r16(seg.as_register())
    }

    /// The offset an addressing mode computes.
    pub fn amode(&self, amode: &AMode) -> (r: usize)
        ensures
            r == amode_value(self.regs@, *amode),
    {
        match *amode {
            AMode::BXSI => self.get_r16(R::BX).wrapping_add(self.get_r16(R::SI)) as usize,
            AMode::BXDI => self.get_r16(R::BX).wrapping_add(self.get_r16(R::DI)) as usize,
            AMode::BPSI => self.get_r16(R::BP).wrapping_add(self.get_r16(R::SI)) as usize,
            AMode::BPDI => self.get_r16(R::BP).wrapping_add(self.get_r16(R::DI)) as usize,
            AMode::SI => self.get_r16(R::SI) as usize,
            AMode::DI => self.get_r16(R::DI) as usize,
            AMode::BP => self.get_r16(R::BP) as usize,
            AMode::BX => self.get_r16(R::BX) as usize,
            AMode::EAX => self.get_r32(R::EAX) as usize,
            AMode::ECX => self.get_r32(R::ECX) as usize,
            AMode::EDX => self.get_r32(R::EDX) as usize,
            AMode::EBX => self.get_r32(R::EBX) as usize,
            AMode::ESP => self.get_r32(R::ESP) as usize,
            AMode::EBP => self.get_r32(R::EBP) as usize,
            AMode::ESI => self.get_r32(R::ESI) as usize,
            AMode::EDI => self.get_r32(R::EDI) as usize,
        }
    }

    /// The segment and offset of a memory operand.
    fn location(&self, p: &Parameter) -> (r: (u16, u16))
        requires
            mem_location(self.regs@, *p) is Some,
        ensures
            r == mem_location(self.regs@, *p).unwrap(),
    {
        match *p {
            Parameter::Ptr8(s, off) | Parameter::Ptr16(s, off) | Parameter::Ptr32(s, off) => (
                self.segment(s),
                off,
            ),
            Parameter::Ptr8Amode(s, am) | Parameter::Ptr16Amode(s, am) | Parameter::Ptr32Amode(s, am) => (
                self.segment(s),
                self.amode(&am) as u16,
            ),
            Parameter::Ptr8AmodeS8(s, am, d) | Parameter::Ptr16AmodeS8(s, am, d)
            | Parameter::Ptr32AmodeS8(s, am, d) => (
                self.segment(s),
                (self.amode(&am) as u16).wrapping_add(d as u16),
            ),
            Parameter::Ptr8AmodeS16(s, am, d) | Parameter::Ptr16AmodeS16(s, am, d)
            | Parameter::Ptr32AmodeS16(s, am, d) => (
                self.segment(s),
                (self.amode(&am) as u16).wrapping_add(d as u16),
            ),
            _ => (0, 0),
        }
    }

    pub fn read_parameter_imm(&self, p: &Parameter) -> (r: usize)
        requires
            p is Imm8 || p is Imm16 || p is ImmS8,
        ensures
            r == read_value(self.regs@, Seq::empty(), *p),
    {
        match *p {
            Parameter::Imm8(imm) => imm as usize,
            Parameter::Imm16(imm) => imm as usize,
            Parameter::ImmS8(imm) => imm as usize,
            _ => 0,
        }
    }

    pub fn read_parameter_value(&self, mem: &Memory, p: &Parameter) -> (r: usize)
        requires
            readable(*p),
        ensures
            r == read_value(self.regs@, mem@, *p),
    {
        match *p {
            Parameter::Imm8(imm) => imm as usize,
            Parameter::Imm16(imm) => imm as usize,
            Parameter::Imm32(imm) => imm as usize,
            Parameter::ImmS8(imm) => imm as usize,
            Parameter::Reg8(r) => self.get_r8(r) as usize,
            Parameter::Reg16(r) | Parameter::SReg16(r) => self.get_r16(r) as usize,
            Parameter::Reg32(r) => self.get_r32(r) as usize,
            Parameter::Ptr8(..) | Parameter::Ptr8Amode(..) | Parameter::Ptr8AmodeS8(..)
            | Parameter::Ptr8AmodeS16(..) => {
                let (seg, off) = self.location(p);
                mem.read_u8(seg, off) as usize
            },
            Parameter::Ptr16(..) | Parameter::Ptr16Amode(..) | Parameter::Ptr16AmodeS8(..)
            | Parameter::Ptr16AmodeS16(..) => {
                let (seg, off) = self.location(p);
                mem.read_u16(seg, off) as usize
            },
            _ => {
                let (seg, off) = self.location(p);
                mem.read_u32(seg, off) as usize
            },
        }
    }

    pub fn write_parameter_u8(&mut self, mem: &mut Memory, p: &Parameter, data: u8)
        requires
            writable8(*p),
        ensures
            final(self).state(final(mem)) == write8(old(self).state(old(mem)), *p, data),
            final(self).same_but_regs(*old(self)),
    {
        match *p {
            Parameter::Reg8(r) => self.set_r8(r, data),
            _ => {
                let (seg, off) = self.location(p);
                mem.write_u8(seg, off, data);
            },
        }
    }

    pub fn write_parameter_u16(&mut self, mem: &mut Memory, segment: Segment, p: &Parameter, data: u16)
        requires
            writable16(*p),
        ensures
            final(self).state(final(mem)) == write16(old(self).state(old(mem)), segment, *p, data),
            final(self).same_but_regs(*old(self)),
    {
        match *p {
            Parameter::Reg16(r) | Parameter::SReg16(r) => self.set_r16(r, data),
            Parameter::Imm16(imm) => {
                let seg = self.segment(segment);
                mem.write_u16(seg, imm, data);
            },
            _ => {
                let (seg, off) = self.location(p);
                mem.write_u16(seg, off, data);
            },
        }
    }

    pub fn write_parameter_u32(&mut self, mem: &mut Memory, _segment: Segment, p: &Parameter, data: u32)
        requires
            writable32(*p),
        ensures
            final(self).state(final(mem)) == write32(old(self).state(old(mem)), *p, data),
            final(self).same_but_regs(*old(self)),
    {
        match *p {
            Parameter::Reg32(r) => self.set_r32(r, data),
            _ => {
                let (seg, off) = self.location(p);
                mem.write_u32(seg, off, data);
            },
        }
    }
}

/// The flags after subtracting `src` from `dst` (`res` the wrapped
/// difference) at a width whose top bit is `top`: carry, overflow, sign,
/// zero, adjust and parity as `sub` and compare set them.
pub open spec fn flags_sub8(f: Flags, dst: usize, src: usize) -> Flags {
    let res = dst.wrapping_sub(src);
    Flags {
        carry: res & 0x100 != 0,
        overflow: (dst ^ src) & (dst ^ res) & 0x80 != 0,
        sign: res & 0x80 != 0,
        zero: res & 0xFF == 0,
        adjust: (res ^ (src ^ dst)) & 0x10 != 0,
        parity: even_parity(res as u64),
        ..f
    }
}

pub open spec fn flags_sub16(f: Flags, dst: usize, src: usize) -> Flags {
    let res = dst.wrapping_sub(src);
    Flags {
        carry: res & 0x1_0000 != 0,
        overflow: (dst ^ src) & (dst ^ res) & 0x8000 != 0,
        sign: res & 0x8000 != 0,
        zero: res & 0xFFFF == 0,
        adjust: (res ^ (src ^ dst)) & 0x10 != 0,
        parity: even_parity(res as u64),
        ..f
    }
}

pub open spec fn flags_sub32(f: Flags, dst: usize, src: usize) -> Flags {
    let res = dst.wrapping_sub(src);
    Flags {
        carry: (res as u64) & 0x1_0000_0000 != 0,
        overflow: ((dst ^ src) & (dst ^ res)) as u64 & 0x8000_0000 != 0,
        sign: (res as u64) & 0x8000_0000 != 0,
        zero: (res as u64) & 0xFFFF_FFFF == 0,
        adjust: (res ^ (src ^ dst)) & 0x10 != 0,
        parity: even_parity(res as u64),
        ..f
    }
}

/// The state after pushing the word `data`: SP moves down by two and the
/// word is stored at SS:SP.
pub open spec fn push16_state(st: State, data: u16) -> State {
    let sp = st.regs.r16(R::SP).wrapping_sub(2);
    let regs = st.regs.with_r16(R::SP, sp);
    State { regs, mem: put16(st.mem, regs.r16(R::SS), sp, data) }
}

/// The word on top of the stack.
pub open spec fn top16(st: State) -> u16 {
    word_at(st.mem, flat(st.regs.r16(R::SS), st.regs.r16(R::SP)))
}

/// The state after popping a word: SP moves up by two.
pub open spec fn pop16_state(st: State) -> State {
    State { regs: st.regs.with_r16(R::SP, st.regs.r16(R::SP).wrapping_add(2)), ..st }
}

/// The state after pushing the dword `data`: SP moves down by four.
pub open spec fn push32_state(st: State, data: u32) -> State {
    let sp = st.regs.r16(R::SP).wrapping_sub(4);
    let regs = st.regs.with_r16(R::SP, sp);
    State { regs, mem: put32(st.mem, regs.r16(R::SS), sp, data) }
}

/// The dword on top of the stack.
pub open spec fn top32(st: State) -> u32 {
    dword_at(st.mem, flat(st.regs.r16(R::SS), st.regs.r16(R::SP)))
}

/// The state after popping a dword: SP moves up by four.
pub open spec fn pop32_state(st: State) -> State {
    State { regs: st.regs.with_r16(R::SP, st.regs.r16(R::SP).wrapping_add(4)), ..st }
}

/// What popping gives back of what pushing stored: the same word, and the
/// registers as they were before the push.
pub proof fn lemma_push_pop16(st: State, data: u16)
    requires
        st.regs.wf(),
        st.mem.len() == crate::memory::MEMORY_SIZE,
    ensures
        top16(push16_state(st, data)) == data,
        pop16_state(push16_state(st, data)).regs == st.regs,
{
    let sp = st.regs.r16(R::SP).wrapping_sub(2);
    crate::cpu::register::lemma_write_read_r16(st.regs, R::SP, sp);
    let regs = st.regs.with_r16(R::SP, sp);
    assert(regs.r16(R::SS) == st.regs.r16(R::SS));
    crate::memory::lemma_write_read(st.mem, regs.r16(R::SS), sp, 0, data);
    crate::cpu::register::lemma_write_read_r16(regs, R::SP, sp.wrapping_add(2));
    assert(sp.wrapping_add(2) == st.regs.r16(R::SP));
    crate::cpu::register::lemma_overwrite_r16(st.regs, R::SP, sp, st.regs.r16(R::SP));
}

/// Pushing a word leaves the words at SS:SP and SS:SP+2 as they were.
pub proof fn lemma_push16_keeps(st: State, data: u16, k: u16)
    requires
        st.regs.wf(),
        st.mem.len() == crate::memory::MEMORY_SIZE,
        k == 0 || k == 2,
    ensures
        ({
            let a = flat(st.regs.r16(R::SS), st.regs.r16(R::SP).wrapping_add(k));
            word_at(push16_state(st, data).mem, a) == word_at(st.mem, a)
        }),
        push16_state(st, data).regs.r16(R::SS) == st.regs.r16(R::SS),
{
    let sp = st.regs.r16(R::SP).wrapping_sub(2);
    crate::cpu::register::lemma_write_read_r16(st.regs, R::SP, sp);
    let ss = st.regs.r16(R::SS);
    crate::memory::lemma_write_read(st.mem, ss, sp, 0, data);
    let a = flat(ss, st.regs.r16(R::SP).wrapping_add(k));
    assert(a != flat(ss, sp) && a != flat(ss, sp) + 1);
    assert(a + 1 != flat(ss, sp) && a + 1 != flat(ss, sp) + 1);
}

/// What popping gives back of a pushed dword: the same dword, and the
/// registers as they were before the push.
pub proof fn lemma_push_pop32(st: State, data: u32)
    requires
        st.regs.wf(),
        st.mem.len() == crate::memory::MEMORY_SIZE,
    ensures
        top32(push32_state(st, data)) == data,
        pop32_state(push32_state(st, data)).regs == st.regs,
{
    let sp = st.regs.r16(R::SP).wrapping_sub(4);
    crate::cpu::register::lemma_write_read_r16(st.regs, R::SP, sp);
    let regs = st.regs.with_r16(R::SP, sp);
    assert(regs.r16(R::SS) == st.regs.r16(R::SS));
    let m = put32(st.mem, regs.r16(R::SS), sp, data);
    let a = flat(regs.r16(R::SS), sp);
    assert(word_at(m, a) == (data % 65536) as u16);
    assert(word_at(m, a + 2) == (data / 65536) as u16);
    assert(le32((data % 65536) as u16, (data / 65536) as u16) == data);
    crate::cpu::register::lemma_write_read_r16(regs, R::SP, sp.wrapping_add(4));
    assert(sp.wrapping_add(4) == st.regs.r16(R::SP));
    crate::cpu::register::lemma_overwrite_r16(st.regs, R::SP, sp, st.regs.r16(R::SP));
}

/// The registers after `aaa` / `aas` adjust AL and AH by `p1` and `p2`.
pub open spec fn adjb_regs(regs: RegsView, p1: i8, p2: i8) -> RegsView {
    let al = regs.r8(R::AL);
    let adj = regs.flags.adjust || (al & 0xF) > 9;
    let r1 = if adj {
        let al2 = (al + p1) as u8;
        let ah2 = (regs.r8(R::AH) + p2) as u8;
        let r = regs.with_r8(R::AL, al2).with_r8(R::AH, ah2);
        RegsView { flags: Flags { adjust: true, carry: true, ..r.flags }, ..r }
    } else {
        RegsView { flags: Flags { adjust: false, carry: false, ..regs.flags }, ..regs }
    };
    r1.with_r8(R::AL, r1.r8(R::AL) & 0x0F)
}

/// The registers after `daa` / `das` adjust AL by `p1` and `p2`.
pub open spec fn adj4_regs(regs: RegsView, p1: i16, p2: i16) -> RegsView {
    let al = regs.r8(R::AL);
    let f = regs.flags;
    let big = al > 0x99 || f.carry;
    let al1 = if big { al.wrapping_add(p2 as u8) } else { al };
    let al2 = if (al & 0x0F) > 0x09 || f.adjust { al1.wrapping_add(p1 as u8) } else { al1 };
    let adjust = (al & 0x0F) > 0x09 || f.adjust;
    let r = regs.with_r8(R::AL, al2);
    RegsView {
        flags: Flags {
            carry: big,
            adjust,
            sign: al2 & 0x80 != 0,
            zero: al2 == 0,
            parity: even_parity(al2 as u64),
            ..f
        },
        ..r
    }
}

/// A mask of the lowest `v` bits.
pub open spec fn bitmask(v: nat) -> nat
    decreases v,
{
    if v == 0 {
        0
    } else {
        bitmask((v - 1) as nat) * 2 + 1
    }
}

impl CPU {
    pub fn cmp8(&mut self, dst: usize, src: usize)
        ensures
            final(self).regs@ == (RegsView { flags: flags_sub8(old(self).regs@.flags, dst, src), ..old(self).regs@ }),
            final(self).same_but_regs(*old(self)),
    {
        let res = dst.wrapping_sub(src);
        // The CF, OF, SF, ZF, AF, and PF flags are set according to the result.
        self.regs.flags.set_carry_u8(res);
        self.regs.flags.set_overflow_sub_u8(res, src, dst);
        self.regs.flags.set_sign_u8(res);
        self.regs.flags.set_zero_u8(res);
        self.regs.flags.set_adjust(res, src, dst);
        self.regs.flags.set_parity(res);
        proof {
            assert(self.regs@.gpr =~= old(self).regs@.gpr);
        }
    }

    pub fn cmp16(&mut self, dst: usize, src: usize)
        ensures
            final(self).regs@ == (RegsView { flags: flags_sub16(old(self).regs@.flags, dst, src), ..old(self).regs@ }),
            final(self).same_but_regs(*old(self)),
    {
        let res = dst.wrapping_sub(src);
        // The CF, OF, SF, ZF, AF, and PF flags are set according to the result.
        self.regs.flags.set_carry_u16(res);
        self.regs.flags.set_overflow_sub_u16(res, src, dst);
        self.regs.flags.set_sign_u16(res);
        self.regs.flags.set_zero_u16(res);
        self.regs.flags.set_adjust(res, src, dst);
        self.regs.flags.set_parity(res);
        proof {
            assert(self.regs@.gpr =~= old(self).regs@.gpr);
        }
    }

    pub fn cmp32(&mut self, dst: usize, src: usize)
        ensures
            final(self).regs@ == (RegsView { flags: flags_sub32(old(self).regs@.flags, dst, src), ..old(self).regs@ }),
            final(self).same_but_regs(*old(self)),
    {
        let res = dst.wrapping_sub(src);
        // The CF, OF, SF, ZF, AF, and PF flags are set according to the result.
        self.regs.flags.set_carry_u32(res);
        self.regs.flags.set_overflow_sub_u32(res, src, dst);
        self.regs.flags.set_sign_u32(res);
        self.regs.flags.set_zero_u32(res);
        self.regs.flags.set_adjust(res, src, dst);
        self.regs.flags.set_parity(res);
        proof {
            assert(self.regs@.gpr =~= old(self).regs@.gpr);
        }
    }

    pub fn push16(&mut self, mem: &mut Memory, data: u16)
        ensures
            final(self).state(final(mem)) == push16_state(old(self).state(old(mem)), data),
            final(self).same_but_regs(*old(self)),
    {
        let sp = self.get_r16(R::SP).wrapping_sub(2);
        self.set_r16(R::SP, sp);
        let ss = self.get_r16(R::SS);
        mem.write_u16(ss, sp, data);
    }

    pub fn push32(&mut self, mem: &mut Memory, data: u32)
        ensures
            final(self).state(final(mem)) == push32_state(old(self).state(old(mem)), data),
            final(self).same_but_regs(*old(self)),
    {
        let sp = self.get_r16(R::SP).wrapping_sub(4);
        self.set_r16(R::SP, sp);
        let ss = self.get_r16(R::SS);
        mem.write_u32(ss, sp, data);
    }

    pub fn pop16(&mut self, mem: &Memory) -> (r: u16)
        ensures
            r == top16(old(self).state(mem)),
            final(self).state(mem) == pop16_state(old(self).state(mem)),
            final(self).same_but_regs(*old(self)),
    {
        let ss = self.get_r16(R::SS);
        let sp = self.get_r16(R::SP);
        let data = mem.read_u16(ss, sp);
        let sp = sp.wrapping_add(2);
        self.set_r16(R::SP, sp);
        data
    }

    pub fn pop32(&mut self, mem: &Memory) -> (r: u32)
        ensures
            r == top32(old(self).state(mem)),
            final(self).state(mem) == pop32_state(old(self).state(mem)),
            final(self).same_but_regs(*old(self)),
    {
        let ss = self.get_r16(R::SS);
        let sp = self.get_r16(R::SP);
        let data = mem.read_u32(ss, sp);
        let sp = sp.wrapping_add(4);
        self.set_r16(R::SP, sp);
        data
    }

    /// used by aaa, aas
    pub fn adjb(&mut self, param1: i8, param2: i8)
        ensures
            final(self).regs@ == adjb_regs(old(self).regs@, param1, param2),
            final(self).same_but_regs(*old(self)),
    {
        if self.regs.flags.adjust || (self.get_r8(R::AL) & 0xf) > 9 {
            let al = (self.get_r8(R::AL) as i16 + param1 as i16) as u8;
            let ah = (self.get_r8(R::AH) as i16 + param2 as i16) as u8;
            self.set_r8(R::AL, al);
            self.set_r8(R::AH, ah);
            self.regs.flags.adjust = true;
            self.regs.flags.carry = true;
        } else {
            self.regs.flags.adjust = false;
            self.regs.flags.carry = false;
        }
        let al = self.get_r8(R::AL);
        self.set_r8(R::AL, al & 0x0F);
    }

    /// used by daa, das
    pub fn adj4(&mut self, param1: i16, param2: i16)
        requires
            -0x60 <= param1 <= 0x60,
            -0x60 <= param2 <= 0x60,
        ensures
            final(self).regs@ == adj4_regs(old(self).regs@, param1, param2),
            final(self).same_but_regs(*old(self)),
    {
        let al = self.get_r8(R::AL);
        let low = ((al & 0x0F) > 0x09) || self.regs.flags.adjust;
        let big = (al > 0x99) || self.regs.flags.carry;
        let al1: u8 = if big { al.wrapping_add(param2 as u8) } else { al };
        let al2: u8 = if low { al1.wrapping_add(param1 as u8) } else { al1 };
        let f = adj4_flags(self.regs.flags, al2, big, low);
        self.set_r8(R::AL, al2);
        self.regs.flags = f;
        proof {
            assert(self.regs@.gpr =~= adj4_regs(old(self).regs@, param1, param2).gpr);
        }
    }
}

/// The flags after `daa` / `das` leave `al` in AL.
fn adj4_flags(f: Flags, al: u8, carry: bool, adjust: bool) -> (r: Flags)
    ensures
        r == (Flags {
            carry,
            adjust,
            sign: al & 0x80 != 0,
            zero: al == 0,
            parity: even_parity(al as u64),
            ..f
        }),
{
    let mut f = f;
    f.carry = carry;
    f.adjust = adjust;
    f.sign = al & 0x80 != 0;
    f.zero = al == 0;
    f.set_parity(al as usize);
    f
}

/// A mask of the lowest `v` bits, for `v` up to 28.
pub fn count_to_bitmask(v: usize) -> (r: usize)
    requires
        v <= 28,
    ensures
        r == bitmask(v as nat),
{
    proof {
        reveal_with_fuel(bitmask, 29);
    }
    match v {
        0 => 0,
        1 => 0b1,
        2 => 0b11,
        3 => 0b111,
        4 => 0b1111,
        5 => 0b1_1111,
        6 => 0b11_1111,
        7 => 0b111_1111,
        8 => 0b1111_1111,
        9 => 0b1_1111_1111,
        10 => 0b11_1111_1111,
        11 => 0b111_1111_1111,
        12 => 0b1111_1111_1111,
        13 => 0b1_1111_1111_1111,
        14 => 0b11_1111_1111_1111,
        15 => 0b111_1111_1111_1111,
        16 => 0b1111_1111_1111_1111,
        17 => 0b1_1111_1111_1111_1111,
        18 => 0b11_1111_1111_1111_1111,
        19 => 0b111_1111_1111_1111_1111,
        20 => 0b1111_1111_1111_1111_1111,
        21 => 0b1_1111_1111_1111_1111_1111,
        22 => 0b11_1111_1111_1111_1111_1111,
        23 => 0b111_1111_1111_1111_1111_1111,
        24 => 0b1111_1111_1111_1111_1111_1111,
        25 => 0b1_1111_1111_1111_1111_1111_1111,
        26 => 0b11_1111_1111_1111_1111_1111_1111,
        27 => 0b111_1111_1111_1111_1111_1111_1111,
        _ => 0b1111_1111_1111_1111_1111_1111_1111,
    }
}

} // verus!
