use vstd::prelude::*;

use crate::cpu::register::{AMode, R};
use crate::cpu::segment::Segment;

verus! {

/// An operand of an instruction.
#[derive(Copy, Clone, Debug, PartialEq, Eq, Structural)]
pub enum Parameter {
    Imm8(u8),                           // byte 0x80
    Imm16(u16),                         // word 0x8000
    Imm32(u32),                         // dword 0x8000_0000
    ImmS8(i8),                          // byte +0x3f
    Ptr8(Segment, u16),                 // byte [u16]
    Ptr16(Segment, u16),                // word [u16]
    Ptr32(Segment, u16),                // dword [u16]
    Ptr16Imm(u16, u16),                 // jmp far u16:u16
    Ptr8Amode(Segment, AMode),          // byte [amode], like "byte [bp+si]"
    Ptr8AmodeS8(Segment, AMode, i8),    // byte [amode+s8], like "byte [bp-0x20]"
    Ptr8AmodeS16(Segment, AMode, i16),  // byte [amode+s16], like "byte [bp-0x2020]"
    Ptr16Amode(Segment, AMode),         // word [amode], like "word [bx]"
    Ptr16AmodeS8(Segment, AMode, i8),   // word [amode+s8], like "word [bp-0x20]"
    Ptr16AmodeS16(Segment, AMode, i16), // word [amode+s16], like "word [bp-0x2020]"
    Ptr32Amode(Segment, AMode),         // dword [amode], like "dword [bx]"
    Ptr32AmodeS8(Segment, AMode, i8),   // dword [amode+s8], like "dword [bp-0x20]"
    Ptr32AmodeS16(Segment, AMode, i16), // dword [amode+s16], like "dword [bp-0x2020]"
    Reg8(R),                            // 8-bit general purpose register
    Reg16(R),                           // 16-bit general purpose register
    Reg32(R),                           // 32-bit general purpose register
    SReg16(R),                          // segment register
    Empty,
}

/// A set of Parameters for an Instruction
#[derive(Copy, Clone, Debug, PartialEq, Eq, Structural)]
pub struct ParameterSet {
    pub dst: Parameter,
    pub src: Parameter,
    pub src2: Parameter,
}

/// The number of parameters in a set: those before the first absent one.
pub open spec fn spec_count(p: ParameterSet) -> int {
    if p.dst is Empty {
        0
    } else if p.src is Empty {
        1
    } else if p.src2 is Empty {
        2
    } else {
        3
    }
}

impl ParameterSet {
    // returns the number of parameters
    pub fn count(&self) -> (r: usize)
        ensures
            r == spec_count(*self),
    {
        match self.dst {
            Parameter::Empty => 0,
            _ => match self.src {
                Parameter::Empty => 1,
                _ => match self.src2 {
                    Parameter::Empty => 2,
                    _ => 3,
                },
            },
        }
    }
}

impl Parameter {
    pub open spec fn spec_is_imm(self) -> bool {
        self is Imm8 || self is Imm16 || self is Imm32 || self is ImmS8
    }

    pub open spec fn spec_is_ptr(self) -> bool {
        self is Ptr8 || self is Ptr16 || self is Ptr32 || self is Ptr16Imm || self is Ptr8Amode
            || self is Ptr8AmodeS8 || self is Ptr8AmodeS16 || self is Ptr16Amode
            || self is Ptr16AmodeS8 || self is Ptr16AmodeS16 || self is Ptr32Amode
            || self is Ptr32AmodeS8 || self is Ptr32AmodeS16
    }

    pub open spec fn spec_is_reg(self) -> bool {
        self is Reg8 || self is Reg16 || self is Reg32 || self is SReg16
    }

    /// A byte-sized memory operand.
    pub open spec fn is_ptr8(self) -> bool {
        self is Ptr8 || self is Ptr8Amode || self is Ptr8AmodeS8 || self is Ptr8AmodeS16
    }

    pub fn is_imm(&self) -> (r: bool)
        ensures
            r == self.spec_is_imm(),
    {
        match *self {
            Parameter::Imm8(_) | Parameter::Imm16(_) | Parameter::Imm32(_) | Parameter::ImmS8(
                _,
            ) => true,
            _ => false,
        }
    }

    pub fn is_ptr(&self) -> (r: bool)
        ensures
            r == self.spec_is_ptr(),
    {
        match *self {
            Parameter::Ptr8(_, _)
            | Parameter::Ptr16(_, _)
            | Parameter::Ptr32(_, _)
            | Parameter::Ptr16Imm(_, _)
            | Parameter::Ptr8Amode(_, _)
            | Parameter::Ptr8AmodeS8(_, _, _)
            | Parameter::Ptr8AmodeS16(_, _, _)
            | Parameter::Ptr16Amode(_, _)
            | Parameter::Ptr16AmodeS8(_, _, _)
            | Parameter::Ptr16AmodeS16(_, _, _)
            | Parameter::Ptr32Amode(_, _)
            | Parameter::Ptr32AmodeS8(_, _, _)
            | Parameter::Ptr32AmodeS16(_, _, _) => true,
            _ => false,
        }
    }

    pub fn is_reg(&self) -> (r: bool)
        ensures
            r == self.spec_is_reg(),
    {
        match *self {
            Parameter::Reg8(_) | Parameter::Reg16(_) | Parameter::Reg32(_) | Parameter::SReg16(
                _,
            ) => true,
            _ => false,
        }
    }

    pub fn is_none(&self) -> (r: bool)
        ensures
            r == (*self is Empty),
    {
        *self == Parameter::Empty
    }
}

} // verus!
