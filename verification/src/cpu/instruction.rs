use vstd::prelude::*;

use crate::cpu::decoder::{AddressSize, OperandSize};
use crate::cpu::op::{Op, OpView};
use crate::cpu::parameter::{Parameter, ParameterSet};
use crate::cpu::segment::Segment;

verus! {

/// A decoded instruction.
#[derive(Clone, Debug, PartialEq, Eq)]
pub struct Instruction {
    pub command: Op,
    pub params: ParameterSet,
    pub segment_prefix: Segment,
    pub repeat: RepeatMode,  // REPcc prefix
    pub lock: bool,  // LOCK prefix
    pub op_size: OperandSize,  // 0x66 prefix
    pub address_size: AddressSize,  // 0x67 prefix
}

/// An instruction as a mathematical value.
pub ghost struct InstructionView {
    pub command: OpView,
    pub params: ParameterSet,
    pub segment_prefix: Segment,
    pub repeat: RepeatMode,
    pub lock: bool,
    pub op_size: OperandSize,
    pub address_size: AddressSize,
}

impl View for Instruction {
    type V = InstructionView;

    open spec fn view(&self) -> InstructionView {
        InstructionView {
            command: self.command@,
            params: self.params,
            segment_prefix: self.segment_prefix,
            repeat: self.repeat,
            lock: self.lock,
            op_size: self.op_size,
            address_size: self.address_size,
        }
    }
}

/// The operand size an instruction gets from its operation alone.
pub open spec fn spec_op_size_from_op(op: Op) -> OperandSize {
    match op {
        Op::Mov32 | Op::Inc32 | Op::Dec32 => OperandSize::_32bit,
        _ => OperandSize::_16bit,
    }
}

/// The instruction that `new3` builds: no prefixes, and the operand size of
/// the operation.
pub open spec fn spec_new3(op: Op, dst: Parameter, src: Parameter, src2: Parameter) -> Instruction {
    Instruction {
        command: op,
        params: ParameterSet { dst, src, src2 },
        segment_prefix: Segment::Default,
        repeat: RepeatMode::NoRepeat,
        lock: false,
        op_size: spec_op_size_from_op(op),
        address_size: AddressSize::_16bit,
    }
}

/// Operations whose text never shows a segment prefix.
pub open spec fn spec_hide_segment_prefix(op: Op) -> bool {
    op is Add8 || op is Add16 || op is Adc8 || op is Adc16 || op is Sub8 || op is Sub16
        || op is Sbb8 || op is Sbb16 || op is Inc8 || op is Inc16 || op is Inc32 || op is Dec8
        || op is Dec16 || op is Dec32 || op is Mov8 || op is Mov16 || op is Mov32 || op is Movsx16
        || op is Movsx32
}

impl Instruction {
    pub fn new(op: Op) -> (r: Self)
        ensures
            r == spec_new3(op, Parameter::Empty, Parameter::Empty, Parameter::Empty),
    {
        Instruction::new3(op, Parameter::Empty, Parameter::Empty, Parameter::Empty)
    }

    pub fn new1(op: Op, dst: Parameter) -> (r: Self)
        ensures
            r == spec_new3(op, dst, Parameter::Empty, Parameter::Empty),
    {
        Instruction::new3(op, dst, Parameter::Empty, Parameter::Empty)
    }

    pub fn new2(op: Op, dst: Parameter, src: Parameter) -> (r: Self)
        ensures
            r == spec_new3(op, dst, src, Parameter::Empty),
    {
        Instruction::new3(op, dst, src, Parameter::Empty)
    }

    pub fn new3(op: Op, dst: Parameter, src: Parameter, src2: Parameter) -> (r: Self)
        ensures
            r == spec_new3(op, dst, src, src2),
    {
        let op_size = Instruction::op_size_from_op(&op);
        Instruction {
            command: op,
            segment_prefix: Segment::Default,
            params: ParameterSet { dst, src, src2 },
            lock: false,
            repeat: RepeatMode::NoRepeat,
            op_size,
            address_size: AddressSize::_16bit,
        }
    }

    fn op_size_from_op(op: &Op) -> (r: OperandSize)
        ensures
            r == spec_op_size_from_op(*op),
    {
        match *op {
            Op::Mov32 | Op::Inc32 | Op::Dec32 => OperandSize::_32bit,
            _ => OperandSize::_16bit,
        }
    }

    pub(crate) fn hide_segment_prefix(&self) -> (r: bool)
        ensures
            r == spec_hide_segment_prefix(self.command),
    {
        match self.command {
            Op::Add8 | Op::Add16 | Op::Adc8 | Op::Adc16 | Op::Sub8 | Op::Sub16 | Op::Sbb8
            | Op::Sbb16 | Op::Inc8 | Op::Inc16 | Op::Inc32 | Op::Dec8 | Op::Dec16 | Op::Dec32
            | Op::Mov8 | Op::Mov16 | Op::Mov32 | Op::Movsx16 | Op::Movsx32 => true,
            _ => false,
        }
    }
}

/// A decoded instruction with its location and encoding.
#[derive(Debug, PartialEq, Eq)]
pub struct InstructionInfo {
    pub segment: usize,
    pub offset: usize,
    pub bytes: Vec<u8>,
    pub instruction: Instruction,
}

/// A REPcc prefix.
#[derive(Copy, Clone, Debug, PartialEq, Eq, Structural)]
pub enum RepeatMode {
    NoRepeat,
    Rep,
    Repe,  // alias repz
    Repne,  // alias repnz
}

/// The ModR/M byte of an instruction.
#[derive(Copy, Clone, Debug)]
pub struct ModRegRm {
    pub md: u8,  // "mod" is correct name, but is reserved keyword
    pub reg: u8,
    pub rm: u8,
}

/// The ModR/M byte packed from its fields.
pub open spec fn spec_modrm_byte(md: u8, reg: u8, rm: u8) -> u8 {
    ((md << 6u8) | (reg << 3u8) | rm) as u8
}

impl ModRegRm {
    pub fn u8(&self) -> (r: u8)
        ensures
            r == spec_modrm_byte(self.md, self.reg, self.rm),
            self.md < 4 && self.reg < 8 && self.rm < 8 ==> r == self.md * 64 + self.reg * 8
                + self.rm,
    {
        let md = self.md;
        let reg = self.reg;
        let rm = self.rm;
        assert(md < 4 && reg < 8 && rm < 8 ==> ((md << 6u8) | (reg << 3u8) | rm) == md * 64 + reg
            * 8 + rm) by (bit_vector);
        (self.md << 6u8) |  // high 2 bits
        (self.reg << 3u8) |  // mid 3 bits
        self.rm  // low 3 bits
    }

    pub fn rm_reg(rm: u8, reg: u8) -> (r: u8)
        ensures
            r == spec_modrm_byte(3, reg, rm),
            reg < 8 && rm < 8 ==> r == 192 + reg * 8 + rm,
    {
        // md 3 = register adressing
        ModRegRm { md: 3, rm, reg }.u8()
    }
}

} // verus!
