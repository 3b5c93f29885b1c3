use vstd::prelude::*;

verus! {

/// The operation of an instruction.
#[derive(Clone, Debug, PartialEq, Eq)]
pub enum Op {
    /// ASCII Adjust After Addition
    Aaa,

    /// ASCII Adjust AX Before Division
    Aad,

    /// ASCII Adjust AX After Multiply
    Aam,

    /// ASCII Adjust AL After Subtraction
    Aas,

    Adc8,
    Adc16,
    Add8,
    Add16,
    Add32,
    And8,
    And16,

    /// Adjust RPL Field of Segment Selector
    Arpl,

    /// Check Array Index Against Bounds
    Bound,

    /// Bit Scan Forward
    Bsf,

    /// Bit Test
    Bt,

    Bts,
    CallFar,
    CallNear,

    /// Convert Byte to Word
    Cbw,

    /// Clear Carry Flag
    Clc,

    /// Clear Direction Flag
    Cld,

    /// Clear Interrupt Flag
    Cli,

    /// Complement Carry Flag
    Cmc,

    Cmp8,
    Cmp16,
    Cmp32,
    Cmpsb,
    Cmpsw,

    /// Convert Word to Doubleword
    Cwd16,

    /// Convert Word to Doubleword
    Cwde32,

    /// Decimal Adjust AL after Addition
    Daa,

    /// Decimal Adjust AL after Subtraction
    Das,

    Dec8,
    Dec16,
    Dec32,
    Div8,
    Div16,
    Div32,
    Enter,
    Hlt,
    Idiv8,
    Idiv16,
    Idiv32,
    Imul8,
    Imul16,
    Imul32,

    /// Input from Port
    In8,

    /// Input from Port
    In16,

    Inc8,
    Inc16,
    Inc32,

    /// Input from Port to String
    Insb,
    Insw,

    Int,
    Into,
    Iret,

    /// Jump if above (CF=0 and ZF=0).    (alias: jnbe)
    Ja,

    /// Jump if carry (CF=1).    (alias: jb, jnae)
    Jc,

    /// Jump if CX register is 0.
    Jcxz,

    /// Jump if greater (ZF=0 and SF=OF).    (alias: jnle)
    Jg,

    /// Jump if less (SF ≠ OF).    (alias: jnge)
    Jl,

    JmpFar,
    JmpNear,
    JmpShort,

    /// Jump if not above (CF=1 or ZF=1).    (alias: jbe)
    Jna,

    /// Jump if not carry (CF=0).    (alias: jae, jnb)
    Jnc,

    /// Jump if not greater (ZF=1 or SF ≠ OF).    (alias: jle)
    Jng,

    /// Jump if not less (SF=OF).    (alias: jge)
    Jnl,

    /// Jump if not overflow (OF=0).
    Jno,

    /// Jump if not sign (SF=0).
    Jns,

    /// Jump if not zero (ZF=0).    (alias: jne)
    Jnz,

    /// Jump if overflow (OF=1).
    Jo,

    /// Jump short if parity even (PF=1)
    Jpe,

    /// Jump short if parity odd (PF=0).
    Jpo,

    /// Jump if sign (SF=1).
    Js,

    /// Jump if zero (ZF ← 1).    (alias: je)
    Jz,

    /// Load Status Flags into AH Register
    Lahf,

    Lds,

    /// Load Effective Address
    Lea16,
    Leave,
    Les,
    Lodsb,
    Lodsw,
    Lodsd,
    Loop,
    Loope,
    Loopne,
    Mov8,
    Mov16,
    Mov32,
    Movsb,
    Movsw,
    Movsd,

    /// Move with Sign-Extension
    Movsx16,

    /// Move with Sign-Extension
    Movsx32,

    /// Move with Zero-Extend
    Movzx16,

    /// Move with Zero-Extend
    Movzx32,
    Mul8,
    Mul16,
    Mul32,
    Neg8,
    Neg16,
    Neg32,
    Nop,
    Not8,
    Not16,
    Or8,
    Or16,
    Out8,
    Out16,
    Outsb,
    Outsw,
    Pop16,
    Pop32,

    /// Pop DI, SI, BP, BX, DX, CX, and AX.
    Popa16,

    /// Pop EDI, ESI, EBP, EBX, EDX, ECX, and EAX.
    Popad32,

    /// Pop top of stack into lower 16 bits of EFLAGS.
    Popf,

    Push16,
    Push32,

    /// Push AX, CX, DX, BX, original SP, BP, SI, and DI.
    Pusha16,

    /// Push EAX, ECX, EDX, EBX, original ESP, EBP, ESI, and EDI.
    Pushad32,

    /// push 16 bit FLAGS register onto stack
    Pushf,

    Rcl8,
    Rcl16,
    Rcr8,
    Rcr16,
    Rcr32,
    Retf,
    Retn,
    RetImm16,
    Rol8,
    Rol16,
    Ror8,
    Ror16,

    /// Store AH into Flags
    Sahf,

    /// "salc", or "setalc" is a undocumented Intel instruction
    /// http://ref.x86asm.net/coder32.html#gen_note_u_SALC_D6
    /// http://www.rcollins.org/secrets/opcodes/SALC.html
    /// used by dos-software-decoding/demo-256/luminous/luminous.com
    Salc,

    Sar8,
    Sar16,
    Sar32,

    /// Integer Subtraction with Borrow
    Sbb8,
    /// Integer Subtraction with Borrow
    Sbb16,

    Scasb,
    Scasw,

    /// setc: Set byte if carry (CF=1).
    /// setb (alias): Set byte if below (CF=1).
    Setc,

    /// setnz: Set byte if not zero (ZF=0).
    /// setne (alias): Set byte if not equal (ZF=0).
    Setnz,

    Shl8,
    Shl16,
    Shl32,

    /// Double Precision Shift Left
    Shld,

    Shr8,
    Shr16,
    Shr32,

    /// Double Precision Shift Right
    Shrd,

    Sldt,

    // Set Carry Flag
    Stc,

    /// Set Direction Flag
    Std,

    /// Set Interrupt Flag
    Sti,

    Stosb,
    Stosw,
    Stosd,
    Sub8,
    Sub16,
    Sub32,
    Test8,
    Test16,

    /// Exchange Register/Memory with Register
    Xchg8,
    Xchg16,
    Xchg32,

    Xlatb,

    Xor8,
    Xor16,
    Xor32,

    Uninitialized,
    Invalid(Vec<u8>, Invalid),
}

/// The class of instruction decode error that occured.
#[derive(Copy, Clone, Debug, PartialEq, Eq, Structural)]
pub enum Invalid {
    /// a reg value was unhandled / invalid
    Reg(u8),

    /// unimplemented / invalid CPU instr
    Op,

    /// unimplemented / invalid FPU instr
    FPUOp,
}

/// An operation as a mathematical value: the bytes of an invalid encoding
/// are seen as a sequence.
pub ghost enum OpView {
    Valid(Op),
    Invalid(Seq<u8>, Invalid),
}

impl View for Op {
    type V = OpView;

    open spec fn view(&self) -> OpView {
        match self {
            Op::Invalid(bytes, kind) => OpView::Invalid(bytes@, *kind),
            _ => OpView::Valid(*self),
        }
    }
}

/// The math group index (ModR/M reg field) of the operations encoded under 0xF6.
pub open spec fn spec_f6_index(op: Op) -> int {
    match op {
        Op::Test8 => 0,
        Op::Not8 => 2,
        Op::Neg8 => 3,
        Op::Mul8 => 4,
        Op::Imul8 => 5,
        Op::Div8 => 6,
        _ => 7,
    }
}

/// The group index (ModR/M reg field) of the operations encoded under 0xFE / 0xFF.
pub open spec fn spec_feff_index(op: Op) -> int {
    match op {
        Op::Inc8 | Op::Inc16 | Op::Inc32 => 0,
        Op::Dec8 | Op::Dec16 | Op::Dec32 => 1,
        Op::CallNear => 2,
        Op::JmpNear => 4,
        _ => 6,
    }
}

impl Op {
    pub open spec fn spec_is_valid(&self) -> bool {
        !(self is Uninitialized || self is Invalid)
    }

    pub open spec fn has_f6_index(&self) -> bool {
        self is Test8 || self is Not8 || self is Neg8 || self is Mul8 || self is Imul8
            || self is Div8 || self is Idiv8
    }

    pub open spec fn has_feff_index(&self) -> bool {
        self is Inc8 || self is Inc16 || self is Inc32 || self is Dec8 || self is Dec16
            || self is Dec32 || self is CallNear || self is JmpNear || self is Push16
    }

    pub fn is_valid(&self) -> (r: bool)
        ensures
            r == self.spec_is_valid(),
    {
        match *self {
            Op::Uninitialized | Op::Invalid(_, _) => false,
            _ => true,
        }
    }

    /// used by encoder
    pub fn f6_index(&self) -> (r: u8)
        requires
            self.has_f6_index(),
        ensures
            r == spec_f6_index(*self),
    {
        match *self {
            Op::Test8 => 0,
            Op::Not8 => 2,
            Op::Neg8 => 3,
            Op::Mul8 => 4,
            Op::Imul8 => 5,
            Op::Div8 => 6,
            _ => 7,
        }
    }

    /// used by encoder
    pub fn feff_index(&self) -> (r: u8)
        requires
            self.has_feff_index(),
        ensures
            r == spec_feff_index(*self),
    {
        match *self {
            Op::Inc8 | Op::Inc16 | Op::Inc32 => 0,
            Op::Dec8 | Op::Dec16 | Op::Dec32 => 1,
            Op::CallNear => 2,
            // 3 => call far
            Op::JmpNear => 4,
            // 5 => jmp far
            _ => 6,
        }
    }

    /// A copy of the operation with the same mathematical value.
    pub fn duplicate(&self) -> (r: Op)
        ensures
            r@ == self@,
    {
        match self {
            Op::Invalid(bytes, kind) => Op::Invalid(bytes.clone(), *kind),
            _ => self.clone_valid(),
        }
    }

    fn clone_valid(&self) -> (r: Op)
        requires
            !(*self is Invalid),
        ensures
            r == *self,
    {
        match self {
            Op::Aaa => Op::Aaa,
            Op::Aad => Op::Aad,
            Op::Aam => Op::Aam,
            Op::Aas => Op::Aas,
            Op::Adc8 => Op::Adc8,
            Op::Adc16 => Op::Adc16,
            Op::Add8 => Op::Add8,
            Op::Add16 => Op::Add16,
            Op::Add32 => Op::Add32,
            Op::And8 => Op::And8,
            Op::And16 => Op::And16,
            Op::Arpl => Op::Arpl,
            Op::Bound => Op::Bound,
            Op::Bsf => Op::Bsf,
            Op::Bt => Op::Bt,
            Op::Bts => Op::Bts,
            Op::CallFar => Op::CallFar,
            Op::CallNear => Op::CallNear,
            Op::Cbw => Op::Cbw,
            Op::Clc => Op::Clc,
            Op::Cld => Op::Cld,
            Op::Cli => Op::Cli,
            Op::Cmc => Op::Cmc,
            Op::Cmp8 => Op::Cmp8,
            Op::Cmp16 => Op::Cmp16,
            Op::Cmp32 => Op::Cmp32,
            Op::Cmpsb => Op::Cmpsb,
            Op::Cmpsw => Op::Cmpsw,
            Op::Cwd16 => Op::Cwd16,
            Op::Cwde32 => Op::Cwde32,
            Op::Daa => Op::Daa,
            Op::Das => Op::Das,
            Op::Dec8 => Op::Dec8,
            Op::Dec16 => Op::Dec16,
            Op::Dec32 => Op::Dec32,
            Op::Div8 => Op::Div8,
            Op::Div16 => Op::Div16,
            Op::Div32 => Op::Div32,
            Op::Enter => Op::Enter,
            Op::Hlt => Op::Hlt,
            Op::Idiv8 => Op::Idiv8,
            Op::Idiv16 => Op::Idiv16,
            Op::Idiv32 => Op::Idiv32,
            Op::Imul8 => Op::Imul8,
            Op::Imul16 => Op::Imul16,
            Op::Imul32 => Op::Imul32,
            Op::In8 => Op::In8,
            Op::In16 => Op::In16,
            Op::Inc8 => Op::Inc8,
            Op::Inc16 => Op::Inc16,
            Op::Inc32 => Op::Inc32,
            Op::Insb => Op::Insb,
            Op::Insw => Op::Insw,
            Op::Int => Op::Int,
            Op::Into => Op::Into,
            Op::Iret => Op::Iret,
            Op::Ja => Op::Ja,
            Op::Jc => Op::Jc,
            Op::Jcxz => Op::Jcxz,
            Op::Jg => Op::Jg,
            Op::Jl => Op::Jl,
            Op::JmpFar => Op::JmpFar,
            Op::JmpNear => Op::JmpNear,
            Op::JmpShort => Op::JmpShort,
            Op::Jna => Op::Jna,
            Op::Jnc => Op::Jnc,
            Op::Jng => Op::Jng,
            Op::Jnl => Op::Jnl,
            Op::Jno => Op::Jno,
            Op::Jns => Op::Jns,
            Op::Jnz => Op::Jnz,
            Op::Jo => Op::Jo,
            Op::Jpe => Op::Jpe,
            Op::Jpo => Op::Jpo,
            Op::Js => Op::Js,
            Op::Jz => Op::Jz,
            Op::Lahf => Op::Lahf,
            Op::Lds => Op::Lds,
            Op::Lea16 => Op::Lea16,
            Op::Leave => Op::Leave,
            Op::Les => Op::Les,
            Op::Lodsb => Op::Lodsb,
            Op::Lodsw => Op::Lodsw,
            Op::Lodsd => Op::Lodsd,
            Op::Loop => Op::Loop,
            Op::Loope => Op::Loope,
            Op::Loopne => Op::Loopne,
            Op::Mov8 => Op::Mov8,
            Op::Mov16 => Op::Mov16,
            Op::Mov32 => Op::Mov32,
            Op::Movsb => Op::Movsb,
            Op::Movsw => Op::Movsw,
            Op::Movsd => Op::Movsd,
            Op::Movsx16 => Op::Movsx16,
            Op::Movsx32 => Op::Movsx32,
            Op::Movzx16 => Op::Movzx16,
            Op::Movzx32 => Op::Movzx32,
            Op::Mul8 => Op::Mul8,
            Op::Mul16 => Op::Mul16,
            Op::Mul32 => Op::Mul32,
            Op::Neg8 => Op::Neg8,
            Op::Neg16 => Op::Neg16,
            Op::Neg32 => Op::Neg32,
            Op::Nop => Op::Nop,
            Op::Not8 => Op::Not8,
            Op::Not16 => Op::Not16,
            Op::Or8 => Op::Or8,
            Op::Or16 => Op::Or16,
            Op::Out8 => Op::Out8,
            Op::Out16 => Op::Out16,
            Op::Outsb => Op::Outsb,
            Op::Outsw => Op::Outsw,
            Op::Pop16 => Op::Pop16,
            Op::Pop32 => Op::Pop32,
            Op::Popa16 => Op::Popa16,
            Op::Popad32 => Op::Popad32,
            Op::Popf => Op::Popf,
            Op::Push16 => Op::Push16,
            Op::Push32 => Op::Push32,
            Op::Pusha16 => Op::Pusha16,
            Op::Pushad32 => Op::Pushad32,
            Op::Pushf => Op::Pushf,
            Op::Rcl8 => Op::Rcl8,
            Op::Rcl16 => Op::Rcl16,
            Op::Rcr8 => Op::Rcr8,
            Op::Rcr16 => Op::Rcr16,
            Op::Rcr32 => Op::Rcr32,
            Op::Retf => Op::Retf,
            Op::Retn => Op::Retn,
            Op::RetImm16 => Op::RetImm16,
            Op::Rol8 => Op::Rol8,
            Op::Rol16 => Op::Rol16,
            Op::Ror8 => Op::Ror8,
            Op::Ror16 => Op::Ror16,
            Op::Sahf => Op::Sahf,
            Op::Salc => Op::Salc,
            Op::Sar8 => Op::Sar8,
            Op::Sar16 => Op::Sar16,
            Op::Sar32 => Op::Sar32,
            Op::Sbb8 => Op::Sbb8,
            Op::Sbb16 => Op::Sbb16,
            Op::Scasb => Op::Scasb,
            Op::Scasw => Op::Scasw,
            Op::Setc => Op::Setc,
            Op::Setnz => Op::Setnz,
            Op::Shl8 => Op::Shl8,
            Op::Shl16 => Op::Shl16,
            Op::Shl32 => Op::Shl32,
            Op::Shld => Op::Shld,
            Op::Shr8 => Op::Shr8,
            Op::Shr16 => Op::Shr16,
            Op::Shr32 => Op::Shr32,
            Op::Shrd => Op::Shrd,
            Op::Sldt => Op::Sldt,
            Op::Stc => Op::Stc,
            Op::Std => Op::Std,
            Op::Sti => Op::Sti,
            Op::Stosb => Op::Stosb,
            Op::Stosw => Op::Stosw,
            Op::Stosd => Op::Stosd,
            Op::Sub8 => Op::Sub8,
            Op::Sub16 => Op::Sub16,
            Op::Sub32 => Op::Sub32,
            Op::Test8 => Op::Test8,
            Op::Test16 => Op::Test16,
            Op::Xchg8 => Op::Xchg8,
            Op::Xchg16 => Op::Xchg16,
            Op::Xchg32 => Op::Xchg32,
            Op::Xlatb => Op::Xlatb,
            Op::Xor8 => Op::Xor8,
            Op::Xor16 => Op::Xor16,
            Op::Xor32 => Op::Xor32,
            Op::Uninitialized => Op::Uninitialized,
            Op::Invalid(_, _) => Op::Uninitialized,
        }
    }
}

} // verus!
