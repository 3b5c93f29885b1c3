use dustbox::bios::{cursor_pos_col, cursor_pos_row, VideoModeBlock, BIOS};
use dustbox::breakpoints::Breakpoints;
use dustbox::cpu::decoder::{decodable, Decoder};
use dustbox::cpu::encoder::{EncodeError, Encoder};
use dustbox::cpu::execute::{can_execute, Outcome};
use dustbox::cpu::format::{hex_bytes, instructions_to_str, right_pad};
use dustbox::cpu::fuzzer::{
    ops_as_db_bytes, prober_reg_map, reg_str_to_index, third_column, AffectedFlags,
};
use dustbox::cpu::instruction::{Instruction, RepeatMode};
use dustbox::cpu::interpreter::{Exception, CPU};
use dustbox::cpu::op::Op;
use dustbox::cpu::parameter::Parameter;
use dustbox::cpu::register::{AMode, R};
use dustbox::cpu::segment::Segment;
use dustbox::cpu::shift::shift_exec;
use dustbox::memory::{Memory, MemoryAddress};
use dustbox::cpu::flag::Flags;

/// A processor set up as for a .com program at 085F:0100.
fn machine() -> (CPU, Memory, BIOS) {
    let mut cpu = CPU::default();
    for r in [R::CS, R::DS, R::ES, R::SS] {
        cpu.set_r16(r, 0x085F);
    }
    cpu.set_r16(R::SP, 0xFFFE);
    cpu.regs.ip = 0x100;
    (cpu, Memory::new(), BIOS::new())
}

/// Decodes and runs the instruction at CS:IP.
fn step(cpu: &mut CPU, mem: &mut Memory, bios: &mut BIOS) -> Outcome {
    let (cs, ip) = cpu.get_address_pair();
    let info = cpu.decoder.get_instruction_info(mem, cs, ip);
    let length = info.bytes.len() as u8;
    assert!(cpu.can_execute_here(mem, &info.instruction, length));
    cpu.execute(mem, bios, &info.instruction, length)
}

fn run(code: &[u8], steps: usize) -> (CPU, Memory, BIOS) {
    let (mut cpu, mut mem, mut bios) = machine();
    mem.write(0x085F, 0x100, code);
    for _ in 0..steps {
        step(&mut cpu, &mut mem, &mut bios);
    }
    (cpu, mem, bios)
}

#[test]
fn breakpoints_are_sorted_and_unique() {
    let mut bps = Breakpoints::new();
    assert_eq!(Some(0x300), bps.add(0x300));
    assert_eq!(Some(0x100), bps.add(0x100));
    assert_eq!(None, bps.add(0x300));
    assert_eq!(Some(0x200), bps.add(0x200));
    assert_eq!(vec![0x100, 0x200, 0x300], bps.get());
    assert!(bps.hit(0x200));
    assert!(!bps.hit(0x201));
}

#[test]
fn breakpoint_added_then_removed_is_gone() {
    let mut bps = Breakpoints::new();
    bps.add(0x10);
    assert_eq!(Some(0x20), bps.add(0x20));
    assert_eq!(Some(0x20), bps.remove(0x20));
    assert_eq!(None, bps.remove(0x20));
    assert_eq!(vec![0x10], bps.get());
    bps.clear();
    assert_eq!(Vec::<usize>::new(), bps.get());
}

#[test]
fn memory_reads_back_writes() {
    let mut mem = Memory::new();
    mem.write_u8(0x1000, 0x10, 0xAB);
    assert_eq!(0xAB, mem.read_u8(0x1000, 0x10));
    assert_eq!(0xAB, mem.read_u8(0x1001, 0x00));
    mem.write_u16(0x2000, 0x20, 0x1234);
    assert_eq!(0x34, mem.read_u8(0x2000, 0x20));
    assert_eq!(0x12, mem.read_u8(0x2000, 0x21));
    assert_eq!(0x1234, mem.read_u16(0x2000, 0x20));
    mem.write_u32(0x3000, 0x30, 0xDEAD_BEEF);
    assert_eq!(0xDEAD_BEEF, mem.read_u32(0x3000, 0x30));
    assert_eq!(0xBEEF, mem.read_u16(0x3000, 0x30));
    // a write goes on past the end of the segment, a read wraps within it
    mem.write(0x4000, 0xFFFE, &[1, 2, 3, 4]);
    assert_eq!(3, mem.read_u8(0x5000, 0x0000));
    assert_eq!(vec![1, 2, 0, 0], mem.read(0x4000, 0xFFFE, 4));
}

#[test]
fn memory_address_flattens() {
    assert_eq!(0x12345, MemoryAddress::RealSegmentOffset(0x1234, 0x0005).value());
    assert_eq!(0x10FFEF, MemoryAddress::RealSegmentOffset(0xFFFF, 0xFFFF).value());
}

#[test]
fn bios_init_sets_up_vectors() {
    let mut mem = Memory::new();
    let mut bios = BIOS::new();
    bios.init(&mut mem);
    // vector 0x21 points to F000:0021, where an iret waits
    assert_eq!(0x0021, mem.read_u16(0, 0x21 * 4));
    assert_eq!(0xF000, mem.read_u16(0, 0x21 * 4 + 2));
    assert_eq!(0xCF, mem.read_u8(0xF000, 0x0021));
    // configuration data table and equipment word
    assert_eq!(8, mem.read_u16(0xF000, 0xE6F5));
    assert_eq!(0xFC, mem.read_u8(0xF000, 0xE6F7));
    assert_eq!(0x0021, mem.read_u16(0xF000, 0x0410));
}

#[test]
fn bios_records_video_mode() {
    let mut mem = Memory::new();
    let mut bios = BIOS::new();
    let mode = VideoModeBlock {
        mode: 0x13,
        is_vga: true,
        twidth: 40,
        theight: 25,
        plength: 0x2000,
        cheight: 8,
        crtc_address: 0x3D4,
    };
    bios.set_video_mode(&mut mem, &mode, true);
    assert_eq!(0x13, mem.read_u8(0x40, 0x49));
    assert_eq!(40, mem.read_u16(0x40, 0x4A));
    assert_eq!(0x2000, mem.read_u16(0x40, 0x4C));
    assert_eq!(0x3D4, mem.read_u16(0x40, 0x63));
    assert_eq!(24, mem.read_u8(0x40, 0x84));
    assert_eq!(8, mem.read_u16(0x40, 0x85));
    assert_eq!(0x60, mem.read_u8(0x40, 0x87));
    assert_eq!(0x09, mem.read_u8(0x40, 0x88));
    assert_eq!(0x0B, mem.read_u8(0x40, 0x8A));
    bios.set_video_mode(&mut mem, &mode, false);
    assert_eq!(0xE0, mem.read_u8(0x40, 0x87));
}

#[test]
fn bios_sets_flags_on_the_stack() {
    let mut mem = Memory::new();
    let mut bios = BIOS::new();
    bios.flags_address = MemoryAddress::RealSegmentOffset(0x1000, 0x0100);
    mem.write_u16(0x1000, 0x0100, 0x0002);
    bios.set_flag(&mut mem, 0x0001, true);
    assert_eq!(0x0003, mem.read_u16(0x1000, 0x0100));
    bios.set_flag(&mut mem, 0x0002, false);
    assert_eq!(0x0001, mem.read_u16(0x1000, 0x0100));
}

#[test]
fn bios_reads_cursor_position() {
    let mut mem = Memory::new();
    mem.write_u8(0x40, 0x50 + 2 * 3, 17);
    mem.write_u8(0x40, 0x50 + 2 * 3 + 1, 9);
    assert_eq!(17, cursor_pos_col(&mem, 3));
    assert_eq!(9, cursor_pos_row(&mem, 3));
}

#[test]
fn hex_and_padding() {
    assert_eq!("00AB7F", hex_bytes(&[0x00, 0xAB, 0x7F]));
    assert_eq!("", hex_bytes(&[]));
    assert_eq!("ab   ", right_pad("ab", 5));
    assert_eq!("abcdef", right_pad("abcdef", 3));
}

#[test]
fn instructions_as_text() {
    let ops = vec![
        Instruction::new2(Op::Mov16, Parameter::Reg16(R::AX), Parameter::Imm16(0x1234)),
        Instruction::new1(Op::Int, Parameter::Imm8(0x21)),
    ];
    assert_eq!("Mov16    ax, 0x1234\nInt      0x21", instructions_to_str(&ops));
}

#[test]
fn encoder_reports_what_it_cannot_encode() {
    let encoder = Encoder::new();
    let op = Instruction::new(Op::Hlt);
    assert!(matches!(encoder.encode(&op), Err(EncodeError::UnhandledOp(Op::Hlt))));
    let op = Instruction::new1(Op::Int, Parameter::Imm16(0x21));
    assert!(matches!(
        encoder.encode(&op),
        Err(EncodeError::UnhandledParameter(Parameter::Imm16(0x21)))
    ));
    let op = Instruction::new2(Op::Add8, Parameter::Imm8(1), Parameter::Imm8(2));
    match encoder.encode(&op) {
        Err(EncodeError::Text(s)) => assert!(s.starts_with("unhandled param ")),
        _ => panic!("expected a text error"),
    }
}

#[test]
fn fuzzer_flag_mask() {
    let all = AffectedFlags { c: 1, p: 1, a: 1, z: 1, s: 1, o: 1 };
    assert_eq!(0x08D5, all.mask());
    let some = AffectedFlags { c: 1, p: 0, a: 0, z: 1, s: 0, o: 0 };
    assert_eq!(0x0041, some.mask());
}

#[test]
fn fuzzer_register_index() {
    assert_eq!(0, reg_str_to_index("ax"));
    assert_eq!(4, reg_str_to_index("ah"));
    assert_eq!(4, reg_str_to_index("sp"));
    assert_eq!(7, reg_str_to_index("di"));
}

#[test]
fn fuzzer_db_bytes() {
    let ops = vec![
        Instruction::new2(Op::Mov16, Parameter::Reg16(R::AX), Parameter::Imm16(0x1234)),
        Instruction::new1(Op::Int, Parameter::Imm8(0x21)),
    ];
    assert_eq!("db 0xB8,0x34,0x12,0xCD,0x21", ops_as_db_bytes(&ops));
}

#[test]
fn fuzzer_parses_prober_output() {
    let map = prober_reg_map("ax=1234\nflag=0002\n\nbx=ffff");
    assert_eq!(
        vec![("ax".to_string(), 0x1234), ("flag".to_string(), 0x0002), ("bx".to_string(), 0xFFFF)],
        map
    );
}

#[test]
fn fuzzer_third_column() {
    assert_eq!("int 0x21", third_column("00000000  CD21              int 0x21").trim());
}

#[test]
fn push_then_pop_gives_back_the_word() {
    let (mut cpu, mut mem, _) = machine();
    cpu.push16(&mut mem, 0xBEEF);
    assert_eq!(0xFFFC, cpu.get_r16(R::SP));
    assert_eq!(0xBEEF, cpu.pop16(&mem));
    assert_eq!(0xFFFE, cpu.get_r16(R::SP));
    cpu.push32(&mut mem, 0x1234_5678);
    assert_eq!(0x1234_5678, cpu.pop32(&mem));
    assert_eq!(0xFFFE, cpu.get_r16(R::SP));
}

#[test]
fn call_then_return_comes_back() {
    let code = [
        0xE8, 0x02, 0x00, // call 0x105
        0x90,             // nop
        0x90,             // nop
        0xC3,             // ret
    ];
    let (mut cpu, mut mem, mut bios) = run(&code, 1);
    assert_eq!(0x105, cpu.regs.ip);
    assert_eq!(0xFFFC, cpu.get_r16(R::SP));
    step(&mut cpu, &mut mem, &mut bios);
    assert_eq!(0x103, cpu.regs.ip);
    assert_eq!(0xFFFE, cpu.get_r16(R::SP));
}

#[test]
fn int_then_iret_comes_back() {
    let (mut cpu, mut mem, mut bios) = machine();
    bios.init(&mut mem);
    mem.write(0x085F, 0x100, &[0xCD, 0x21]); // int 0x21
    cpu.regs.flags.carry = true;
    cpu.regs.flags.interrupt = true;
    step(&mut cpu, &mut mem, &mut bios);
    assert_eq!(0xF000, cpu.get_r16(R::CS));
    assert_eq!(0x0021, cpu.regs.ip);
    assert!(!cpu.regs.flags.interrupt);
    assert_eq!(MemoryAddress::RealSegmentOffset(0x085F, 0xFFFC), bios.flags_address);
    step(&mut cpu, &mut mem, &mut bios); // the iret of the vector
    assert_eq!(0x085F, cpu.get_r16(R::CS));
    assert_eq!(0x0102, cpu.regs.ip);
    assert_eq!(0xFFFE, cpu.get_r16(R::SP));
    assert!(cpu.regs.flags.carry && cpu.regs.flags.interrupt);
    assert_eq!(MemoryAddress::Unset, bios.flags_address);
}

#[test]
fn pushf_then_popf_restores_flags() {
    let (mut cpu, mut mem, mut bios) = machine();
    mem.write(0x085F, 0x100, &[0x9C, 0xF8, 0xFD, 0x9D]); // pushf; clc; std; popf
    cpu.regs.flags.carry = true;
    let before = cpu.regs.flags;
    for _ in 0..4 {
        step(&mut cpu, &mut mem, &mut bios);
    }
    assert_eq!(before, cpu.regs.flags);
    assert_eq!(0xFFFE, cpu.get_r16(R::SP));
}

#[test]
fn execute_counts_instructions() {
    let (cpu, _, _) = run(&[0x90, 0x90, 0x90], 3);
    assert_eq!(3, cpu.instruction_count);
    assert_eq!(3, cpu.cycle_count);
    assert_eq!(0x103, cpu.regs.ip);
}

#[test]
fn rep_stosb_fills_memory() {
    let code = [
        0xB9, 0x03, 0x00, // mov cx,0x3
        0xBF, 0x00, 0x02, // mov di,0x200
        0xB0, 0x7A,       // mov al,0x7a
        0xF3, 0xAA,       // rep stosb
    ];
    let (mut cpu, mut mem, mut bios) = run(&code, 3);
    for left in [2u16, 1, 0] {
        step(&mut cpu, &mut mem, &mut bios);
        assert_eq!(left, cpu.get_r16(R::CX));
    }
    assert_eq!(0x10A, cpu.regs.ip);
    assert_eq!(0x203, cpu.get_r16(R::DI));
    assert_eq!(vec![0x7A, 0x7A, 0x7A, 0x00], mem.read(0x085F, 0x200, 4));
}

#[test]
fn division_by_zero_faults() {
    let code = [
        0xB3, 0x00, // mov bl,0x0
        0xF6, 0xF3, // div bl
    ];
    let (mut cpu, mut mem, mut bios) = run(&code, 1);
    cpu.set_r16(R::AX, 0x1234);
    assert_eq!(Outcome::Fault(Exception::DIV0), step(&mut cpu, &mut mem, &mut bios));
    assert_eq!(0x1234, cpu.get_r16(R::AX));
    assert_eq!(0x104, cpu.regs.ip);
}

#[test]
fn aam_by_zero_faults() {
    let (mut cpu, mut mem, mut bios) = run(&[0xD4, 0x00], 0);
    assert_eq!(Outcome::Fault(Exception::DIV0), step(&mut cpu, &mut mem, &mut bios));
}

#[test]
fn port_output_is_reported() {
    let code = [
        0xBA, 0xC8, 0x03, // mov dx,0x3c8
        0xB0, 0x2A,       // mov al,0x2a
        0xEE,             // out dx,al
    ];
    let (mut cpu, mut mem, mut bios) = run(&code, 2);
    assert_eq!(Outcome::PortOut8(0x3C8, 0x2A), step(&mut cpu, &mut mem, &mut bios));
}

#[test]
fn port_input_completes() {
    let code = [0xE4, 0x60]; // in al,0x60
    let (mut cpu, mut mem, mut bios) = machine();
    mem.write(0x085F, 0x100, &code);
    let (cs, ip) = cpu.get_address_pair();
    let info = cpu.decoder.get_instruction_info(&mem, cs, ip);
    let outcome = cpu.execute(&mut mem, &mut bios, &info.instruction, 2);
    assert_eq!(Outcome::PortIn8(0x60), outcome);
    cpu.complete_in(&mut mem, &info.instruction, ip, 0x1C);
    assert_eq!(0x1C, cpu.get_r8(R::AL));
    assert_eq!(0x102, cpu.regs.ip);
}

#[test]
fn unknown_operation_is_unhandled() {
    let (mut cpu, mut mem, mut bios) = machine();
    let op = Instruction::new(Op::Uninitialized);
    assert_eq!(Outcome::Unhandled, cpu.execute(&mut mem, &mut bios, &op, 1));
    assert_eq!(0x101, cpu.regs.ip);
    assert_eq!(1, cpu.instruction_count);
}

#[test]
fn operands_are_checked_before_execution() {
    // a byte move into a word register cannot run
    let bad = Instruction::new2(Op::Mov8, Parameter::Reg16(R::AX), Parameter::Imm8(1));
    assert!(!can_execute(&bad));
    let good = Instruction::new2(Op::Mov8, Parameter::Reg8(R::AL), Parameter::Imm8(1));
    assert!(can_execute(&good));
    // lds needs a 16-bit addressing mode
    let lds = Instruction::new2(
        Op::Lds,
        Parameter::Reg16(R::SI),
        Parameter::Ptr16Amode(Segment::Default, AMode::EAX),
    );
    assert!(!can_execute(&lds));
}

#[test]
fn values_are_checked_before_execution() {
    let (mut cpu, mem, _) = machine();
    // shrd by more than 16 places
    let shrd = Instruction::new3(
        Op::Shrd,
        Parameter::Reg16(R::AX),
        Parameter::Reg16(R::BX),
        Parameter::Imm8(17),
    );
    assert!(!cpu.can_execute_here(&mem, &shrd, 4));
    // the smallest dividend divided by -1
    cpu.set_r16(R::AX, 0x8000);
    cpu.set_r8(R::BL, 0xFF);
    let idiv = Instruction::new1(Op::Idiv8, Parameter::Reg8(R::BL));
    assert!(!cpu.can_execute_here(&mem, &idiv, 2));
    cpu.set_r8(R::BL, 0x02);
    assert!(cpu.can_execute_here(&mem, &idiv, 2));
}

#[test]
fn signed_division_rounds_toward_zero() {
    let code = [
        0xB8, 0xF9, 0xFF, // mov ax,-7
        0xB3, 0x02,       // mov bl,0x2
        0xF6, 0xFB,       // idiv bl
    ];
    let (cpu, _, _) = run(&code, 3);
    assert_eq!(0xFD, cpu.get_r8(R::AL)); // -3
    assert_eq!(0xFF, cpu.get_r8(R::AH)); // -1
}

#[test]
fn rotate_by_zero_skips_repeat() {
    let f = Flags::default();
    let (flags, res, repeats) = shift_exec(&Op::Rol8, f, 0x81, 8, 0);
    assert_eq!(None, res);
    assert!(!repeats);
    assert!(flags.carry && !flags.overflow);
    let (_, res, repeats) = shift_exec(&Op::Rol8, f, 0x81, 1, 0);
    assert_eq!(Some(0x03), res);
    assert!(repeats);
}

#[test]
fn jg_and_jng_group_their_conditions() {
    // jg tests (!ZF & SF) == OF: with ZF, SF and OF all set it jumps
    let mut cpu = CPU::default();
    let mut mem = Memory::new();
    let mut bios = BIOS::new();
    cpu.regs.flags.zero = true;
    cpu.regs.flags.sign = true;
    cpu.regs.flags.overflow = false;
    let jg = Instruction::new1(Op::Jg, Parameter::Imm16(0x200));
    cpu.execute(&mut mem, &mut bios, &jg, 2);
    assert_eq!(0x200, cpu.regs.ip);
    // jng tests (ZF | SF) != OF
    cpu.regs.flags.overflow = true;
    let jng = Instruction::new1(Op::Jng, Parameter::Imm16(0x300));
    cpu.execute(&mut mem, &mut bios, &jng, 2);
    assert_eq!(0x202, cpu.regs.ip);
    let _ = RepeatMode::NoRepeat;
}

#[test]
fn register_dump() {
    let mut cpu = CPU::default();
    cpu.set_r16(R::AX, 0x1234);
    cpu.regs.ip = 0x100;
    cpu.instruction_count = 42;
    cpu.regs.flags.carry = true;
    assert_eq!(
        "AX:1234  SI:0000  DS:0000  IP:0100  cnt:42\n\
         BX:0000  DI:0000  CS:0000  fl:0003\n\
         CX:0000  BP:0000  ES:0000  GS:0000\n\
         DX:0000  SP:0000  FS:0000  SS:0000\n\
         C1 Z0 S0 O0 A0 P0 D0 I0",
        cpu.print_registers()
    );
}

#[test]
fn instruction_stream_reads() {
    let (mut cpu, mut mem, _) = machine();
    mem.write(0x085F, 0x100, &[0x34, 0x12, 0xFE, 0x10, 0x00]);
    assert_eq!(0x1234, cpu.read_u16(&mem));
    assert_eq!(0x102, cpu.regs.ip);
    // a displacement of -2 from the address after it
    assert_eq!(0x101, cpu.read_rel8(&mem));
    assert_eq!(0x103, cpu.regs.ip);
    assert_eq!(0x0010, cpu.read_u16(&mem) );
    assert_eq!(0x085F, cpu.get_sr(R::CS));
    assert_eq!(MemoryAddress::RealSegmentOffset(0x085F, 0x105), cpu.get_memory_address());
    assert!(CPU::deterministic().deterministic);
}

#[test]
fn plain_instructions_move_ip_past_themselves() {
    // mov ax,0x1234 (3 bytes); add ax,bx (2 bytes); push ax (1 byte); inc word [0x200] (4 bytes)
    let code = [0xB8, 0x34, 0x12, 0x01, 0xD8, 0x50, 0xFF, 0x06, 0x00, 0x02];
    let (mut cpu, mut mem, mut bios) = machine();
    mem.write(0x085F, 0x100, &code);
    let mut expected = 0x100u16;
    for length in [3u16, 2, 1, 4] {
        step(&mut cpu, &mut mem, &mut bios);
        expected += length;
        assert_eq!(expected, cpu.regs.ip);
    }
    // at the end of the segment IP wraps around
    let (mut cpu, mut mem, mut bios) = machine();
    cpu.regs.ip = 0xFFFF;
    mem.write(0x085F, 0xFFFF, &[0x90]);
    step(&mut cpu, &mut mem, &mut bios);
    assert_eq!(0x0000, cpu.regs.ip);
}

#[test]
fn undecodable_bytes_are_reported() {
    let mut mem = Memory::new();
    let mut decoder = Decoder::default();
    // nop decodes
    mem.write(0x085F, 0x100, &[0x90]);
    assert!(decodable(&mem, 0x085F, 0x100));
    let info = decoder.get_instruction_info_checked(&mem, 0x085F, 0x100).unwrap();
    assert_eq!(Op::Nop, info.instruction.command);
    assert_eq!(vec![0x90], info.bytes);
    // mov ax, <segment register 6> names no segment register
    mem.write(0x085F, 0x200, &[0x8C, 0xF0]);
    assert!(!decodable(&mem, 0x085F, 0x200));
    assert!(decoder.get_instruction_info_checked(&mem, 0x085F, 0x200).is_none());
    // mov <segment register 7>, ax neither
    mem.write(0x085F, 0x300, &[0x8E, 0xF8]);
    assert!(!decodable(&mem, 0x085F, 0x300));
    // a 32-bit 0xC1 shift with reg field 0 is not one the decoder knows
    mem.write(0x085F, 0x400, &[0x66, 0xC1, 0xC0, 0x01]);
    assert!(!decodable(&mem, 0x085F, 0x400));
    // with reg field 4 (shl) it is
    mem.write(0x085F, 0x500, &[0x66, 0xC1, 0xE0, 0x01]);
    assert!(decodable(&mem, 0x085F, 0x500));
    let info = decoder.get_instruction_info_checked(&mem, 0x085F, 0x500).unwrap();
    assert_eq!(Op::Shl32, info.instruction.command);
    assert_eq!(4, info.bytes.len());
}

#[test]
fn com_program_is_loaded_with_dos_registers() {
    let mut cpu = CPU::default();
    let mut mem = Memory::new();
    cpu.set_r16(R::AX, 0x1234);
    cpu.load_com(&mut mem, &[0xB4, 0x4C, 0xCD, 0x21]);
    for r in [R::CS, R::DS, R::ES, R::SS, R::DX] {
        assert_eq!(0x085F, cpu.get_r16(r));
    }
    assert_eq!(0xFFFE, cpu.get_r16(R::SP));
    assert_eq!(0x091C, cpu.get_r16(R::BP));
    assert_eq!(0x00FF, cpu.get_r16(R::CX));
    assert_eq!(0x0100, cpu.get_r16(R::SI));
    assert_eq!(0xFFFE, cpu.get_r16(R::DI));
    assert_eq!(0x1234, cpu.get_r16(R::AX));
    assert_eq!(0x0100, cpu.regs.ip);
    assert_eq!(0x86F0, cpu.rom_base);
    assert_eq!(vec![0xB4, 0x4C, 0xCD, 0x21], mem.read(0x085F, 0x100, 4));
    assert_eq!(0, mem.read_u8(0x085F, 0x104));
}

#[test]
fn bios_image_is_loaded_at_f000() {
    let mut cpu = CPU::default();
    let mut mem = Memory::new();
    cpu.regs.ip = 0x1234;
    cpu.load_bios(&mut mem, &[0xEA, 0x5B, 0xE0, 0x00, 0xF0]);
    assert_eq!(0xF000, cpu.get_r16(R::CS));
    assert_eq!(0x0000, cpu.regs.ip);
    assert_eq!(0, cpu.rom_base);
    assert_eq!(vec![0xEA, 0x5B, 0xE0, 0x00, 0xF0], mem.read(0xF000, 0, 5));
}

#[test]
fn encoder_is_defined_on_its_operand_forms() {
    let encoder = Encoder::new();
    // inc / dec of a word: a register, or a pointer with an 8-bit displacement
    let op = Instruction::new1(Op::Inc16, Parameter::Reg16(R::BX));
    assert!(encoder.can_encode(&op));
    let op = Instruction::new1(Op::Inc16, Parameter::Ptr16AmodeS8(Segment::Default, AMode::BP, 0x10));
    assert!(encoder.can_encode(&op));
    assert_eq!(Ok(vec![0xFF, 0x46, 0x10]), encoder.encode(&op).map_err(|_| ()));
    // not a direct word pointer, a word pointer without or with a 16-bit displacement
    let op = Instruction::new1(Op::Inc16, Parameter::Ptr16(Segment::Default, 0x1234));
    assert!(!encoder.can_encode(&op));
    let op = Instruction::new1(Op::Dec16, Parameter::Ptr16Amode(Segment::Default, AMode::BX));
    assert!(!encoder.can_encode(&op));
    let op = Instruction::new1(Op::Dec16, Parameter::Ptr16AmodeS16(Segment::Default, AMode::BX, 0x1234));
    assert!(!encoder.can_encode(&op));
    // inc of a byte pointer
    let op = Instruction::new1(Op::Inc8, Parameter::Ptr8Amode(Segment::Default, AMode::BX));
    assert!(encoder.can_encode(&op));
    // a byte register loaded from a word pointer
    let op = Instruction::new2(Op::Mov8, Parameter::Reg8(R::AL), Parameter::Ptr16Amode(Segment::Default, AMode::BX));
    assert!(!encoder.can_encode(&op));
    // a byte shift by CL
    let op = Instruction::new2(Op::Shl8, Parameter::Reg8(R::AH), Parameter::Reg8(R::CL));
    assert!(!encoder.can_encode(&op));
    // lea takes a word pointer without displacement
    let op = Instruction::new2(Op::Lea16, Parameter::Reg16(R::DI), Parameter::Ptr16Amode(Segment::Default, AMode::BX));
    assert!(encoder.can_encode(&op));
    assert_eq!(Ok(vec![0x8D, 0x3F]), encoder.encode(&op).map_err(|_| ()));
}
