# dustbox

The core of a PC x86 emulator, verified with Verus: the real-mode memory,
the register file and flags, the instruction decoder and encoder (with the
proof that decoding what the encoder produced gives the instruction back),
the interpreter that executes decoded instructions, the BIOS data area and
interrupt vectors, breakpoints, and the text formats of instructions.

- `src/` is the verified library. `src/cpu/execute.rs` states what one
  instruction does to the machine (`step`); the families of operations it
  dispatches to are specified in `alu.rs`, `arith.rs`, `shift.rs`,
  `transfer.rs`, `stack.rs`, `control.rs`, `strings.rs` and `misc.rs`.
- `app/` runs the library against the outside world: port devices and the
  console, and the tools that check the emulator against `ndisasm`, `nasm`
  and real machines.
- `tests/` runs the library on concrete programs.
