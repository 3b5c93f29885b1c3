use vstd::prelude::*;

use crate::cpu::flag::{even_parity, Flags};
use crate::cpu::interpreter::{
    bitmask, count_to_bitmask, read_value, readable, writable16, writable32, writable8, write16,
    write32, write8, State, CPU,
};
use crate::cpu::op::Op;
use crate::cpu::parameter::ParameterSet;
use crate::cpu::register::RegsView;
use crate::cpu::segment::Segment;
use crate::memory::Memory;

verus! {

/// The shifts and rotates.
pub open spec fn is_shift(op: Op) -> bool {
    op is Rcl8 || op is Rcl16 || op is Rcr8 || op is Rcr16 || op is Rcr32 || op is Rol8
        || op is Rol16 || op is Ror8 || op is Ror16 || op is Sar8 || op is Sar16 || op is Sar32
        || op is Shl8 || op is Shl16 || op is Shl32 || op is Shr8 || op is Shr16 || op is Shr32
        || op is Shld || op is Shrd
}

/// The width in bits of the operand a shift writes.
pub open spec fn shift_width(op: Op) -> nat {
    if op is Rcl8 || op is Rcr8 || op is Rol8 || op is Ror8 || op is Sar8 || op is Shl8
        || op is Shr8 {
        8
    } else if op is Rcr32 || op is Sar32 || op is Shl32 || op is Shr32 {
        32
    } else {
        16
    }
}

/// `b` as a bit.
pub open spec fn bit(b: bool) -> u64 {
    if b { 1 } else { 0 }
}

/// Sign, zero and parity of a result, by the width of the operand.
pub open spec fn szp(f: Flags, res: u64, width: nat) -> Flags {
    if width == 8 {
        Flags { sign: res & 0x80 != 0, zero: res & 0xFF == 0, parity: even_parity(res), ..f }
    } else if width == 16 {
        Flags {
            sign: res & 0x8000 != 0,
            zero: res & 0xFFFF == 0,
            parity: even_parity(res),
            ..f
        }
    } else {
        Flags {
            sign: res & 0x8000_0000 != 0,
            zero: res & 0xFFFF_FFFF == 0,
            parity: even_parity(res),
            ..f
        }
    }
}

/// A word rotated left by `c` places.
pub open spec fn rotl16(x: u64, c: u64) -> u64 {
    let k = c % 16;
    if k == 0 {
        x
    } else {
        ((x << k) | (x >> (16 - k) as u64)) & 0xFFFF
    }
}

/// A word rotated right by `c` places.
pub open spec fn rotr16(x: u64, c: u64) -> u64 {
    let k = c % 16;
    if k == 0 {
        x
    } else {
        ((x >> k) | (x << (16 - k) as u64)) & 0xFFFF
    }
}

/// A byte rotated right by `c` places.
pub open spec fn rotr8(x: u64, c: u64) -> u64 {
    let k = c % 8;
    if k == 0 {
        x
    } else {
        ((x >> k) | (x << (8 - k) as u64)) & 0xFF
    }
}

/// What a shift or rotate computes from the flags, its operand `dst`, its
/// second operand `cnt` (the count, or the bits a double shift brings in)
/// and the third operand `src` of a double shift (its count): the new
/// flags, the value written back (`None` when nothing is written), and
/// whether a repeat prefix still takes effect afterwards.
#[verifier::opaque]
pub open spec fn shift(op: Op, f: Flags, dst: u64, cnt: u64, src: u64) -> (Flags, Option<u64>, bool) {
    let cf = bit(f.carry);
    match op {
        Op::Rcl8 => {
            let count = (cnt & 0x1F) % 9;
            if count == 0 {
                (f, None, true)
            } else {
                let op1 = dst % 0x1_0000;
                let res = (if count == 1 {
                    (op1 << 1u64) | cf
                } else {
                    (op1 << count) | (cf << (count - 1) as u64) | (op1 >> (9 - count) as u64)
                }) % 0x100;
                let carry = (op1 >> (8 - count) as u64) & 1 != 0;
                (Flags { carry, overflow: bit(carry) ^ (res >> 7u64) != 0, ..f }, Some(res), true)
            }
        },
        Op::Rcl16 => {
            let op1 = dst % 0x1_0000;
            let count = (cnt & 0x1F) % 17;
            if count == 0 {
                (f, None, true)
            } else {
                let res = (if count == 1 {
                    (op1 << 1u64) | cf
                } else if count == 16 {
                    (cf << 15u64) | (op1 >> 1u64)
                } else {
                    (op1 << count) | (cf << (count - 1) as u64) | (op1 >> (17 - count) as u64)
                }) % 0x1_0000;
                let carry = (op1 >> (16 - count) as u64) & 1 != 0;
                (Flags { carry, overflow: bit(carry) ^ (op1 >> 15u64) != 0, ..f }, Some(res), true)
            }
        },
        Op::Rcr8 => {
            let c = cnt % 0x1_0000;
            if c % 9 == 0 {
                (f, None, true)
            } else {
                let count = c % 9;
                let op1 = dst % 0x1_0000;
                let res = ((op1 >> count) | (cf << (8 - count) as u64) | (op1 << (9 - count) as u64))
                    % 0x100;
                let carry = (op1 >> (count - 1) as u64) & 1 != 0;
                (Flags { carry, overflow: (res ^ (res << 1u64)) & 0x80 != 0, ..f }, Some(res), true)
            }
        },
        Op::Rcr16 | Op::Rcr32 => {
            let count = ((cnt % 0x1_0000_0000) & 0x1F) % 17;
            if count == 0 {
                (f, None, true)
            } else {
                let res = if op is Rcr16 {
                    (dst >> count) | (cf << (16 - count) as u64) | (dst << (17 - count) as u64)
                } else {
                    (dst >> count) | (cf << (32 - count) as u64) | (dst << (33 - count) as u64)
                };
                let carry = (dst >> (count - 1) as u64) & 1 != 0;
                let overflow = ((res >> 15u64) & 1) ^ ((res >> 14u64) & 1) != 0;
                (Flags { carry, overflow, ..f }, Some(res), true)
            }
        },
        Op::Rol8 => {
            let op1 = dst % 0x100;
            if cnt & 0x7 == 0 {
                let g = if cnt & 0x18 != 0 {
                    Flags { overflow: (op1 & 1) ^ (op1 >> 7u64) != 0, carry: op1 & 1 != 0, ..f }
                } else {
                    f
                };
                (g, None, false)
            } else {
                let count = cnt & 0x7;
                let res = ((op1 << count) | (op1 >> (8 - count) as u64)) % 0x100;
                (
                    Flags { overflow: (res & 1) ^ (res >> 7u64) != 0, carry: res & 1 != 0, ..f },
                    Some(res),
                    true,
                )
            }
        },
        Op::Rol16 => {
            let count = cnt & 0x1F;
            let res = rotl16(dst % 0x1_0000, count);
            let overflow = if count == 1 {
                (res & 1) ^ ((res >> 15u64) & 1) != 0
            } else {
                f.overflow
            };
            (Flags { overflow, carry: res & 1 != 0, ..f }, Some(res), true)
        },
        Op::Ror8 => {
            let op1 = dst % 0x100;
            let count = cnt & 0x1F;
            if count & 0x7 == 0 {
                let g = if count & 0x18 != 0 {
                    Flags {
                        overflow: ((op1 >> 6u64) & 1) ^ (op1 >> 7u64) != 0,
                        carry: op1 >> 7u64 != 0,
                        ..f
                    }
                } else {
                    f
                };
                (g, None, false)
            } else {
                let res = rotr8(op1, count);
                (
                    Flags {
                        overflow: ((res >> 6u64) & 1) ^ (res >> 7u64) != 0,
                        carry: res >> 7u64 != 0,
                        ..f
                    },
                    Some(res),
                    true,
                )
            }
        },
        Op::Ror16 => {
            let count = cnt & 0x1F;
            let res = rotr16(dst % 0x1_0000, count);
            let overflow = if count == 1 {
                ((res >> 14u64) & 1) ^ ((res >> 15u64) & 1) != 0
            } else {
                f.overflow
            };
            (Flags { overflow, carry: (res >> 15u64) & 1 != 0, ..f }, Some(res), true)
        },
        Op::Sar8 => {
            let op1 = dst % 0x100;
            let c = cnt & 0x1F;
            if c == 0 {
                (f, None, true)
            } else {
                let count = if c > 8 { 8 } else { c };
                let res = if op1 & 0x80 != 0 {
                    (op1 >> count) | (0xFFu64 << (8 - count) as u64)
                } else {
                    op1 >> count
                };
                let g = Flags {
                    carry: (op1 >> (count - 1) as u64) & 1 != 0,
                    overflow: false,
                    ..f
                };
                (szp(g, res, 8), Some(res), true)
            }
        },
        Op::Sar16 | Op::Sar32 => {
            let count = cnt & 0xF;
            if count == 0 {
                (f, None, true)
            } else {
                let (top, ones, low) = if op is Sar16 {
                    (0x8000u64, 0xFFFFu64 << (16 - count) as u64, dst % 0x1_0000)
                } else {
                    (0x8000_0000u64, 0xFFFF_FFFFu64 << (32 - count) as u64, dst % 0x1_0000_0000)
                };
                let res = if dst & top != 0 {
                    (dst >> count) | ones
                } else {
                    dst >> count
                };
                let g = Flags {
                    carry: (low >> (count - 1) as u64) & 1 != 0,
                    overflow: if count == 1 { false } else { f.overflow },
                    ..f
                };
                (szp(g, res, shift_width(op)), Some(res), true)
            }
        },
        Op::Shl8 => {
            let count = cnt & 0x1F;
            let op1 = dst % 0x1_0000;
            let res = if count < 8 { (op1 << count) % 0x1_0000 } else { 0 };
            let c = if count > 8 { 0 } else { (op1 >> (8 - count) as u64) & 1 };
            let g = Flags { carry: c != 0, overflow: ((res >> 7u64) ^ c) != 0, ..f };
            (szp(g, res, 8), Some(res), true)
        },
        Op::Shl16 | Op::Shl32 => {
            let count = cnt & 0x1F;
            if count == 0 {
                (f, None, true)
            } else {
                let res = dst << count;
                let top = if op is Shl16 { 0x8000u64 } else { 0x8000_0000u64 };
                let carry = res & top != 0;
                let overflow = if count == 1 {
                    bit(carry) ^ ((res & 0x8000) >> 15u64) != 0
                } else {
                    f.overflow
                };
                (szp(Flags { carry, overflow, ..f }, res, shift_width(op)), Some(res), true)
            }
        },
        Op::Shr8 | Op::Shr16 | Op::Shr32 => {
            let count = cnt & 0x1F;
            if count == 0 {
                (f, None, true)
            } else {
                let res = dst >> count;
                let top = if op is Shr8 {
                    0x80u64
                } else if op is Shr16 {
                    0x8000u64
                } else {
                    0x8000_0000u64
                };
                let g = Flags {
                    carry: (dst >> (count - 1) as u64) & 1 != 0,
                    overflow: dst & top != 0,
                    ..f
                };
                (szp(g, res, shift_width(op)), Some(res), true)
            }
        },
        Op::Shld => {
            let count = src & 0x1F;
            if count == 0 {
                (f, None, true)
            } else {
                let op1 = dst % 0x1_0000;
                let op2 = cnt % 0x1_0000;
                let temp = (op1 << 16u64) | op2;
                let shifted = (temp << count) % 0x1_0000_0000;
                let result = if count > 16 {
                    shifted | (op1 << (count - 16) as u64)
                } else {
                    shifted
                };
                let res16 = (result >> 16u64) % 0x1_0000;
                let c = (temp >> (32 - count) as u64) & 1;
                let g = Flags {
                    carry: c != 0,
                    overflow: c ^ (res16 >> 15u64) != 0,
                    adjust: (res16 ^ (op1 ^ op2)) & 0x10 != 0,
                    ..f
                };
                (szp(g, res16, 16), Some(res16), true)
            }
        },
        _ => {
            // shrd: `dst` shifted right by `src` places, the low bits of
            // `cnt` coming in from the left
            let count = src;
            if count == 0 {
                (f, None, false)
            } else {
                let res = ((cnt & (bitmask(count as nat) as u64)) << (16 - count) as u64) | (dst
                    >> count);
                (szp(Flags { carry: dst & 1 != 0, ..f }, res, 16), Some(res), true)
            }
        },
    }
}

/// The operands of a shift can be read, and the destination written.
pub open spec fn shift_defined(op: Op, ps: ParameterSet) -> bool {
    &&& readable(ps.dst)
    &&& readable(ps.src)
    &&& (op is Shld || op is Shrd ==> readable(ps.src2))
    &&& (shift_width(op) == 8 ==> writable8(ps.dst))
    &&& (shift_width(op) == 16 ==> writable16(ps.dst))
    &&& (shift_width(op) == 32 ==> writable32(ps.dst))
}

/// The state after a shift: the flags it computes and its result written
/// back to the destination; `shrd` counts by its third operand.
pub open spec fn shift_state(st: State, op: Op, ps: ParameterSet, seg: Segment) -> State {
    let dst = read_value(st.regs, st.mem, ps.dst) as u64;
    let src = read_value(st.regs, st.mem, ps.src) as u64;
    let src2 = if op is Shld || op is Shrd {
        read_value(st.regs, st.mem, ps.src2) as u64
    } else {
        0
    };
    let (f, res, _) = shift(op, st.regs.flags, dst, src, src2);
    let s = State { regs: RegsView { flags: f, ..st.regs }, ..st };
    match res {
        None => s,
        Some(v) => if shift_width(op) == 8 {
            write8(s, ps.dst, v as u8)
        } else if shift_width(op) == 16 {
            write16(s, seg, ps.dst, v as u16)
        } else {
            write32(s, ps.dst, v as u32)
        },
    }
}

/// Whether a repeat prefix still takes effect after a shift.
pub open spec fn shift_repeats(st: State, op: Op, ps: ParameterSet) -> bool {
    let dst = read_value(st.regs, st.mem, ps.dst) as u64;
    let src = read_value(st.regs, st.mem, ps.src) as u64;
    let src2 = if op is Shld || op is Shrd {
        read_value(st.regs, st.mem, ps.src2) as u64
    } else {
        0
    };
    shift(op, st.regs.flags, dst, src, src2).2
}

/// Bounds of masked counts.
proof fn lemma_masks(x: u64)
    ensures
        x & 0x7 <= 7,
        x & 0xF <= 15,
        x & 0x1F <= 31,
        x & 0x18 <= 0x18,
{
    assert(x & 0x7 <= 7) by (bit_vector);
    assert(x & 0xF <= 15) by (bit_vector);
    assert(x & 0x1F <= 31) by (bit_vector);
    assert(x & 0x18 <= 0x18) by (bit_vector);
}

fn szp_exec(f: Flags, res: u64, width: u8) -> (r: Flags)
    requires
        width == 8 || width == 16 || width == 32,
    ensures
        r == szp(f, res, width as nat),
{
    let mut g = f;
    if width == 8 {
        g.sign = res & 0x80 != 0;
        g.zero = res & 0xFF == 0;
    } else if width == 16 {
        g.sign = res & 0x8000 != 0;
        g.zero = res & 0xFFFF == 0;
    } else {
        g.sign = res & 0x8000_0000 != 0;
        g.zero = res & 0xFFFF_FFFF == 0;
    }
    proof {
        assert((res & 0xFF) % 256 == res % 256) by (bit_vector);
        assert(res & 0xFF <= 0xFF) by (bit_vector);
    }
    let low = (res & 0xFF) as usize;
    g.set_parity(low);
    g
}

fn bit_exec(b: bool) -> (r: u64)
    ensures
        r == bit(b),
{
    if b {
        1
    } else {
        0
    }
}

#[verifier::rlimit(40)]
fn rcl_exec(op: &Op, f: Flags, dst: u64, cnt: u64) -> (r: (Flags, Option<u64>, bool))
    requires
        op is Rcl8 || op is Rcl16,
    ensures
        forall|s: u64| #[trigger] shift(*op, f, dst, cnt, s) == r,
{
    proof {
        reveal(shift);
    }
    proof {
        lemma_masks(cnt);
    }
    let cf = bit_exec(f.carry);
    let mut g = f;
    match *op {
        Op::Rcl8 => {
            // Rotate 9 bits (CF, r/m8) left
            let count = (cnt & 0x1F) % 9;
            if count == 0 {
                return (f, None, true);
            }
            let op1 = dst % 0x1_0000;
            let res = (if count == 1 {
                (op1 << 1u64) | cf
            } else {
                (op1 << count) | (cf << (count - 1)) | (op1 >> (9 - count))
            }) % 0x100;
            g.carry = (op1 >> (8 - count)) & 1 != 0;
            // For left rotates, the OF flag is set to the exclusive OR of the CF bit
            // (after the rotate) and the most-significant bit of the result.
            g.overflow = bit_exec(g.carry) ^ (res >> 7u64) != 0;
            (g, Some(res), true)
        },
        _ => {
            // Rotate 17 bits (CF, r/m16) left
            let op1 = dst % 0x1_0000;
            let count = (cnt & 0x1F) % 17;
            if count == 0 {
                return (f, None, true);
            }
            let res = (if count == 1 {
                (op1 << 1u64) | cf
            } else if count == 16 {
                (cf << 15u64) | (op1 >> 1u64)
            } else {
                (op1 << count) | (cf << (count - 1)) | (op1 >> (17 - count))
            }) % 0x1_0000;
            g.carry = (op1 >> (16 - count)) & 1 != 0;
            g.overflow = bit_exec(g.carry) ^ (op1 >> 15u64) != 0;
            (g, Some(res), true)
        },
    }
}

#[verifier::rlimit(40)]
fn rcr_exec(op: &Op, f: Flags, dst: u64, cnt: u64) -> (r: (Flags, Option<u64>, bool))
    requires
        op is Rcr8 || op is Rcr16 || op is Rcr32,
    ensures
        forall|s: u64| #[trigger] shift(*op, f, dst, cnt, s) == r,
{
    proof {
        reveal(shift);
    }
    proof {
        lemma_masks(cnt);
    }
    let cf = bit_exec(f.carry);
    let mut g = f;
    match *op {
        Op::Rcr8 => {
            // rotate 9 bits right
            let c = cnt % 0x1_0000;
            if c % 9 == 0 {
                return (f, None, true);
            }
            let count = c % 9;
            let op1 = dst % 0x1_0000;
            let res = ((op1 >> count) | (cf << (8 - count)) | (op1 << (9 - count))) % 0x100;
            g.carry = (op1 >> (count - 1)) & 1 != 0;
            // The OF flag is set to the exclusive OR of the two most-significant bits of the result.
            g.overflow = (res ^ (res << 1u64)) & 0x80 != 0;
            (g, Some(res), true)
        },
        _ => {
            let count = ((cnt % 0x1_0000_0000) & 0x1F) % 17;
            if count == 0 {
                return (f, None, true);
            }
            let res = match *op {
                Op::Rcr16 => (dst >> count) | (cf << (16 - count)) | (dst << (17 - count)),
                _ => (dst >> count) | (cf << (32 - count)) | (dst << (33 - count)),
            };
            g.carry = (dst >> (count - 1)) & 1 != 0;
            let bit15 = (res >> 15u64) & 1;
            let bit14 = (res >> 14u64) & 1;
            g.overflow = bit15 ^ bit14 != 0;
            (g, Some(res), true)
        },
    }
}

fn rol8_exec(f: Flags, dst: u64, cnt: u64) -> (r: (Flags, Option<u64>, bool))
    ensures
        forall|s: u64| #[trigger] shift(Op::Rol8, f, dst, cnt, s) == r,
{
    proof {
        reveal(shift);
    }
    proof {
        lemma_masks(cnt);
    }
    let mut g = f;
        // Rotate 8 bits of 'dst' left for 'src' times.
        let op1 = dst % 0x100;
        if cnt & 0x7 == 0 {
            if cnt & 0x18 != 0 {
                let bit0 = op1 & 1;
                let bit7 = op1 >> 7u64;
                g.overflow = bit0 ^ bit7 != 0;
                g.carry = bit0 != 0;
            }
            // no-op if count is 0
            return (g, None, false);
        }
        let count = cnt & 0x7;
        let res = ((op1 << count) | (op1 >> (8 - count))) % 0x100;
        let bit0 = res & 1;
        let bit7 = res >> 7u64;
        g.overflow = bit0 ^ bit7 != 0;
        g.carry = bit0 != 0;
        (g, Some(res), true)
}

fn rol16_exec(f: Flags, dst: u64, cnt: u64) -> (r: (Flags, Option<u64>, bool))
    ensures
        forall|s: u64| #[trigger] shift(Op::Rol16, f, dst, cnt, s) == r,
{
    proof {
        reveal(shift);
    }
    proof {
        lemma_masks(cnt);
    }
    let mut g = f;
        // Rotate 16 bits of 'dst' left for 'src' times.
        let count = cnt & 0x1F;
        let x = dst % 0x1_0000;
        let k = count % 16;
        let res = if k == 0 {
            x
        } else {
            ((x << k) | (x >> (16 - k))) & 0xFFFF
        };
        let bit0 = res & 1;
        let bit15 = (res >> 15u64) & 1;
        if count == 1 {
            g.overflow = bit0 ^ bit15 != 0;
        }
        g.carry = bit0 != 0;
        (g, Some(res), true)
}

fn ror8_exec(f: Flags, dst: u64, cnt: u64) -> (r: (Flags, Option<u64>, bool))
    ensures
        forall|s: u64| #[trigger] shift(Op::Ror8, f, dst, cnt, s) == r,
{
    proof {
        reveal(shift);
    }
    proof {
        lemma_masks(cnt);
    }
    let mut g = f;
        // Rotate 8 bits of 'dst' right for 'src' times.
        let op1 = dst % 0x100;
        let count = cnt & 0x1F;
        if count & 0x7 == 0 {
            if count & 0x18 != 0 {
                let bit6 = (op1 >> 6u64) & 1;
                let bit7 = op1 >> 7u64;
                g.overflow = bit6 ^ bit7 != 0;
                g.carry = bit7 != 0;
            }
            return (g, None, false);
        }
proof {
    assert(count & 0x7 == count % 8) by (bit_vector);
}
        let k = count % 8;
        let res = ((op1 >> k) | (op1 << (8 - k))) & 0xFF;
        let bit6 = (res >> 6u64) & 1;
        let bit7 = res >> 7u64;
        g.overflow = bit6 ^ bit7 != 0;
        g.carry = bit7 != 0;
        (g, Some(res), true)
}

fn ror16_exec(f: Flags, dst: u64, cnt: u64) -> (r: (Flags, Option<u64>, bool))
    ensures
        forall|s: u64| #[trigger] shift(Op::Ror16, f, dst, cnt, s) == r,
{
    proof {
        reveal(shift);
    }
    proof {
        lemma_masks(cnt);
    }
    let mut g = f;
        // Rotate 16 bits of 'dst' right for 'src' times.
        let count = cnt & 0x1F;
        let x = dst % 0x1_0000;
        let k = count % 16;
        let res = if k == 0 {
            x
        } else {
            ((x >> k) | (x << (16 - k))) & 0xFFFF
        };
        let bit14 = (res >> 14u64) & 1;
        let bit15 = (res >> 15u64) & 1;
        if count == 1 {
            g.overflow = bit14 ^ bit15 != 0;
        }
        g.carry = bit15 != 0;
        (g, Some(res), true)
}

#[verifier::rlimit(40)]
fn sar8_exec(f: Flags, dst: u64, cnt: u64) -> (r: (Flags, Option<u64>, bool))
    ensures
        forall|s: u64| #[trigger] shift(Op::Sar8, f, dst, cnt, s) == r,
{
    proof {
        reveal(shift);
    }
    proof {
        lemma_masks(cnt);
    }
    let mut g = f;
    {
        {
            // Signed divide r/m8 by 2, `cnt` times.
            let op1 = dst % 0x100;
            let c = cnt & 0x1F;
            if c == 0 {
                return (f, None, true);
            }
            let count = if c > 8 { 8 } else { c };
            let res = if op1 & 0x80 != 0 {
                (op1 >> count) | (0xFFu64 << (8 - count))
            } else {
                op1 >> count
            };
            g.carry = (op1 >> (count - 1)) & 1 != 0;
            g.overflow = false;
            (szp_exec(g, res, 8), Some(res), true)
        }
    }
}

#[verifier::rlimit(40)]
fn sar_exec(op: &Op, f: Flags, dst: u64, cnt: u64) -> (r: (Flags, Option<u64>, bool))
    requires
        op is Sar16 || op is Sar32,
    ensures
        forall|s: u64| #[trigger] shift(*op, f, dst, cnt, s) == r,
{
    proof {
        reveal(shift);
    }
    proof {
        lemma_masks(cnt);
    }
    let mut g = f;
    {
        {
            let count = cnt & 0xF;
            if count == 0 {
                return (f, None, true);
            }
            let (top, ones, low, width): (u64, u64, u64, u8) = match *op {
                Op::Sar16 => (0x8000, 0xFFFFu64 << (16 - count), dst % 0x1_0000, 16),
                _ => (0x8000_0000, 0xFFFF_FFFFu64 << (32 - count), dst % 0x1_0000_0000, 32),
            };
            let res = if dst & top != 0 {
                (dst >> count) | ones
            } else {
                dst >> count
            };
            g.carry = (low >> (count - 1)) & 1 != 0;
            if count == 1 {
                g.overflow = false;
            }
            (szp_exec(g, res, width), Some(res), true)
        }
    }
}

#[verifier::rlimit(40)]
fn shl8_exec(f: Flags, dst: u64, cnt: u64) -> (r: (Flags, Option<u64>, bool))
    ensures
        forall|s: u64| #[trigger] shift(Op::Shl8, f, dst, cnt, s) == r,
{
    proof {
        reveal(shift);
    }
    proof {
        lemma_masks(cnt);
    }
    let mut g = f;
    {
        {
            // Multiply `dst` by 2, `cnt` times.
            let count = cnt & 0x1F;
            let op1 = dst % 0x1_0000;
            let res = if count < 8 {
                (op1 << count) % 0x1_0000
            } else {
                0
            };
            let cf = if count > 8 {
                0
            } else {
                (op1 >> (8 - count)) & 1
            };
            g.carry = cf != 0;
            // MSB of result XOR CF
            g.overflow = ((res >> 7u64) ^ cf) != 0;
            (szp_exec(g, res, 8), Some(res), true)
        }
    }
}

#[verifier::rlimit(40)]
fn shl_exec(op: &Op, f: Flags, dst: u64, cnt: u64) -> (r: (Flags, Option<u64>, bool))
    requires
        op is Shl16 || op is Shl32,
    ensures
        forall|s: u64| #[trigger] shift(*op, f, dst, cnt, s) == r,
{
    proof {
        reveal(shift);
    }
    proof {
        lemma_masks(cnt);
    }
    let mut g = f;
    {
        {
            let count = cnt & 0x1F;
            if count == 0 {
                return (f, None, true);
            }
            let res = dst << count;
            let (top, width): (u64, u8) = match *op {
                Op::Shl16 => (0x8000, 16),
                _ => (0x8000_0000, 32),
            };
            g.carry = res & top != 0;
            if count == 1 {
                g.overflow = bit_exec(g.carry) ^ ((res & 0x8000) >> 15u64) != 0;
            }
            (szp_exec(g, res, width), Some(res), true)
        }
    }
}

fn shr_exec(op: &Op, f: Flags, dst: u64, cnt: u64) -> (r: (Flags, Option<u64>, bool))
    requires
        op is Shr8 || op is Shr16 || op is Shr32,
    ensures
        forall|s: u64| #[trigger] shift(*op, f, dst, cnt, s) == r,
{
    proof {
        reveal(shift);
    }
    proof {
        lemma_masks(cnt);
    }
    // Unsigned divide by 2, `cnt` times.
    let count = cnt & 0x1F;
    if count == 0 {
        return (f, None, true);
    }
    let res = dst >> count;
    let (top, width): (u64, u8) = match *op {
        Op::Shr8 => (0x80, 8),
        Op::Shr16 => (0x8000, 16),
        _ => (0x8000_0000, 32),
    };
    let mut g = f;
    g.carry = (dst >> (count - 1)) & 1 != 0;
    g.overflow = dst & top != 0;
    (szp_exec(g, res, width), Some(res), true)
}

#[verifier::rlimit(40)]
fn shld_exec(f: Flags, dst: u64, cnt: u64, src: u64) -> (r: (Flags, Option<u64>, bool))
    ensures
        r == shift(Op::Shld, f, dst, cnt, src),
{
    proof {
        reveal(shift);
    }
    proof {
        lemma_masks(src);
    }
    let count = src & 0x1F;
    if count == 0 {
        return (f, None, true);
    }
    let op1 = dst % 0x1_0000;
    let op2 = cnt % 0x1_0000;
    // count < 32, since only lower 5 bits used
    let temp = (op1 << 16u64) | op2;
    let shifted = (temp << count) % 0x1_0000_0000;
    // when count > 16, the bits shifted in come from op1 again
    let result = if count > 16 {
        shifted | (op1 << (count - 16))
    } else {
        shifted
    };
    let res16 = (result >> 16u64) % 0x1_0000;
    let cf = (temp >> (32 - count)) & 1;
    let mut g = f;
    g.carry = cf != 0;
    g.overflow = cf ^ (res16 >> 15u64) != 0;
    g.adjust = (res16 ^ (op1 ^ op2)) & 0x10 != 0;
    (szp_exec(g, res16, 16), Some(res16), true)
}

#[verifier::rlimit(40)]
fn shrd_exec(f: Flags, dst: u64, cnt: u64, src: u64) -> (r: (Flags, Option<u64>, bool))
    requires
        src <= 16,
    ensures
        r == shift(Op::Shrd, f, dst, cnt, src),
{
    proof {
        reveal(shift);
    }
    let count = src;
    if count == 0 {
        return (f, None, false);
    }
    // Shift `dst` to right `count` places while shifting bits from `cnt` in from the left
    let mask = count_to_bitmask(count as usize) as u64;
    let res = ((cnt & mask) << (16 - count)) | (dst >> count);
    let mut g = f;
    // the CF flag gets the lowest bit of the destination
    g.carry = (dst & 1) != 0;
    (szp_exec(g, res, 16), Some(res), true)
}

/// What a shift or rotate computes; a `shrd` count is at most 16.
pub fn shift_exec(op: &Op, f: Flags, dst: u64, cnt: u64, src: u64) -> (r: (Flags, Option<u64>, bool))
    requires
        is_shift(*op),
        op is Shrd ==> src <= 16,
    ensures
        r == shift(*op, f, dst, cnt, src),
{
    match *op {
        Op::Rcl8 | Op::Rcl16 => rcl_exec(op, f, dst, cnt),
        Op::Rcr8 | Op::Rcr16 | Op::Rcr32 => rcr_exec(op, f, dst, cnt),
        Op::Rol8 => rol8_exec(f, dst, cnt),
        Op::Rol16 => rol16_exec(f, dst, cnt),
        Op::Ror8 => ror8_exec(f, dst, cnt),
        Op::Ror16 => ror16_exec(f, dst, cnt),
        Op::Sar8 => sar8_exec(f, dst, cnt),
        Op::Sar16 | Op::Sar32 => sar_exec(op, f, dst, cnt),
        Op::Shl8 => shl8_exec(f, dst, cnt),
        Op::Shl16 | Op::Shl32 => shl_exec(op, f, dst, cnt),
        Op::Shr8 | Op::Shr16 | Op::Shr32 => shr_exec(op, f, dst, cnt),
        Op::Shld => shld_exec(f, dst, cnt, src),
        _ => shrd_exec(f, dst, cnt, src),
    }
}

/// The count of a `shrd` is at most 16; a larger one stops the processor.
pub open spec fn shift_count_ok(st: State, op: Op, ps: ParameterSet) -> bool {
    op is Shrd ==> read_value(st.regs, st.mem, ps.src2) <= 16
}

impl CPU {
    /// Executes a shift or rotate; returns whether a repeat prefix still
    /// takes effect afterwards.
    pub fn exec_shift(&mut self, mem: &mut Memory, seg: Segment, op: &Op, ps: &ParameterSet) -> (repeats: bool)
        requires
            is_shift(*op),
            shift_defined(*op, *ps),
            shift_count_ok(old(self).state(old(mem)), *op, *ps),
        ensures
            final(self).state(final(mem)) == shift_state(old(self).state(old(mem)), *op, *ps, seg),
            repeats == shift_repeats(old(self).state(old(mem)), *op, *ps),
            final(self).same_but_regs(*old(self)),
    {
        let dst = self.read_parameter_value(mem, &ps.dst) as u64;
        let src = self.read_parameter_value(mem, &ps.src) as u64;
        let src2: u64 = match *op {
            Op::Shld | Op::Shrd => self.read_parameter_value(mem, &ps.src2) as u64,
            _ => 0,
        };
        let (f, res, repeats) = shift_exec(op, self.regs.flags, dst, src, src2);
        self.set_flags(f);
        if let Some(v) = res {
            match *op {
                Op::Rcl8 | Op::Rcr8 | Op::Rol8 | Op::Ror8 | Op::Sar8 | Op::Shl8 | Op::Shr8 => {
                    self.write_parameter_u8(mem, &ps.dst, v as u8)
                },
                Op::Rcr32 | Op::Sar32 | Op::Shl32 | Op::Shr32 => self.write_parameter_u32(
                    mem,
                    seg,
                    &ps.dst,
                    v as u32,
                ),
                _ => self.write_parameter_u16(mem, seg, &ps.dst, v as u16),
            }
        }
        repeats
    }
}

} // verus!
