use vstd::prelude::*;

verus! {

/// The FLAGS register, one field per flag.
#[derive(Copy, Clone, Debug, Default, PartialEq, Eq, Structural)]
pub struct Flags {
    pub carry: bool,        // bit 0
    pub parity: bool,       // bit 2
    pub adjust: bool,       // bit 4: auxiliary carry
    pub zero: bool,         // bit 6
    pub sign: bool,         // bit 7
    pub trap: bool,         // bit 8
    pub interrupt: bool,    // bit 9
    pub direction: bool,    // bit 10
    pub overflow: bool,     // bit 11
    pub iopl: u8,           // bits 12-13: I/O privilege level
    pub nested_task: bool,  // bit 14
}

/// `mask` when `b` holds, else 0.
pub open spec fn bit_if(b: bool, mask: u16) -> u16 {
    if b { mask } else { 0 }
}

/// The number of set bits among the lowest `n` bits of `v`.
pub open spec fn bits_set_below(v: u8, n: u8) -> nat
    decreases n,
{
    if n == 0 {
        0
    } else {
        bits_set_below(v, (n - 1) as u8) + ((v >> ((n - 1) as u8)) & 1u8) as nat
    }
}

/// x86 parity: true when the low byte of `v` has an even number of set bits.
pub open spec fn even_parity(v: u64) -> bool {
    bits_set_below((v % 256) as u8, 8) % 2 == 0
}

fn flag_bit(b: bool, mask: u16) -> (r: u16)
    ensures
        r == bit_if(b, mask),
{
    if b {
        mask
    } else {
        0
    }
}

impl Flags {
    /// The packed 16-bit FLAGS value; bit 1 always reads as set.
    pub open spec fn spec_u16(self) -> u16 {
        bit_if(self.carry, 0x0001) | 0x0002 | bit_if(self.parity, 0x0004) | bit_if(
            self.adjust,
            0x0010,
        ) | bit_if(self.zero, 0x0040) | bit_if(self.sign, 0x0080) | bit_if(self.trap, 0x0100)
            | bit_if(self.interrupt, 0x0200) | bit_if(self.direction, 0x0400) | bit_if(
            self.overflow,
            0x0800,
        ) | (((self.iopl & 3) as u16) << 12u16) | bit_if(self.nested_task, 0x4000)
    }

    /// The flags unpacked from a 16-bit FLAGS value.
    pub open spec fn spec_from_u16(v: u16) -> Flags {
        Flags {
            carry: v & 0x0001 != 0,
            parity: v & 0x0004 != 0,
            adjust: v & 0x0010 != 0,
            zero: v & 0x0040 != 0,
            sign: v & 0x0080 != 0,
            trap: v & 0x0100 != 0,
            interrupt: v & 0x0200 != 0,
            direction: v & 0x0400 != 0,
            overflow: v & 0x0800 != 0,
            iopl: ((v >> 12u16) & 3) as u8,
            nested_task: v & 0x4000 != 0,
        }
    }

    /// All flags clear.
    pub open spec fn cleared() -> Flags {
        Flags {
            carry: false,
            parity: false,
            adjust: false,
            zero: false,
            sign: false,
            trap: false,
            interrupt: false,
            direction: false,
            overflow: false,
            iopl: 0,
            nested_task: false,
        }
    }

    pub fn new() -> (r: Flags)
        ensures
            r == Flags::cleared(),
    {
        Flags {
            carry: false,
            parity: false,
            adjust: false,
            zero: false,
            sign: false,
            trap: false,
            interrupt: false,
            direction: false,
            overflow: false,
            iopl: 0,
            nested_task: false,
        }
    }

    /// packs the flags into a 16-bit FLAGS value
    pub fn u16(&self) -> (r: u16)
        ensures
            r == self.spec_u16(),
    {
        flag_bit(self.carry, 0x0001) | 0x0002 | flag_bit(self.parity, 0x0004) | flag_bit(
            self.adjust,
            0x0010,
        ) | flag_bit(self.zero, 0x0040) | flag_bit(self.sign, 0x0080) | flag_bit(self.trap, 0x0100)
            | flag_bit(self.interrupt, 0x0200) | flag_bit(self.direction, 0x0400) | flag_bit(
            self.overflow,
            0x0800,
        ) | (((self.iopl & 3) as u16) << 12u16) | flag_bit(self.nested_task, 0x4000)
    }

    /// unpacks a 16-bit FLAGS value into the flags
    pub fn set_u16(&mut self, v: u16)
        ensures
            *final(self) == Flags::spec_from_u16(v),
    {
        self.carry = v & 0x0001 != 0;
        self.parity = v & 0x0004 != 0;
        self.adjust = v & 0x0010 != 0;
        self.zero = v & 0x0040 != 0;
        self.sign = v & 0x0080 != 0;
        self.trap = v & 0x0100 != 0;
        self.interrupt = v & 0x0200 != 0;
        self.direction = v & 0x0400 != 0;
        self.overflow = v & 0x0800 != 0;
        self.iopl = ((v >> 12u16) & 3) as u8;
        self.nested_task = v & 0x4000 != 0;
    }

    pub fn set_sign_u8(&mut self, v: usize)
        ensures
            *final(self) == (Flags { sign: v & 0x80 != 0, ..*old(self) }),
    {
        self.sign = v & 0x80 != 0;
    }

    pub fn set_sign_u16(&mut self, v: usize)
        ensures
            *final(self) == (Flags { sign: v & 0x8000 != 0, ..*old(self) }),
    {
        self.sign = v & 0x8000 != 0;
    }

    pub fn set_sign_u32(&mut self, v: usize)
        ensures
            *final(self) == (Flags { sign: (v as u64) & 0x8000_0000 != 0, ..*old(self) }),
    {
        self.sign = (v as u64) & 0x8000_0000 != 0;
    }

    pub fn set_zero_u8(&mut self, v: usize)
        ensures
            *final(self) == (Flags { zero: v & 0xFF == 0, ..*old(self) }),
    {
        self.zero = v & 0xFF == 0;
    }

    pub fn set_zero_u16(&mut self, v: usize)
        ensures
            *final(self) == (Flags { zero: v & 0xFFFF == 0, ..*old(self) }),
    {
        self.zero = v & 0xFFFF == 0;
    }

    pub fn set_zero_u32(&mut self, v: usize)
        ensures
            *final(self) == (Flags { zero: (v as u64) & 0xFFFF_FFFF == 0, ..*old(self) }),
    {
        self.zero = (v as u64) & 0xFFFF_FFFF == 0;
    }

    pub fn set_carry_u8(&mut self, v: usize)
        ensures
            *final(self) == (Flags { carry: v & 0x100 != 0, ..*old(self) }),
    {
        self.carry = v & 0x100 != 0;
    }

    pub fn set_carry_u16(&mut self, v: usize)
        ensures
            *final(self) == (Flags { carry: v & 0x1_0000 != 0, ..*old(self) }),
    {
        self.carry = v & 0x1_0000 != 0;
    }

    pub fn set_carry_u32(&mut self, v: usize)
        ensures
            *final(self) == (Flags { carry: (v as u64) & 0x1_0000_0000 != 0, ..*old(self) }),
    {
        self.carry = (v as u64) & 0x1_0000_0000 != 0;
    }

    pub fn set_overflow_add_u8(&mut self, res: usize, v1: usize, v2: usize)
        ensures
            *final(self) == (Flags {
                overflow: (res ^ v1) & (res ^ v2) & 0x80 != 0,
                ..*old(self)
            }),
    {
        self.overflow = (res ^ v1) & (res ^ v2) & 0x80 != 0;
    }

    pub fn set_overflow_add_u16(&mut self, res: usize, v1: usize, v2: usize)
        ensures
            *final(self) == (Flags {
                overflow: (res ^ v1) & (res ^ v2) & 0x8000 != 0,
                ..*old(self)
            }),
    {
        self.overflow = (res ^ v1) & (res ^ v2) & 0x8000 != 0;
    }

    pub fn set_overflow_add_u32(&mut self, res: usize, v1: usize, v2: usize)
        ensures
            *final(self) == (Flags {
                overflow: ((res ^ v1) & (res ^ v2)) as u64 & 0x8000_0000 != 0,
                ..*old(self)
            }),
    {
        self.overflow = ((res ^ v1) & (res ^ v2)) as u64 & 0x8000_0000 != 0;
    }

    pub fn set_overflow_sub_u8(&mut self, res: usize, v1: usize, v2: usize)
        ensures
            *final(self) == (Flags {
                overflow: (v2 ^ v1) & (v2 ^ res) & 0x80 != 0,
                ..*old(self)
            }),
    {
        self.overflow = (v2 ^ v1) & (v2 ^ res) & 0x80 != 0;
    }

    pub fn set_overflow_sub_u16(&mut self, res: usize, v1: usize, v2: usize)
        ensures
            *final(self) == (Flags {
                overflow: (v2 ^ v1) & (v2 ^ res) & 0x8000 != 0,
                ..*old(self)
            }),
    {
        self.overflow = (v2 ^ v1) & (v2 ^ res) & 0x8000 != 0;
    }

    pub fn set_overflow_sub_u32(&mut self, res: usize, v1: usize, v2: usize)
        ensures
            *final(self) == (Flags {
                overflow: ((v2 ^ v1) & (v2 ^ res)) as u64 & 0x8000_0000 != 0,
                ..*old(self)
            }),
    {
        self.overflow = ((v2 ^ v1) & (v2 ^ res)) as u64 & 0x8000_0000 != 0;
    }

    /// sets the auxiliary carry flag from bit 4 of the carries
    pub fn set_adjust(&mut self, res: usize, v1: usize, v2: usize)
        ensures
            *final(self) == (Flags { adjust: (res ^ (v1 ^ v2)) & 0x10 != 0, ..*old(self) }),
    {
        self.adjust = (res ^ (v1 ^ v2)) & 0x10 != 0;
    }

    /// sets the parity flag from the low byte of `v`
    pub fn set_parity(&mut self, v: usize)
        ensures
            *final(self) == (Flags { parity: even_parity(v as u64), ..*old(self) }),
    {
        let b: u8 = (v % 256) as u8;
        let mut count: u8 = 0;
        let mut i: u8 = 0;
        while i < 8
            invariant
                i <= 8,
                count == bits_set_below(b, i),
                count <= i,
            decreases 8 - i,
        {
            let bit: u8 = (b >> i) & 1;
            assert(((b >> i) & 1u8) <= 1) by (bit_vector);
            count = count + bit;
            i = i + 1;
        }
        self.parity = count % 2 == 0;
    }
}

/// Packing unpacked flags gives back the FLAGS value, with bit 1 set and the
/// bits that hold no flag (3, 5 and 15) clear.
pub proof fn lemma_flags_pack_unpack(v: u16)
    ensures
        Flags::spec_from_u16(v).spec_u16() == (v & 0x7FD5) | 0x0002,
{
    let c = v & 0x0001 != 0;
    let p = v & 0x0004 != 0;
    let a = v & 0x0010 != 0;
    let z = v & 0x0040 != 0;
    let s = v & 0x0080 != 0;
    let t = v & 0x0100 != 0;
    let i = v & 0x0200 != 0;
    let d = v & 0x0400 != 0;
    let o = v & 0x0800 != 0;
    let l = ((v >> 12u16) & 3) as u8;
    let n = v & 0x4000 != 0;
    assert(bit_if(c, 0x0001) | 0x0002 | bit_if(p, 0x0004) | bit_if(a, 0x0010) | bit_if(z, 0x0040)
        | bit_if(s, 0x0080) | bit_if(t, 0x0100) | bit_if(i, 0x0200) | bit_if(d, 0x0400) | bit_if(
        o,
        0x0800,
    ) | (((l & 3) as u16) << 12u16) | bit_if(n, 0x4000) == (v & 0x7FD5) | 0x0002) by (bit_vector)
        requires
            c == (v & 0x0001 != 0),
            p == (v & 0x0004 != 0),
            a == (v & 0x0010 != 0),
            z == (v & 0x0040 != 0),
            s == (v & 0x0080 != 0),
            t == (v & 0x0100 != 0),
            i == (v & 0x0200 != 0),
            d == (v & 0x0400 != 0),
            o == (v & 0x0800 != 0),
            l == ((v >> 12u16) & 3) as u8,
            n == (v & 0x4000 != 0),
    ;
}

/// Unpacking packed flags gives back the same flags, when the I/O privilege
/// level fits its two bits.
pub proof fn lemma_flags_unpack_pack(f: Flags)
    requires
        f.iopl < 4,
    ensures
        Flags::spec_from_u16(f.spec_u16()) == f,
{
    let v = f.spec_u16();
    let c = f.carry;
    let p = f.parity;
    let a = f.adjust;
    let z = f.zero;
    let s = f.sign;
    let t = f.trap;
    let i = f.interrupt;
    let d = f.direction;
    let o = f.overflow;
    let l = f.iopl;
    let n = f.nested_task;
    assert(
        (v & 0x0001 != 0) == c && (v & 0x0004 != 0) == p && (v & 0x0010 != 0) == a && (v & 0x0040
            != 0) == z && (v & 0x0080 != 0) == s && (v & 0x0100 != 0) == t && (v & 0x0200 != 0)
            == i && (v & 0x0400 != 0) == d && (v & 0x0800 != 0) == o && ((v >> 12u16) & 3) as u8
            == l && (v & 0x4000 != 0) == n
    ) by (bit_vector)
        requires
            l < 4,
            v == bit_if(c, 0x0001) | 0x0002 | bit_if(p, 0x0004) | bit_if(a, 0x0010) | bit_if(
                z,
                0x0040,
            ) | bit_if(s, 0x0080) | bit_if(t, 0x0100) | bit_if(i, 0x0200) | bit_if(d, 0x0400)
                | bit_if(o, 0x0800) | (((l & 3) as u16) << 12u16) | bit_if(n, 0x4000),
    ;
}

} // verus!
