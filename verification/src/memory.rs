use vstd::prelude::*;

verus! {

/// The number of bytes of memory: every real-mode address `segment:offset`,
/// and the three bytes that follow the highest one.
pub const MEMORY_SIZE: usize = 0x11_0000;

/// The flat address of a real-mode `segment:offset` pair.
pub open spec fn flat(seg: u16, off: u16) -> int {
    seg * 16 + off
}

/// The flat address of a real-mode `segment:offset` pair.
pub fn flat_address(seg: u16, off: u16) -> (r: usize)
    ensures
        r == flat(seg, off),
        r + 4 <= MEMORY_SIZE,
    no_unwind
{
    (seg as usize) * 16 + (off as usize)
}

/// Little-endian word from two bytes.
pub open spec fn le16(lo: u8, hi: u8) -> u16 {
    (lo + hi * 256) as u16
}

/// Little-endian dword from two words.
pub open spec fn le32(lo: u16, hi: u16) -> u32 {
    (lo + hi * 65536) as u32
}

/// Memory after storing the byte `v` at `seg:off`.
pub open spec fn put8(mem: Seq<u8>, seg: u16, off: u16, v: u8) -> Seq<u8> {
    mem.update(flat(seg, off), v)
}

/// Memory after storing the word `v` at `seg:off`, low byte first.
pub open spec fn put16(mem: Seq<u8>, seg: u16, off: u16, v: u16) -> Seq<u8> {
    mem.update(flat(seg, off), (v % 256) as u8).update(flat(seg, off) + 1, (v / 256) as u8)
}

/// A location in memory: none yet, or a real-mode `segment:offset` pair.
#[derive(Copy, Clone, Debug, PartialEq, Eq, Structural)]
pub enum MemoryAddress {
    Unset,
    RealSegmentOffset(u16, u16),
}

impl MemoryAddress {
    /// The flat address of a set location.
    pub fn value(&self) -> (r: usize)
        requires
            !(*self is Unset),
        ensures
            r == flat(self->RealSegmentOffset_0, self->RealSegmentOffset_1),
    {
        match *self {
            MemoryAddress::RealSegmentOffset(seg, off) => flat_address(seg, off),
            MemoryAddress::Unset => 0,
        }
    }
}

/// The addressable memory of the machine.
pub struct Memory {
    data: Vec<u8>,
}

impl View for Memory {
    type V = Seq<u8>;

    closed spec fn view(&self) -> Seq<u8> {
        if self.data@.len() == MEMORY_SIZE {
            self.data@
        } else {
            Seq::new(MEMORY_SIZE as nat, |i: int| 0u8)
        }
    }
}

/// The memory holds exactly `MEMORY_SIZE` bytes.
pub broadcast proof fn lemma_memory_len(m: &Memory)
    ensures
        #[trigger] m@.len() == MEMORY_SIZE,
{
}

/// The word stored at flat address `a`.
pub open spec fn word_at(mem: Seq<u8>, a: int) -> u16 {
    le16(mem[a], mem[a + 1])
}

/// The dword stored at flat address `a`.
pub open spec fn dword_at(mem: Seq<u8>, a: int) -> u32 {
    le32(word_at(mem, a), word_at(mem, a + 2))
}

/// What a write stores is what a read at the same place gives back, and
/// every other byte keeps its value.
pub proof fn lemma_write_read(mem: Seq<u8>, seg: u16, off: u16, b: u8, w: u16)
    requires
        mem.len() == MEMORY_SIZE,
    ensures
        put8(mem, seg, off, b)[flat(seg, off)] == b,
        word_at(put16(mem, seg, off, w), flat(seg, off)) == w,
        forall|a: int| 0 <= a < MEMORY_SIZE && a != flat(seg, off) ==> #[trigger] put8(mem, seg, off, b)[a] == mem[a],
        forall|a: int|
            0 <= a < MEMORY_SIZE && a != flat(seg, off) && a != flat(seg, off) + 1 ==> #[trigger] put16(mem, seg, off, w)[a]
                == mem[a],
{
    assert(le16((w % 256) as u8, (w / 256) as u8) == w);
}

/// The `n` bytes from `seg:off` on, the offset wrapping within the segment.
pub open spec fn segment_bytes(mem: Seq<u8>, seg: u16, off: u16, n: nat) -> Seq<u8> {
    Seq::new(n, |k: int| mem[flat(seg, ((off + k) % 65536) as u16)])
}

impl Memory {
    #[verifier::type_invariant]
    spec fn inv(self) -> bool {
        self.data@.len() == MEMORY_SIZE
    }

    /// Memory with every byte zero.
    pub fn new() -> (r: Memory)
        ensures
            r@ == Seq::new(MEMORY_SIZE as nat, |i: int| 0u8),
    {
        Memory { data: vec![0u8; MEMORY_SIZE] }
    }

    pub fn read_u8(&self, seg: u16, off: u16) -> (r: u8)
        ensures
            r == self@[flat(seg, off)],
    {
        proof { use_type_invariant(self); }
        let a = flat_address(seg, off);
        self.data[a]
    }

    pub fn read_u16(&self, seg: u16, off: u16) -> (r: u16)
        ensures
            r == word_at(self@, flat(seg, off)),
    {
        proof { use_type_invariant(self); }
        let a = flat_address(seg, off);
        let lo = self.data[a];
        let hi = self.data[a + 1];
        (lo as u16) + (hi as u16) * 256
    }

    pub fn read_u32(&self, seg: u16, off: u16) -> (r: u32)
        ensures
            r == dword_at(self@, flat(seg, off)),
    {
        proof { use_type_invariant(self); }
        let a = flat_address(seg, off);
        let b0 = self.data[a] as u32;
        let b1 = self.data[a + 1] as u32;
        let b2 = self.data[a + 2] as u32;
        let b3 = self.data[a + 3] as u32;
        (b0 + b1 * 256) + (b2 + b3 * 256) * 65536
    }

    pub fn write_u8(&mut self, seg: u16, off: u16, data: u8)
        ensures
            final(self)@ == old(self)@.update(flat(seg, off), data),
        no_unwind
    {
        proof { use_type_invariant(&*self); }
        let a = flat_address(seg, off);
        self.data[a] = data;
    }

    pub fn write_u16(&mut self, seg: u16, off: u16, data: u16)
        ensures
            final(self)@ == old(self)@.update(flat(seg, off), (data % 256) as u8).update(
                flat(seg, off) + 1,
                (data / 256) as u8,
            ),
        no_unwind
    {
        proof { use_type_invariant(&*self); }
        let a = flat_address(seg, off);
        self.data[a] = (data % 256) as u8;
        self.data[a + 1] = (data / 256) as u8;
    }

    pub fn write_u32(&mut self, seg: u16, off: u16, data: u32)
        ensures
            final(self)@ == old(self)@.update(flat(seg, off), (data % 256) as u8).update(
                flat(seg, off) + 1,
                ((data / 256) % 256) as u8,
            ).update(flat(seg, off) + 2, ((data / 65536) % 256) as u8).update(
                flat(seg, off) + 3,
                (data / 16777216) as u8,
            ),
        no_unwind
    {
        proof { use_type_invariant(&*self); }
        let a = flat_address(seg, off);
        self.data[a] = (data % 256) as u8;
        self.data[a + 1] = ((data / 256) % 256) as u8;
        self.data[a + 2] = ((data / 65536) % 256) as u8;
        self.data[a + 3] = (data / 16777216) as u8;
    }

    /// Reads `n` bytes from `seg:off` on; the offset wraps within the segment.
    pub fn read(&self, seg: u16, off: u16, n: usize) -> (r: Vec<u8>)
        ensures
            r@ == segment_bytes(self@, seg, off, n as nat),
    {
        let mut out: Vec<u8> = Vec::new();
        let mut k: usize = 0;
        let mut o: u16 = off;
        while k < n
            invariant
                k <= n,
                o == (off + k) % 65536,
                out@ == segment_bytes(self@, seg, off, k as nat),
            decreases n - k,
        {
            let b = self.read_u8(seg, o);
            proof {
                assert(segment_bytes(self@, seg, off, (k + 1) as nat) =~= segment_bytes(self@, seg, off, k as nat).push(b));
            }
            out.push(b);
            o = if o == 65535 { 0 } else { o + 1 };
            k = k + 1;
            proof {
                assert(o == (off + k) % 65536) by {
                    vstd::arithmetic::div_mod::lemma_add_mod_noop((off + k - 1) as int, 1, 65536);
                    vstd::arithmetic::div_mod::lemma_mod_twice((off + k - 1) as int, 65536);
                }
            }
        }
        out
    }

    /// Copies `bytes` to consecutive flat addresses from `seg:off` on.
    pub fn write(&mut self, seg: u16, off: u16, bytes: &[u8])
        requires
            flat(seg, off) + bytes@.len() <= MEMORY_SIZE,
        ensures
            final(self)@.len() == MEMORY_SIZE,
            forall|i: int|
                0 <= i < MEMORY_SIZE ==> #[trigger] final(self)@[i] == if flat(seg, off) <= i
                    < flat(seg, off) + bytes@.len() {
                    bytes@[i - flat(seg, off)]
                } else {
                    old(self)@[i]
                },
    {
        proof { use_type_invariant(&*self); }
        let base = flat_address(seg, off);
        let mut i: usize = 0;
        while i < bytes.len()
            invariant
                base == flat(seg, off),
                base + bytes@.len() <= MEMORY_SIZE,
                i <= bytes@.len(),
                forall|j: int|
                    0 <= j < MEMORY_SIZE ==> #[trigger] self@[j] == if base <= j < base + i {
                        bytes@[j - base]
                    } else {
                        old(self)@[j]
                    },
            decreases bytes@.len() - i,
        {
            self.set_flat(base + i, bytes[i]);
            i = i + 1;
        }
    }

    fn set_flat(&mut self, a: usize, v: u8)
        requires
            a < MEMORY_SIZE,
        ensures
            final(self)@ == old(self)@.update(a as int, v),
        no_unwind
    {
        proof { use_type_invariant(&*self); }
        self.data[a] = v;
    }
}

} // verus!
