use vstd::prelude::*;

use crate::memory::{flat, put16, put8, word_at, Memory, MemoryAddress};

verus! {

/// The BIOS data segment, 256 bytes at 0x00400..=0x004FF.
pub const DATA_SEG: u16 = 0x0040;

pub const DATA_INITIAL_MODE: u16 = 0x0010;
pub const DATA_CURRENT_MODE: u16 = 0x0049;
pub const DATA_NB_COLS: u16 = 0x004A;
pub const DATA_PAGE_SIZE: u16 = 0x004C;
pub const DATA_CURRENT_START: u16 = 0x004E;
pub const DATA_CURSOR_POS: u16 = 0x0050;
pub const DATA_CURSOR_TYPE: u16 = 0x0060;
pub const DATA_CURRENT_PAGE: u16 = 0x0062;
pub const DATA_CRTC_ADDRESS: u16 = 0x0063;
pub const DATA_CURRENT_MSR: u16 = 0x0065;
pub const DATA_CURRENT_PAL: u16 = 0x0066;
pub const DATA_NB_ROWS: u16 = 0x0084;
pub const DATA_CHAR_HEIGHT: u16 = 0x0085;
pub const DATA_VIDEO_CTL: u16 = 0x0087;
pub const DATA_SWITCHES: u16 = 0x0088;
pub const DATA_MODESET_CTL: u16 = 0x0089;
pub const DATA_DCC_INDEX: u16 = 0x008A;
pub const DATA_CRTCPU_PAGE: u16 = 0x008A;
pub const DATA_VS_POINTER: u16 = 0x00A8;

/// The BIOS ROM segment, 64k at 0xF0000..=0xFFFFF.
pub const ROM_SEG: u16 = 0xF000;
pub const ROM_EQUIPMENT_WORD: u16 = 0x0410;

/// The opcode of `iret`, the handler every interrupt vector starts with.
pub const IRET: u8 = 0xCF;

/// The properties of a video mode that the BIOS data area records.
#[derive(Copy, Clone, Debug)]
pub struct VideoModeBlock {
    pub mode: u16,
    pub is_vga: bool,
    pub twidth: u16,
    pub theight: u16,
    pub plength: u16,
    pub cheight: u16,
    pub crtc_address: u16,
}

/// The BIOS: its data area and interrupt vectors.
#[derive(Clone)]
pub struct BIOS {
    /// where the FLAGS register lies on the stack while in an interrupt
    pub flags_address: MemoryAddress,
}

/// The mode number the data area records for a video mode.
pub open spec fn recorded_mode(mode: u16) -> u8 {
    if mode < 128 {
        mode as u8
    } else {
        (mode - 0x98) as u8
    }
}

/// The data area after recording the video mode `m`.
pub open spec fn video_mode_written(mem: Seq<u8>, m: VideoModeBlock, clear_mem: bool) -> Seq<u8> {
    let m1 = put8(mem, DATA_SEG, DATA_CURRENT_MODE, recorded_mode(m.mode));
    let m2 = put16(m1, DATA_SEG, DATA_NB_COLS, m.twidth);
    let m3 = put16(m2, DATA_SEG, DATA_PAGE_SIZE, m.plength);
    let m4 = put16(m3, DATA_SEG, DATA_CRTC_ADDRESS, m.crtc_address);
    let m5 = put8(m4, DATA_SEG, DATA_NB_ROWS, (m.theight - 1) as u8);
    let m6 = put16(m5, DATA_SEG, DATA_CHAR_HEIGHT, m.cheight);
    let m7 = put8(m6, DATA_SEG, DATA_VIDEO_CTL, if clear_mem { 0x60u8 } else { 0xE0u8 });
    let m8 = put8(m7, DATA_SEG, DATA_SWITCHES, 0x09);
    if m.is_vga {
        put8(m8, DATA_SEG, DATA_DCC_INDEX, 0x0B)
    } else {
        m8
    }
}

/// The memory after the Configuration Data Table is written.
pub open spec fn config_table_written(mem: Seq<u8>) -> Seq<u8> {
    let base: u16 = 0xE6F5;
    let m0 = put16(mem, ROM_SEG, base, 8);
    let m1 = put8(m0, ROM_SEG, (base + 2) as u16, 0xFC);
    let m2 = put8(m1, ROM_SEG, (base + 3) as u16, 0);
    let m3 = put8(m2, ROM_SEG, (base + 4) as u16, 0);
    let m4 = put8(m3, ROM_SEG, (base + 5) as u16, 0);
    let m5 = put8(m4, ROM_SEG, (base + 6) as u16, 0);
    let m6 = put8(m5, ROM_SEG, (base + 7) as u16, 0);
    let m7 = put8(m6, ROM_SEG, (base + 8) as u16, 0);
    let m8 = put8(m7, ROM_SEG, (base + 9) as u16, 0);
    put16(m8, ROM_SEG, ROM_EQUIPMENT_WORD, 0x0021)
}

/// The byte at flat address `a` of the interrupt vector table as the BIOS
/// sets it up: vector `a / 4` points to `ROM_SEG:(a / 4)`.
pub open spec fn ivt_byte(a: int) -> u8 {
    let k = a % 4;
    if k == 0 {
        (a / 4) as u8
    } else if k == 1 {
        0
    } else if k == 2 {
        0
    } else {
        0xF0
    }
}

/// The memory after the first `n` interrupt vectors are set up: each
/// points to its own `iret` in the ROM segment, at the offset of its number.
pub open spec fn ivt_written(mem: Seq<u8>, n: int) -> Seq<u8> {
    Seq::new(
        mem.len(),
        |a: int|
            if 0 <= a < n * 4 {
                ivt_byte(a)
            } else if flat(ROM_SEG, 0) <= a < flat(ROM_SEG, 0) + n {
                IRET
            } else {
                mem[a]
            },
    )
}

impl BIOS {
    pub fn new() -> (r: Self)
        ensures
            r.flags_address is Unset,
    {
        BIOS { flags_address: MemoryAddress::Unset }
    }

    /// Records a video mode in the BIOS data area.
    pub fn set_video_mode(&mut self, mmu: &mut Memory, mode: &VideoModeBlock, clear_mem: bool)
        requires
            mode.theight >= 1,
            !(128 <= mode.mode < 0x98),
        ensures
            final(mmu)@ == video_mode_written(old(mmu)@, *mode, clear_mem),
    {
        if mode.mode < 128 {
            mmu.write_u8(DATA_SEG, DATA_CURRENT_MODE, mode.mode as u8);
        } else {
            // Looks like the s3 bios
            mmu.write_u8(DATA_SEG, DATA_CURRENT_MODE, (mode.mode - 0x98) as u8);
        }
        mmu.write_u16(DATA_SEG, DATA_NB_COLS, mode.twidth);
        mmu.write_u16(DATA_SEG, DATA_PAGE_SIZE, mode.plength);
        mmu.write_u16(DATA_SEG, DATA_CRTC_ADDRESS, mode.crtc_address);
        mmu.write_u8(DATA_SEG, DATA_NB_ROWS, (mode.theight - 1) as u8);
        mmu.write_u16(DATA_SEG, DATA_CHAR_HEIGHT, mode.cheight);
        let video_ctl: u8 = 0x60 | if clear_mem {
            0
        } else {
            0x80
        };
        assert((0x60u8 | 0u8) == 0x60u8 && (0x60u8 | 0x80u8) == 0xE0u8) by (bit_vector);
        mmu.write_u8(DATA_SEG, DATA_VIDEO_CTL, video_ctl);
        mmu.write_u8(DATA_SEG, DATA_SWITCHES, 0x09);
        // this is an index into the dcc table
        if mode.is_vga {
            mmu.write_u8(DATA_SEG, DATA_DCC_INDEX, 0x0B);
        }
    }

    /// Sets or clears the bits `flag_mask` of the FLAGS register saved on the
    /// stack while in an interrupt.
    pub fn set_flag(&mut self, mmu: &mut Memory, flag_mask: u16, flag_value: bool)
        requires
            !(old(self).flags_address is Unset),
        ensures
            ({
                let (seg, off) = (
                    old(self).flags_address->RealSegmentOffset_0,
                    old(self).flags_address->RealSegmentOffset_1,
                );
                let flags = word_at(old(mmu)@, flat(seg, off));
                final(mmu)@ == put16(
                    old(mmu)@,
                    seg,
                    off,
                    if flag_value { flags | flag_mask } else { flags & !flag_mask },
                )
            }),
            *final(self) == *old(self),
    {
        if let MemoryAddress::RealSegmentOffset(seg, off) = self.flags_address {
            let mut flags = mmu.read_u16(seg, off);
            if flag_value {
                flags = flags | flag_mask;
            } else {
                flags = flags & !flag_mask;
            }
            mmu.write_u16(seg, off, flags);
        }
    }

    /// Sets up the interrupt vectors and the Configuration Data Table.
    pub fn init(&mut self, mmu: &mut Memory)
        ensures
            final(mmu)@ == config_table_written(ivt_written(old(mmu)@, 255)),
    {
        self.init_ivt(mmu);
        self.write_configuration_data_table(mmu);
    }

    /// Points interrupt vectors 0..255 each to an `iret` of its own.
    fn init_ivt(&mut self, mmu: &mut Memory)
        ensures
            final(mmu)@ == ivt_written(old(mmu)@, 255),
    {
        proof {
            crate::memory::lemma_memory_len(&*mmu);
            assert(mmu@ =~= ivt_written(mmu@, 0));
        }
        let mut irq: u8 = 0;
        while irq < 0xFF
            invariant
                irq <= 0xFF,
                mmu@ == ivt_written(old(mmu)@, irq as int),
                old(mmu)@.len() == crate::memory::MEMORY_SIZE,
            decreases 0xFF - irq,
        {
            let ghost before = mmu@;
            self.write_ivt_entry(mmu, irq, ROM_SEG, irq as u16);
            mmu.write_u8(ROM_SEG, irq as u16, IRET);
            proof {
                let n = irq as int;
                assert(ivt_byte(n * 4) == n as u8);
                assert(ivt_byte(n * 4 + 1) == 0);
                assert(ivt_byte(n * 4 + 2) == 0);
                assert(ivt_byte(n * 4 + 3) == 0xF0);
                assert(mmu@ =~= ivt_written(old(mmu)@, n + 1));
            }
            irq = irq + 1;
        }
    }

    /// Points interrupt vector `number` to `seg:offset`.
    fn write_ivt_entry(&self, mmu: &mut Memory, number: u8, seg: u16, offset: u16)
        ensures
            final(mmu)@ == put16(put16(old(mmu)@, 0, (number * 4) as u16, offset), 0, (number * 4 + 2) as u16, seg),
    {
        let _seg: u16 = 0;
        let _offset: u16 = (number as u16) * 4;
        mmu.write_u16(_seg, _offset, offset);
        mmu.write_u16(_seg, _offset + 2, seg);
    }

    /// Writes the Configuration Data Table and the equipment word.
    fn write_configuration_data_table(&self, mmu: &mut Memory)
        ensures
            final(mmu)@ == config_table_written(old(mmu)@),
    {
        let base: u16 = 0xE6F5;
        mmu.write_u16(ROM_SEG, base + 0, 8);  // table size
        mmu.write_u8(ROM_SEG, base + 2, 0xFC);  // model: AT
        mmu.write_u8(ROM_SEG, base + 3, 0);  // submodel
        mmu.write_u8(ROM_SEG, base + 4, 0);  // BIOS revision
        mmu.write_u8(ROM_SEG, base + 5, 0b00000000);  // feature byte 1
        mmu.write_u8(ROM_SEG, base + 6, 0b00000000);  // feature byte 2
        mmu.write_u8(ROM_SEG, base + 7, 0b00000000);  // feature byte 3
        mmu.write_u8(ROM_SEG, base + 8, 0b00000000);  // feature byte 4
        mmu.write_u8(ROM_SEG, base + 9, 0b00000000);  // feature byte 5
        mmu.write_u16(ROM_SEG, ROM_EQUIPMENT_WORD, 0x0021);
    }
}

/// get the cursor x position
pub fn cursor_pos_col(mmu: &Memory, page: u8) -> (r: u8)
    ensures
        r == mmu@[flat(DATA_SEG, (DATA_CURSOR_POS + page * 2) as u16)],
{
    mmu.read_u8(DATA_SEG, DATA_CURSOR_POS + (page as u16 * 2))
}

/// get the cursor y position
pub fn cursor_pos_row(mmu: &Memory, page: u8) -> (r: u8)
    ensures
        r == mmu@[flat(DATA_SEG, (DATA_CURSOR_POS + page * 2 + 1) as u16)],
{
    mmu.read_u8(DATA_SEG, DATA_CURSOR_POS + (page as u16 * 2) + 1)
}

} // verus!
