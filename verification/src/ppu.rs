use vstd::prelude::*;
use crate::memory::Mem;
use crate::memory::PpuMem;
use crate::memory::VramState;
use crate::status::flag_bit;

verus! {

/// The control register of the video unit, written at `0x2000`.
#[derive(Clone, Copy, PartialEq, Eq, Structural, Debug)]
pub struct PpuCtrl {
    pub value: u8,
}

/// Start of the name table that the two low bits of a control byte select.
pub open spec fn name_table_of(ctrl: u8) -> u16 {
    (0x2000 + 0x400 * (ctrl % 4)) as u16
}

/// How far a data access moves the video address: 1 across, 32 down when
/// bit 2 of the control byte is set.
pub open spec fn increment_of(ctrl: u8) -> u16 {
    if ctrl / 4 % 2 == 0 {
        1
    } else {
        32
    }
}

/// Start of the pattern table that the bit of weight `weight` selects.
pub open spec fn pattern_table_of(ctrl: u8, weight: int) -> u16 {
    if ctrl as int / weight % 2 == 0 {
        0x0000
    } else {
        0x1000
    }
}

impl Default for PpuCtrl {
    fn default() -> (ctrl: PpuCtrl)
        ensures
            ctrl.value == 0,
    {
        PpuCtrl { value: 0 }
    }
}

impl PpuCtrl {
    /// The start of the name table that the register selects.
    pub fn base_name_table(&self) -> (addr: u16)
        ensures
            addr == name_table_of(self.value),
    {
        let value = self.value;
        assert(value & 0x3 == value % 4) by (bit_vector);
        let low: u8 = value & 0x3;
        if low == 0 {
            0x2000
        } else if low == 1 {
            0x2400
        } else if low == 2 {
            0x2800
        } else {
            0x2c00
        }
    }

    /// How far a data access moves the video address.
    pub fn vram_increment(&self) -> (step: u16)
        ensures
            step == increment_of(self.value),
    {
        let value = self.value;
        assert((value & 0x4 == 0) == (value / 4 % 2 == 0)) by (bit_vector);
        if value & 0x4 == 0 {
            1
        } else {
            32
        }
    }

    /// The start of the pattern table for sprites.
    pub fn spr_pattern_table(&self) -> (addr: u16)
        ensures
            addr == pattern_table_of(self.value, 8),
    {
        let value = self.value;
        assert((value & 0x8 == 0) == (value / 8 % 2 == 0)) by (bit_vector);
        if value & 0x8 == 0 {
            0x0000
        } else {
            0x1000
        }
    }

    /// The start of the pattern table for the background.
    pub fn bg_pattern_table(&self) -> (addr: u16)
        ensures
            addr == pattern_table_of(self.value, 16),
    {
        let value = self.value;
        assert((value & 0x10 == 0) == (value / 16 % 2 == 0)) by (bit_vector);
        if value & 0x10 == 0 {
            0x0000
        } else {
            0x1000
        }
    }

    /// Whether sprites are 16 pixels high.
    pub fn spr_8x16(&self) -> (tall: bool)
        ensures
            tall == (self.value / 32 % 2 == 1),
    {
        let value = self.value;
        assert((value & 0x20 != 0) == (value / 32 % 2 == 1)) by (bit_vector);
        value & 0x20 != 0
    }

    /// Whether the unit takes its backdrop from its pins.
    pub fn slave(&self) -> (slave: bool)
        ensures
            slave == (self.value / 64 % 2 == 1),
    {
        let value = self.value;
        assert((value & 0x40 != 0) == (value / 64 % 2 == 1)) by (bit_vector);
        value & 0x40 != 0
    }

    /// Whether a vertical blank raises the non-maskable interrupt.
    pub fn gen_vblank_nmi(&self) -> (enabled: bool)
        ensures
            enabled == (self.value >= 128),
    {
        let value = self.value;
        assert((value & 0x80 != 0) == (value >= 128)) by (bit_vector);
        value & 0x80 != 0
    }
}

/// The status flags of the video unit, read at `0x2002`.
#[derive(Clone, Copy, PartialEq, Eq, Structural, Debug)]
pub struct PpuStatus {
    pub spr_overflow: bool,
    pub spr_0_hit: bool,
    pub vblank: bool,
}

impl Default for PpuStatus {
    fn default() -> (status: PpuStatus)
        ensures
            status == PpuStatus::cleared(),
    {
        PpuStatus { spr_overflow: false, spr_0_hit: false, vblank: false }
    }
}

impl PpuStatus {
    /// No flag set.
    pub open spec fn cleared() -> PpuStatus {
        PpuStatus { spr_overflow: false, spr_0_hit: false, vblank: false }
    }

    /// The flags packed into bits 5, 6 and 7.
    pub open spec fn spec_as_byte(self) -> u8 {
        (flag_bit(self.spr_overflow, 32) + flag_bit(self.spr_0_hit, 64) + flag_bit(
            self.vblank,
            128,
        )) as u8
    }

    /// Packs the flags into bits 5, 6 and 7.
    pub fn as_byte(&self) -> (value: u8)
        ensures
            value == self.spec_as_byte(),
    {
        let o: u8 = if self.spr_overflow { 0x20 } else { 0 };
        let h: u8 = if self.spr_0_hit { 0x40 } else { 0 };
        let v: u8 = if self.vblank { 0x80 } else { 0 };
        assert(o | h | v == o + h + v) by (bit_vector)
            requires
                o == 0x20 || o == 0,
                h == 0x40 || h == 0,
                v == 0x80 || v == 0,
        ;
        o | h | v
    }
}

/// The state of the video unit as far as its registers show or change it.
pub struct PpuState {
    /// Current video memory address.
    pub v: u16,
    /// Temporary video memory address.
    pub t: u16,
    /// Fine horizontal scroll.
    pub x: u8,
    /// Write latch shared by the scroll and the address register.
    pub w: bool,
    pub vram: VramState,
    /// Sprite attribute memory.
    pub oam: Seq<u8>,
    pub nmi_occured: bool,
    pub nmi_output: bool,
    pub ctrl: u8,
    pub mask: u8,
    pub status: PpuStatus,
    pub oamaddr: u8,
    pub oamdma: u8,
}

/// The video address `bump` further on, wrapping at 16 bits.
pub open spec fn advance(v: u16, bump: u16) -> u16 {
    ((v + bump) % 0x10000) as u16
}

impl PpuState {
    pub open spec fn wf(self) -> bool {
        &&& self.vram.wf()
        &&& self.oam.len() == 256
    }

    /// The state at power-on: everything clear, memories zeroed.
    pub open spec fn power_on() -> PpuState {
        PpuState {
            v: 0,
            t: 0,
            x: 0,
            w: false,
            vram: VramState::zeroed(),
            oam: Seq::new(256, |i: int| 0u8),
            nmi_occured: false,
            nmi_output: false,
            ctrl: 0,
            mask: 0,
            status: PpuStatus::cleared(),
            oamaddr: 0,
            oamdma: 0,
        }
    }

    /// The level of the interrupt line towards the processor.
    pub open spec fn nmi_line(self) -> bool {
        self.nmi_occured && self.nmi_output
    }

    /// The byte that the status register shows: sprite overflow in bit 5,
    /// sprite-0 hit in bit 6, and the pending interrupt in bit 7.
    pub open spec fn status_value(self) -> u8 {
        (flag_bit(self.status.spr_overflow, 32) + flag_bit(self.status.spr_0_hit, 64) + flag_bit(
            self.nmi_occured,
            128,
        )) as u8
    }

    /// The byte that a read of register `addr` returns. Only the status
    /// register, the sprite data register and the memory data register can be
    /// read; every other address reads 0.
    pub open spec fn register_value(self, addr: u16) -> u8 {
        if addr == 0x2002 {
            self.status_value()
        } else if addr == 0x2004 {
            self.oam[self.oamaddr as int]
        } else if addr == 0x2007 {
            self.vram.peek(self.v)
        } else {
            0
        }
    }

    /// The state that a read of register `addr` leaves. Reading the status
    /// clears the pending interrupt, the vertical-blank flag and the write
    /// latch; reading memory data moves the video address on.
    pub open spec fn after_read(self, addr: u16) -> PpuState {
        if addr == 0x2002 {
            PpuState {
                nmi_occured: false,
                w: false,
                status: PpuStatus { vblank: false, ..self.status },
                ..self
            }
        } else if addr == 0x2007 {
            PpuState { v: advance(self.v, increment_of(self.ctrl)), ..self }
        } else {
            self
        }
    }

    /// The temporary address after a write of `value` to the scroll register.
    pub open spec fn scrolled(self, value: u8) -> u16 {
        if !self.w {
            ((value as u16) >> 3) | (self.t & 0xffe0)
        } else {
            (((value as u16) & 0x7) << 12) | (((value as u16) & 0xf8) << 2) | (self.t & 0x8c1f)
        }
    }

    /// The temporary address after a write of `value` to the address register.
    pub open spec fn addressed(self, value: u8) -> u16 {
        if !self.w {
            (((value as u16) & 0x3f) | (self.t & 0xc0ff)) & 0xbfff
        } else {
            (value as u16) | (self.t & 0xff00)
        }
    }

    /// The state after a write of `value` to register `addr`.
    pub open spec fn after_write(self, addr: u16, value: u8) -> PpuState {
        if addr == 0x2000 {
            PpuState { ctrl: value, nmi_output: value >= 128, ..self }
        } else if addr == 0x2001 {
            PpuState { mask: value, ..self }
        } else if addr == 0x2003 {
            PpuState { oamaddr: value, ..self }
        } else if addr == 0x2004 {
            PpuState {
                oam: self.oam.update(self.oamaddr as int, value),
                oamaddr: ((self.oamaddr + 1) % 256) as u8,
                ..self
            }
        } else if addr == 0x2005 {
            PpuState {
                t: self.scrolled(value),
                x: if self.w {
                    self.x
                } else {
                    value % 8
                },
                w: !self.w,
                ..self
            }
        } else if addr == 0x2006 {
            PpuState {
                t: self.addressed(value),
                v: if self.w {
                    self.addressed(value)
                } else {
                    self.v
                },
                w: !self.w,
                ..self
            }
        } else if addr == 0x2007 {
            PpuState {
                vram: self.vram.stored(self.v, value),
                v: advance(self.v, increment_of(self.ctrl)),
                ..self
            }
        } else if addr == 0x4014 {
            PpuState { oamdma: value, ..self }
        } else {
            self
        }
    }
}

/// The video unit, seen through its registers.
pub struct Ppu {
    v: u16,
    t: u16,
    x: u8,
    w: bool,
    mem: PpuMem,
    oam: [u8; 256],
    nmi_occured: bool,
    nmi_output: bool,
    ppuctrl: PpuCtrl,
    ppumask: u8,
    ppustatus: PpuStatus,
    oamaddr: u8,
    oamdma: u8,
}

impl View for Ppu {
    type V = PpuState;

    closed spec fn view(&self) -> PpuState {
        PpuState {
            v: self.v,
            t: self.t,
            x: self.x,
            w: self.w,
            vram: self.mem@,
            oam: self.oam@,
            nmi_occured: self.nmi_occured,
            nmi_output: self.nmi_output,
            ctrl: self.ppuctrl.value,
            mask: self.ppumask,
            status: self.ppustatus,
            oamaddr: self.oamaddr,
            oamdma: self.oamdma,
        }
    }
}

impl Ppu {
    /// A video unit at power-on.
    pub fn new() -> (ppu: Ppu)
        ensures
            ppu@ == PpuState::power_on(),
    {
        let ppu = Ppu {
            v: 0,
            t: 0,
            x: 0,
            w: false,
            mem: PpuMem::new(),
            oam: [0;256],
            nmi_occured: false,
            nmi_output: false,
            ppuctrl: PpuCtrl::default(),
            ppumask: 0,
            ppustatus: PpuStatus::default(),
            oamaddr: 0,
            oamdma: 0,
        };
        assert(ppu@.oam =~= PpuState::power_on().oam);
        ppu
    }

    /// Every video unit has its memories at full size.
    pub proof fn lemma_wf(&self)
        ensures
            self@.wf(),
    {
        self.mem.lemma_wf();
    }

    /// Reads the register at `addr`.
    pub fn read_register(&mut self, addr: u16) -> (value: u8)
        ensures
            value == old(self)@.register_value(addr),
            final(self)@ == old(self)@.after_read(addr),
    {
        if addr == 0x2002 {
            let flags = self.ppustatus.as_byte();
            let pending: u8 = if self.nmi_occured { 0x80 } else { 0 };
            assert((flags & 0x7f) | pending == (if flags >= 128 {
                flags - 128
            } else {
                flags as int
            }) + pending) by (bit_vector)
                requires
                    pending == 0x80 || pending == 0,
            ;
            let value = (flags & 0x7f) | pending;
            self.nmi_occured = false;
            self.w = false;
            self.ppustatus.vblank = false;
            value
        } else if addr == 0x2004 {
            self.oam[self.oamaddr as usize]
        } else if addr == 0x2007 {
            let value = self.mem.read(self.v);
            self.v = self.v.wrapping_add(self.ppuctrl.vram_increment());
            value
        } else {
            0
        }
    }

    /// Writes `value` to the register at `addr`.
    pub fn write_register(&mut self, addr: u16, value: u8)
        ensures
            final(self)@ == old(self)@.after_write(addr, value),
    {
        if addr == 0x2000 {
            assert((value & 0x80 != 0) == (value >= 128)) by (bit_vector);
            self.ppuctrl.value = value;
            self.nmi_output = value & 0x80 != 0;
        } else if addr == 0x2001 {
            self.ppumask = value;
        } else if addr == 0x2003 {
            self.oamaddr = value;
        } else if addr == 0x2004 {
            self.oam[self.oamaddr as usize] = value;
            self.oamaddr = self.oamaddr.wrapping_add(1);
        } else if addr == 0x2005 {
            if !self.w {
                assert(value & 0x7 == value % 8) by (bit_vector);
                self.t = ((value as u16) >> 3) | (self.t & 0xffe0);
                self.x = value & 0x7;
                self.w = true;
            } else {
                self.t = (((value as u16) & 0x7) << 12) | (((value as u16) & 0xf8) << 2) | (self.t
                    & 0x8c1f);
                self.w = false;
            }
        } else if addr == 0x2006 {
            if !self.w {
                self.t = ((value as u16) & 0x3f) | (self.t & 0xc0ff);
                self.t &= 0xbfff;
                self.w = true;
            } else {
                self.t = (value as u16) | (self.t & 0xff00);
                self.v = self.t;
                self.w = false;
            }
        } else if addr == 0x2007 {
            self.mem.write(self.v, value);
            self.v = self.v.wrapping_add(self.ppuctrl.vram_increment());
        } else if addr == 0x4014 {
            self.oamdma = value;
        }
    }

    /// Whether the unit pulls the processor's non-maskable interrupt line low.
    pub fn nmi_assert_low(&self) -> (low: bool)
        ensures
            low == self@.nmi_line(),
    {
        self.nmi_occured && self.nmi_output
    }
}

} // verus!
