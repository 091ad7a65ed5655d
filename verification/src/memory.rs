use vstd::prelude::*;
use crate::ppu::Ppu;
use crate::ppu::PpuState;

verus! {

/// The address that follows `addr` inside the same 256-byte page: the low
/// byte goes one up and wraps, the high byte stays.
pub open spec fn page_successor(addr: u16) -> u16 {
    (addr / 256 * 256 + (addr + 1) % 256) as u16
}

/// The address that follows `addr` in the 16-bit address space.
pub open spec fn successor(addr: u16) -> u16 {
    ((addr + 1) % 0x10000) as u16
}

/// The 16-bit word with low byte `lo` and high byte `hi`.
pub open spec fn word(lo: u8, hi: u8) -> u16 {
    (lo + 256 * hi) as u16
}

/// Joins two bytes into a little-endian word.
pub fn make_word(lo: u8, hi: u8) -> (value: u16)
    ensures
        value == word(lo, hi),
{
    let l: u16 = lo as u16;
    let h: u16 = hi as u16;
    assert(h << 8 | l == l + 256 * h) by (bit_vector)
        requires
            l < 256,
            h < 256,
    ;
    h << 8 | l
}

/// Computes the address that follows `addr` inside its page.
pub fn next_in_page(addr: u16) -> (next: u16)
    ensures
        next == page_successor(addr),
{
    let bumped: u16 = addr.wrapping_add(1);
    assert(addr & 0xff00 | bumped & 0x00ff == addr / 256 * 256 + (addr + 1) % 256) by (bit_vector)
        requires
            bumped == if addr == 0xffff {
                0u16
            } else {
                (addr + 1) as u16
            },
    ;
    addr & 0xff00 | bumped & 0x00ff
}

/// A byte-addressed store whose reads may change it.
///
/// The view of the store is its whole state. `peek` is the byte that a read
/// returns, `touched` the state that the read leaves, and `stored` the state
/// after a write. Every 16-bit address is defined for all three.
pub trait Mem: View + Sized {
    spec fn peek(state: Self::V, addr: u16) -> u8;

    spec fn touched(state: Self::V, addr: u16) -> Self::V;

    spec fn stored(state: Self::V, addr: u16, value: u8) -> Self::V;

    /// Reads one byte.
    fn read(&mut self, addr: u16) -> (value: u8)
        ensures
            value == Self::peek(old(self)@, addr),
            final(self)@ == Self::touched(old(self)@, addr),
    ;

    /// Writes one byte.
    fn write(&mut self, addr: u16, value: u8)
        ensures
            final(self)@ == Self::stored(old(self)@, addr, value),
    ;

    /// Reads the little-endian word at `addr` and the address after it, low
    /// byte first.
    fn read16(&mut self, addr: u16) -> (value: u16)
        ensures
            value == word(
                Self::peek(old(self)@, addr),
                Self::peek(Self::touched(old(self)@, addr), successor(addr)),
            ),
            final(self)@ == Self::touched(Self::touched(old(self)@, addr), successor(addr)),
    {
        let lo = self.read(addr);
        let hi = self.read(addr.wrapping_add(1));
        make_word(lo, hi)
    }

    /// Reads a little-endian word whose high byte comes from the same page
    /// as its low byte: after `0x..ff` follows `0x..00` of that page.
    fn read16_wrapped(&mut self, addr: u16) -> (value: u16)
        ensures
            value == word(
                Self::peek(old(self)@, addr),
                Self::peek(Self::touched(old(self)@, addr), page_successor(addr)),
            ),
            final(self)@ == Self::touched(Self::touched(old(self)@, addr), page_successor(addr)),
    {
        let wrapped = next_in_page(addr);
        let lo = self.read(addr);
        let hi = self.read(wrapped);
        make_word(lo, hi)
    }
}

/// What the video memory holds: pattern tables, name tables, palette.
pub struct VramState {
    pub pt: Seq<u8>,
    pub nt: Seq<u8>,
    pub palette: Seq<u8>,
}

impl VramState {
    pub open spec fn wf(self) -> bool {
        &&& self.pt.len() == 0x2000
        &&& self.nt.len() == 0x1000
        &&& self.palette.len() == 0x20
    }

    /// Video memory that holds zeros only.
    pub open spec fn zeroed() -> VramState {
        VramState {
            pt: Seq::new(0x2000, |i: int| 0u8),
            nt: Seq::new(0x1000, |i: int| 0u8),
            palette: Seq::new(0x20, |i: int| 0u8),
        }
    }

    /// The byte at `addr`; above `0x3fff` nothing is mapped and 0 is read.
    pub open spec fn peek(self, addr: u16) -> u8 {
        if addr < 0x2000 {
            self.pt[addr as int]
        } else if addr < 0x3f00 {
            self.nt[(addr % 0x1000) as int]
        } else if addr < 0x4000 {
            self.palette[(addr % 0x20) as int]
        } else {
            0
        }
    }

    /// The memory after a write; one above `0x3fff` changes nothing.
    pub open spec fn stored(self, addr: u16, value: u8) -> VramState {
        if addr < 0x2000 {
            VramState { pt: self.pt.update(addr as int, value), ..self }
        } else if addr < 0x3f00 {
            VramState { nt: self.nt.update((addr % 0x1000) as int, value), ..self }
        } else if addr < 0x4000 {
            VramState { palette: self.palette.update((addr % 0x20) as int, value), ..self }
        } else {
            self
        }
    }
}

/// The memory on the video unit's own bus.
pub struct PpuMem {
    pt: [u8; 0x2000],
    nt: [u8; 0x1000],
    palette: [u8; 0x20],
}

impl View for PpuMem {
    type V = VramState;

    closed spec fn view(&self) -> VramState {
        VramState { pt: self.pt@, nt: self.nt@, palette: self.palette@ }
    }
}

impl PpuMem {
    /// Video memory filled with zeros.
    pub fn new() -> (mem: PpuMem)
        ensures
            mem@ == VramState::zeroed(),
    {
        let mem = PpuMem { pt: [0;0x2000], nt: [0;0x1000], palette: [0;0x20] };
        assert(mem@.pt =~= VramState::zeroed().pt);
        assert(mem@.nt =~= VramState::zeroed().nt);
        assert(mem@.palette =~= VramState::zeroed().palette);
        mem
    }

    /// The byte at `addr`.
    pub fn peek_at(&self, addr: u16) -> (value: u8)
        ensures
            value == self@.peek(addr),
    {
        if addr < 0x2000 {
            self.pt[addr as usize]
        } else if addr < 0x3f00 {
            self.nt[(addr % 0x1000) as usize]
        } else if addr < 0x4000 {
            self.palette[(addr % 0x20) as usize]
        } else {
            0
        }
    }

    /// Puts `value` at `addr`.
    pub fn store_at(&mut self, addr: u16, value: u8)
        ensures
            final(self)@ == old(self)@.stored(addr, value),
    {
        if addr < 0x2000 {
            self.pt[addr as usize] = value;
        } else if addr < 0x3f00 {
            self.nt[(addr % 0x1000) as usize] = value;
        } else if addr < 0x4000 {
            self.palette[(addr % 0x20) as usize] = value;
        }
    }

    /// Every video memory has its three regions at full size.
    pub proof fn lemma_wf(&self)
        ensures
            self@.wf(),
    {
    }
}

impl Mem for PpuMem {
    open spec fn peek(state: VramState, addr: u16) -> u8 {
        state.peek(addr)
    }

    open spec fn touched(state: VramState, addr: u16) -> VramState {
        state
    }

    open spec fn stored(state: VramState, addr: u16, value: u8) -> VramState {
        state.stored(addr, value)
    }

    fn read(&mut self, addr: u16) -> (value: u8) {
        self.peek_at(addr)
    }

    fn write(&mut self, addr: u16, value: u8) {
        self.store_at(addr, value);
    }
}

/// What the processor's bus holds: the work RAM and the video unit.
pub struct BusState {
    pub ram: Seq<u8>,
    pub ppu: PpuState,
}

/// The register that a bus address in the video unit's window selects:
/// the eight registers repeat every eight bytes.
pub open spec fn register_of(addr: u16) -> u16 {
    (0x2000 + addr % 8) as u16
}

impl BusState {
    pub open spec fn wf(self) -> bool {
        &&& self.ram.len() == 0x800
        &&& self.ppu.wf()
    }

    /// The bus at power-on: RAM zeroed, the video unit at power-on.
    pub open spec fn power_on() -> BusState {
        BusState { ram: Seq::new(0x800, |i: int| 0u8), ppu: PpuState::power_on() }
    }

    /// The little-endian word at `ptr`, its high byte read from the same
    /// page as its low byte.
    pub open spec fn word_in_page(self, ptr: u16) -> u16 {
        word(self.peek(ptr), self.touched(ptr).peek(page_successor(ptr)))
    }

    /// The little-endian word at `ptr` and the address after it.
    pub open spec fn word_at(self, ptr: u16) -> u16 {
        word(self.peek(ptr), self.touched(ptr).peek(successor(ptr)))
    }

    /// The bus after the first `count` bytes of page `page` were copied, in
    /// rising order of address, each read from the bus and written to the
    /// sprite data register at `0x2004`.
    pub open spec fn sprite_dma(self, page: u8, count: nat) -> BusState
        decreases count,
    {
        if count == 0 {
            self
        } else {
            let before = self.sprite_dma(page, (count - 1) as nat);
            let source = (page * 256 + (count - 1)) as u16;
            before.touched(source).stored(0x2004, before.peek(source))
        }
    }

    /// Whether `addr` is forwarded to the video unit.
    pub open spec fn is_register(addr: u16) -> bool {
        0x2000 <= addr < 0x4000 || addr == 0x4014
    }

    /// The register address handed to the video unit for `addr`.
    pub open spec fn forwarded(addr: u16) -> u16 {
        if addr == 0x4014 {
            addr
        } else {
            register_of(addr)
        }
    }

    /// The byte that a read of `addr` returns: RAM repeats every `0x800`
    /// bytes below `0x2000`; the video unit answers in its window; elsewhere
    /// the bus is open and reads 0.
    pub open spec fn peek(self, addr: u16) -> u8 {
        if addr < 0x2000 {
            self.ram[(addr % 0x800) as int]
        } else if Self::is_register(addr) {
            self.ppu.register_value(Self::forwarded(addr))
        } else {
            0
        }
    }

    /// The bus after a read of `addr`: only a register read changes it.
    pub open spec fn touched(self, addr: u16) -> BusState {
        if addr >= 0x2000 && Self::is_register(addr) {
            BusState { ppu: self.ppu.after_read(Self::forwarded(addr)), ..self }
        } else {
            self
        }
    }

    /// The bus after a write of `value` to `addr`.
    pub open spec fn stored(self, addr: u16, value: u8) -> BusState {
        if addr < 0x2000 {
            BusState { ram: self.ram.update((addr % 0x800) as int, value), ..self }
        } else if Self::is_register(addr) {
            BusState { ppu: self.ppu.after_write(Self::forwarded(addr), value), ..self }
        } else {
            self
        }
    }
}

/// The processor's bus: 2 KB of work RAM and the video unit's registers.
pub struct CpuMem {
    ram: [u8; 0x800],
    ppu: Ppu,
}

impl View for CpuMem {
    type V = BusState;

    closed spec fn view(&self) -> BusState {
        BusState { ram: self.ram@, ppu: self.ppu@ }
    }
}

impl CpuMem {
    /// A bus with zeroed RAM and a video unit at power-on.
    pub fn new() -> (mem: CpuMem)
        ensures
            mem@ == BusState::power_on(),
    {
        let mem = CpuMem { ram: [0;0x800], ppu: Ppu::new() };
        assert(mem@.ram =~= BusState::power_on().ram);
        mem
    }

    /// Every bus has its RAM and its video unit at full size.
    pub proof fn lemma_wf(&self)
        ensures
            self@.wf(),
    {
        self.ppu.lemma_wf();
    }

    /// Whether the video unit pulls the non-maskable interrupt line low.
    pub fn nmi_assert_low(&self) -> (low: bool)
        ensures
            low == self@.ppu.nmi_line(),
    {
        self.ppu.nmi_assert_low()
    }
}

impl Mem for CpuMem {
    open spec fn peek(state: BusState, addr: u16) -> u8 {
        state.peek(addr)
    }

    open spec fn touched(state: BusState, addr: u16) -> BusState {
        state.touched(addr)
    }

    open spec fn stored(state: BusState, addr: u16, value: u8) -> BusState {
        state.stored(addr, value)
    }

    fn read(&mut self, addr: u16) -> (value: u8) {
        if addr < 0x2000 {
            self.ram[(addr % 0x800) as usize]
        } else if addr < 0x4000 {
            assert(addr & 0x2007 == 0x2000 + addr % 8) by (bit_vector)
                requires
                    0x2000 <= addr < 0x4000,
            ;
            self.ppu.read_register(addr & 0x2007)
        } else if addr == 0x4014 {
            self.ppu.read_register(addr)
        } else {
            0
        }
    }

    fn write(&mut self, addr: u16, value: u8) {
        if addr < 0x2000 {
            self.ram[(addr % 0x800) as usize] = value;
        } else if addr < 0x4000 {
            assert(addr & 0x2007 == 0x2000 + addr % 8) by (bit_vector)
                requires
                    0x2000 <= addr < 0x4000,
            ;
            self.ppu.write_register(addr & 0x2007, value);
        } else if addr == 0x4014 {
            self.ppu.write_register(addr, value);
        }
    }
}

} // verus!
