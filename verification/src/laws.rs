use vstd::prelude::*;
use crate::alu::low_byte;
use crate::instr::instruction;
use crate::instr::lemma_table_wf;
use crate::instr::AddrMode;
use crate::instr::Op;
use crate::instr::Operand;
use crate::memory::page_successor;
use crate::memory::word;
use crate::memory::BusState;
use crate::memory::VramState;
use crate::ppu::PpuState;
use crate::state::indexed;
use crate::state::lemma_instruction_cycles;
use crate::state::low_word;
use crate::state::spec_page_crossed;
use crate::state::stack_addr;
use crate::state::CpuState;

verus! {

/// A read of work RAM changes nothing: a second read of the same address,
/// with no write in between, returns the same byte.
pub proof fn lemma_ram_read_idempotent(bus: BusState, addr: u16)
    requires
        addr < 0x2000,
    ensures
        bus.touched(addr) == bus,
        bus.touched(addr).peek(addr) == bus.peek(addr),
{
}

/// Work RAM repeats every `0x800` bytes below `0x2000`, for reads and for
/// writes.
pub proof fn lemma_ram_mirrored(bus: BusState, addr: u16, value: u8)
    requires
        addr < 0x2000,
    ensures
        bus.peek(addr) == bus.peek((addr % 0x800) as u16),
        bus.stored(addr, value) == bus.stored((addr % 0x800) as u16, value),
{
}

/// The registers of the video unit repeat every eight bytes from `0x2000`
/// up to `0x3fff`.
pub proof fn lemma_registers_mirrored(bus: BusState, addr: u16, value: u8)
    requires
        0x2000 <= addr < 0x4000,
    ensures
        bus.peek(addr) == bus.peek((0x2000 + addr % 8) as u16),
        bus.touched(addr) == bus.touched((0x2000 + addr % 8) as u16),
        bus.stored(addr, value) == bus.stored((0x2000 + addr % 8) as u16, value),
{
}

/// A byte written to work RAM is the byte that is read there afterwards,
/// and every other byte of RAM reads as before.
pub proof fn lemma_ram_write_read(bus: BusState, addr: u16, value: u8, other: u16)
    requires
        bus.wf(),
        addr < 0x2000,
        other < 0x2000,
    ensures
        bus.stored(addr, value).peek(addr) == value,
        other % 0x800 != addr % 0x800 ==> bus.stored(addr, value).peek(other) == bus.peek(other),
        bus.stored(addr, value).wf(),
{
}

/// Reading video memory never changes it, and a byte written below
/// `0x4000` is the byte read there afterwards.
pub proof fn lemma_vram_write_read(vram: VramState, addr: u16, value: u8)
    requires
        vram.wf(),
        addr < 0x4000,
    ensures
        vram.stored(addr, value).peek(addr) == value,
        vram.stored(addr, value).wf(),
{
}

/// The word that an indirect mode reads at the last byte of a page takes
/// its high byte from the first byte of the same page, not from the page
/// that follows.
pub proof fn lemma_pointer_wraps_in_page(bus: BusState, ptr: u16)
    requires
        ptr % 256 == 255,
        ptr < 0x2000,
    ensures
        page_successor(ptr) == ptr - 255,
        bus.word_in_page(ptr) == word(bus.peek(ptr), bus.peek((ptr - 255) as u16)),
{
}

/// Inside a page the word is read from two addresses in a row.
pub proof fn lemma_pointer_inside_page(bus: BusState, ptr: u16)
    requires
        ptr % 256 != 255,
    ensures
        page_successor(ptr) == ptr + 1,
        bus.word_in_page(ptr) == bus.word_at(ptr),
{
}

/// A byte that was pushed is the byte that is popped, and the stack
/// pointer is back where it was, wherever it stood.
pub proof fn lemma_push_pop(s: CpuState, value: u8)
    requires
        s.wf(),
    ensures
        s.pushed(value).pop_value() == value,
        s.pushed(value).popped().sp == s.sp,
        s.pushed(value).wf(),
{
    let sp = s.sp;
    let down = low_byte(sp - 1);
    assert(low_byte(down + 1) == sp);
}

/// A word that was pushed is the word that is popped.
pub proof fn lemma_push16_pop16(s: CpuState, value: u16)
    requires
        s.wf(),
    ensures
        s.pushed16(value).pop16_value() == value,
        s.pushed16(value).popped16().sp == s.sp,
{
    let hi = (value / 256) as u8;
    let lo = (value % 256) as u8;
    let s1 = s.pushed(hi);
    lemma_push_pop(s, hi);
    lemma_push_pop(s1, lo);
    let s2 = s1.pushed(lo);
    assert(s2.pop_value() == lo);
    assert(s2.popped().sp == s1.sp);
    assert(s2.popped().pop_value() == hi) by {
        assert(s2.bus.ram[(stack_addr(s.sp) % 0x800) as int] == hi);
    }
}

/// What the jump to a subroutine does: it pushes the address of the last
/// byte of the call and goes to the subroutine.
pub proof fn lemma_jsr(s: CpuState, subroutine: u16)
    ensures
        s.executed(Op::Jsr, Operand::Memory(subroutine)) == s.pushed16(
            low_word(s.pc - 1),
        ).with_pc(subroutine),
{
    reveal(CpuState::executed);
}

/// What the return from a subroutine does: it pops an address and goes to
/// the byte behind it.
pub proof fn lemma_rts(s: CpuState)
    ensures
        s.executed(Op::Rts, Operand::Implied) == s.popped16().with_pc(
            low_word(s.pop16_value() + 1),
        ),
{
    reveal(CpuState::executed);
}

/// One back and one on again is where the address was, also across the
/// ends of the address space.
pub proof fn lemma_back_and_on(addr: u16)
    ensures
        low_word(low_word(addr - 1) + 1) == addr,
{
}

/// A return from a subroutine goes to the instruction behind the call: with
/// the program counter behind the three bytes of the call, a jump to a
/// subroutine followed by a return restores the program counter and the
/// stack pointer.
pub proof fn lemma_jsr_rts(s: CpuState, subroutine: u16)
    requires
        s.wf(),
    ensures
        s.executed(Op::Jsr, Operand::Memory(subroutine)).pc == subroutine,
        s.executed(Op::Jsr, Operand::Memory(subroutine)).executed(Op::Rts, Operand::Implied).pc
            == s.pc,
        s.executed(Op::Jsr, Operand::Memory(subroutine)).executed(Op::Rts, Operand::Implied).sp
            == s.sp,
{
    let ret = low_word(s.pc - 1);
    let called = s.executed(Op::Jsr, Operand::Memory(subroutine));
    lemma_jsr(s, subroutine);
    lemma_rts(called);
    lemma_push16_pop16(s, ret);
    lemma_back_and_on(s.pc);
    assert(called.pop16_value() == s.pushed16(ret).pop16_value());
    assert(called.popped16().sp == s.pushed16(ret).popped16().sp);
}

/// The cycles of an instruction. One that is no branch, and whose write
/// starts no sprite memory transfer, takes its base cost from the table,
/// and exactly one cycle more if and only if the table makes it pay for
/// page crossings and its addressing mode crossed a page. A branch takes
/// its base cost, one cycle more when it is taken, and one more again when
/// its target lies on another page than the instruction that follows.
pub proof fn lemma_cycle_count(s: CpuState)
    requires
        s.fault() is None,
    ensures
        ({
            let instr = instruction(s.fetch_value())->Some_0;
            let resolved = s.after_fetch().resolution(instr.mode);
            let next = s.after_fetch().after_resolve(instr.mode).pc;
            let spent = s.after_instruction().cycles - s.cycles;
            &&& !instr.op.is_branch() && !(instr.op.writes_back() && resolved.operand
                == Operand::Memory(0x4014)) ==> spent == instr.cycles + if instr.page_penalty
                && resolved.crossed {
                1int
            } else {
                0int
            }
            &&& instr.op.is_branch() ==> spent == instr.cycles + if !s.branch_taken(instr.op) {
                0int
            } else if spec_page_crossed(next, CpuState::target(resolved.operand)) {
                2int
            } else {
                1int
            }
        }),
{
    reveal(CpuState::after_resolve);
    reveal(CpuState::resolution);
    lemma_table_wf(s.fetch_value());
    lemma_instruction_cycles(s);
}

/// When an addressing mode reports a page crossing: never unless it adds
/// an index register to a 16-bit base, and then exactly when the sum has
/// another high byte than the base.
pub proof fn lemma_page_crossing(s: CpuState, mode: AddrMode)
    ensures
        s.resolution(mode).crossed ==> mode.indexes_base(),
        mode == AddrMode::AbsoluteX ==> s.resolution(mode).crossed == spec_page_crossed(
            s.fetch16_value(),
            indexed(s.fetch16_value(), s.x),
        ),
        mode == AddrMode::AbsoluteY ==> s.resolution(mode).crossed == spec_page_crossed(
            s.fetch16_value(),
            indexed(s.fetch16_value(), s.y),
        ),
        mode == AddrMode::IndirectY ==> s.resolution(mode).crossed == spec_page_crossed(
            s.after_fetch().bus.word_in_page(s.fetch_value() as u16),
            indexed(s.after_fetch().bus.word_in_page(s.fetch_value() as u16), s.y),
        ),
        mode.yields(s.resolution(mode).operand),
{
    reveal(CpuState::resolution);
}

/// Clock cycles only ever go up: a step never takes any back.
pub proof fn lemma_cycles_monotonic(s: CpuState)
    ensures
        s.after_step().cycles >= s.cycles,
{
    reveal(CpuState::after_instruction);
    if s.fault() is None {
        crate::state::lemma_step_cycles(s);
    }
}

/// The instructions that set or clear Interrupt-disable leave the flag as
/// it is and only leave their value waiting. At the boundary behind them
/// the interrupt lines are still judged by the flag as it was: a maskable
/// interrupt that is asked for while the flag is clear is taken behind a
/// `SEI`, and one that is asked for while the flag is set is not taken
/// behind a `CLI`. Behind that boundary the flag has its new value.
pub proof fn lemma_interrupt_disable_is_delayed(s: CpuState, op: Op)
    requires
        op == Op::Sei || op == Op::Cli,
    ensures
        ({
            let done = s.executed(op, Operand::Implied);
            &&& done.p == s.p
            &&& done.pending_iflag == Some(op == Op::Sei)
            &&& done.polled_irq() == (!s.nmi && s.irq && !s.p.interrupt)
            &&& !done.polled_nmi() && !done.polled_irq() ==> done.after_boundary().p.interrupt
                == (op == Op::Sei)
            &&& done.polled_nmi() || done.polled_irq() ==> done.after_boundary().p.interrupt
            &&& done.after_boundary().pending_iflag is None
        }),
{
    reveal(CpuState::executed);
    reveal(CpuState::after_boundary);
}

/// The transfer to the stack pointer changes no flag, and a store writes
/// its own register and changes no flag either.
pub proof fn lemma_txs_and_stores_keep_flags(s: CpuState, addr: u16)
    requires
        addr != 0x4014,
    ensures
        s.executed(Op::Txs, Operand::Implied) == (CpuState { sp: s.x, ..s }),
        s.executed(Op::Sta, Operand::Memory(addr)) == (CpuState {
            bus: s.bus.stored(addr, s.a),
            ..s
        }),
        s.executed(Op::Stx, Operand::Memory(addr)) == (CpuState {
            bus: s.bus.stored(addr, s.x),
            ..s
        }),
        s.executed(Op::Sty, Operand::Memory(addr)) == (CpuState {
            bus: s.bus.stored(addr, s.y),
            ..s
        }),
{
    reveal(CpuState::executed);
}

/// A write to `0x4014` stalls the processor for exactly 513 cycles when it
/// comes on an even cycle and for 514 on an odd one, and any other write
/// costs nothing.
pub proof fn lemma_dma_cost(s: CpuState, addr: u16, value: u8)
    ensures
        addr == 0x4014 && s.cycles % 2 == 0 ==> s.after_write(addr, value).cycles == s.cycles + 513,
        addr == 0x4014 && s.cycles % 2 == 1 ==> s.after_write(addr, value).cycles == s.cycles + 514,
        addr != 0x4014 ==> s.after_write(addr, value).cycles == s.cycles,
        addr == 0x4014 ==> s.after_write(addr, value).bus == s.bus.stored(0x4014, value).sprite_dma(
            value,
            256,
        ),
{
}

/// The place in sprite memory that the byte number `i` of a transfer
/// reaches when the sprite address stood at `start`.
pub open spec fn sprite_slot(start: u8, i: int) -> int {
    (start + i) % 256
}

/// The place in work RAM that the byte number `i` of page `page` lies at.
pub open spec fn ram_slot(page: u8, i: int) -> int {
    (page * 256 + i) % 0x800
}

/// One step of a transfer from work RAM: the byte goes to sprite memory
/// at the sprite address, which moves on by one; nothing else changes.
pub proof fn lemma_copy_from_ram(bus: BusState, source: u16)
    requires
        source < 0x2000,
    ensures
        bus.touched(source).stored(0x2004, bus.peek(source)) == (BusState {
            ppu: PpuState {
                oam: bus.ppu.oam.update(bus.ppu.oamaddr as int, bus.ram[(source % 0x800) as int]),
                oamaddr: low_byte(bus.ppu.oamaddr + 1),
                ..bus.ppu
            },
            ..bus
        }),
{
}

/// Within one transfer no two bytes reach the same place in sprite memory.
pub proof fn lemma_sprite_slots(start: u8, i: int, j: int)
    requires
        0 <= i < j < 256,
    ensures
        sprite_slot(start, i) != sprite_slot(start, j),
{
}

/// The sprite address after `i` bytes of a transfer is the place that the
/// next byte reaches, and one byte more moves it on by one.
pub proof fn lemma_sprite_address(start: u8, i: int)
    requires
        0 <= i < 256,
    ensures
        low_byte(start + i) as int == sprite_slot(start, i),
        0 <= sprite_slot(start, i) < 256,
        low_byte(low_byte(start + i) + 1) == low_byte(start + i + 1),
{
}

/// A transfer from a page of work RAM copies the bytes of the page into
/// sprite memory in rising order, starting at the sprite address and
/// wrapping at its end. It leaves RAM as it was and moves the sprite
/// address on by the number of bytes; after all 256 the address is back
/// where it was.
pub proof fn lemma_dma_from_ram(bus: BusState, page: u8, count: nat)
    requires
        bus.wf(),
        page < 0x20,
        count <= 256,
    ensures
        ({
            let after = bus.sprite_dma(page, count);
            &&& after.wf()
            &&& after.ram == bus.ram
            &&& after.ppu == (PpuState {
                oam: after.ppu.oam,
                oamaddr: low_byte(bus.ppu.oamaddr + count),
                ..bus.ppu
            })
            &&& forall|i: int|
                0 <= i < count ==> after.ppu.oam[#[trigger] sprite_slot(bus.ppu.oamaddr, i)]
                    == bus.ram[ram_slot(page, i)]
        }),
    decreases count,
{
    if count > 0 {
        let last = (count - 1) as nat;
        let start = bus.ppu.oamaddr;
        lemma_dma_from_ram(bus, page, last);
        let before = bus.sprite_dma(page, last);
        let source = (page * 256 + last) as u16;
        let after = bus.sprite_dma(page, count);
        lemma_copy_from_ram(before, source);
        lemma_sprite_address(start, last as int);
        assert(before.ppu.oamaddr == low_byte(start + last));
        assert(low_byte(before.ppu.oamaddr + 1) == low_byte(start + count));
        assert((source % 0x800) as int == ram_slot(page, last as int));
        assert(after.ppu.oam == before.ppu.oam.update(
            sprite_slot(start, last as int),
            bus.ram[ram_slot(page, last as int)],
        ));
        assert forall|i: int| 0 <= i < count implies after.ppu.oam[#[trigger] sprite_slot(
            start,
            i,
        )] == bus.ram[ram_slot(page, i)] by {
            if i < last {
                lemma_sprite_slots(start, i, last as int);
                assert(before.ppu.oam[sprite_slot(start, i)] == bus.ram[ram_slot(page, i)]);
            }
        }
    }
}

} // verus!
