use vstd::prelude::*;
use crate::cpu::page_crossed;
use crate::cpu::Cpu;
use crate::instr::AddrMode;
use crate::instr::Operand;
use crate::memory::Mem;
use crate::state::branch_target;
use crate::state::indexed;
use crate::state::low_word;
use crate::state::zero_page_indexed;
use crate::state::CpuState;
use crate::state::Resolved;

verus! {

/// The address `index` bytes after `base`, wrapping at 16 bits.
pub fn index_address(base: u16, index: u8) -> (addr: u16)
    ensures
        addr == indexed(base, index),
{
    base.wrapping_add(index as u16)
}

/// The zero-page address `index` bytes after `base`, wrapping in page 0.
pub fn index_zero_page(base: u8, index: u8) -> (addr: u16)
    ensures
        addr == zero_page_indexed(base, index),
{
    base.wrapping_add(index) as u16
}

/// The address at the signed distance `offset` from `pc`.
pub fn relative_address(pc: u16, offset: u8) -> (addr: u16)
    ensures
        addr == branch_target(pc, offset),
{
    if offset < 0x80 {
        pc.wrapping_add(offset as u16)
    } else {
        pc.wrapping_sub(0x100 - offset as u16)
    }
}

/// The address before `addr`, wrapping at 16 bits.
pub fn address_before(addr: u16) -> (before: u16)
    ensures
        before == low_word(addr - 1),
{
    addr.wrapping_sub(1)
}

/// The address after `addr`, wrapping at 16 bits.
pub fn address_after(addr: u16) -> (after: u16)
    ensures
        after == low_word(addr + 1),
{
    addr.wrapping_add(1)
}

/// Implied: the instruction has no operand.
pub fn implied(cpu: &Cpu) -> (r: Resolved)
    ensures
        r == cpu@.resolution(AddrMode::Implied),
{
    proof {
        reveal(CpuState::resolution);
        reveal(CpuState::after_resolve);
    }
    Resolved { operand: Operand::Implied, crossed: false }
}

/// Immediate: the operand is the next byte of the instruction.
pub fn imm(cpu: &mut Cpu) -> (r: Resolved)
    ensures
        r == old(cpu)@.resolution(AddrMode::Immediate),
        final(cpu)@ == old(cpu)@.after_resolve(AddrMode::Immediate),
{
    proof {
        reveal(CpuState::resolution);
        reveal(CpuState::after_resolve);
    }
    Resolved { operand: Operand::Immediate(cpu.read_increment_pc()), crossed: false }
}

/// Accumulator: the operand is the accumulator.
pub fn acc(cpu: &Cpu) -> (r: Resolved)
    ensures
        r == cpu@.resolution(AddrMode::Accumulator),
{
    proof {
        reveal(CpuState::resolution);
        reveal(CpuState::after_resolve);
    }
    Resolved { operand: Operand::Accumulator, crossed: false }
}

/// Zero page: the next byte is an address in page 0.
pub fn zero(cpu: &mut Cpu) -> (r: Resolved)
    ensures
        r == old(cpu)@.resolution(AddrMode::ZeroPage),
        final(cpu)@ == old(cpu)@.after_resolve(AddrMode::ZeroPage),
{
    proof {
        reveal(CpuState::resolution);
        reveal(CpuState::after_resolve);
    }
    Resolved { operand: Operand::Memory(cpu.read_increment_pc() as u16), crossed: false }
}

/// Zero page,X: the next byte plus X, wrapping inside page 0.
pub fn zero_x(cpu: &mut Cpu) -> (r: Resolved)
    ensures
        r == old(cpu)@.resolution(AddrMode::ZeroPageX),
        final(cpu)@ == old(cpu)@.after_resolve(AddrMode::ZeroPageX),
{
    proof {
        reveal(CpuState::resolution);
        reveal(CpuState::after_resolve);
    }
    let base = cpu.read_increment_pc();
    Resolved { operand: Operand::Memory(index_zero_page(base, cpu.x)), crossed: false }
}

/// Zero page,Y: the next byte plus Y, wrapping inside page 0.
pub fn zero_y(cpu: &mut Cpu) -> (r: Resolved)
    ensures
        r == old(cpu)@.resolution(AddrMode::ZeroPageY),
        final(cpu)@ == old(cpu)@.after_resolve(AddrMode::ZeroPageY),
{
    proof {
        reveal(CpuState::resolution);
        reveal(CpuState::after_resolve);
    }
    let base = cpu.read_increment_pc();
    Resolved { operand: Operand::Memory(index_zero_page(base, cpu.y)), crossed: false }
}

/// Absolute: the next two bytes are the address.
pub fn abs(cpu: &mut Cpu) -> (r: Resolved)
    ensures
        r == old(cpu)@.resolution(AddrMode::Absolute),
        final(cpu)@ == old(cpu)@.after_resolve(AddrMode::Absolute),
{
    proof {
        reveal(CpuState::resolution);
        reveal(CpuState::after_resolve);
    }
    Resolved { operand: Operand::Memory(cpu.read16_increment_pc()), crossed: false }
}

/// Absolute,X: the next two bytes plus X, wrapping at 16 bits. A sum on
/// another page than the base is a page crossing.
pub fn abs_x(cpu: &mut Cpu) -> (r: Resolved)
    ensures
        r == old(cpu)@.resolution(AddrMode::AbsoluteX),
        final(cpu)@ == old(cpu)@.after_resolve(AddrMode::AbsoluteX),
{
    proof {
        reveal(CpuState::resolution);
        reveal(CpuState::after_resolve);
    }
    let base = cpu.read16_increment_pc();
    let addr = index_address(base, cpu.x);
    Resolved { operand: Operand::Memory(addr), crossed: page_crossed(base, addr) }
}

/// Absolute,Y: the next two bytes plus Y, wrapping at 16 bits. A sum on
/// another page than the base is a page crossing.
pub fn abs_y(cpu: &mut Cpu) -> (r: Resolved)
    ensures
        r == old(cpu)@.resolution(AddrMode::AbsoluteY),
        final(cpu)@ == old(cpu)@.after_resolve(AddrMode::AbsoluteY),
{
    proof {
        reveal(CpuState::resolution);
        reveal(CpuState::after_resolve);
    }
    let base = cpu.read16_increment_pc();
    let addr = index_address(base, cpu.y);
    Resolved { operand: Operand::Memory(addr), crossed: page_crossed(base, addr) }
}

/// Indirect: the next two bytes point at the address, whose high byte is
/// read from the same page as its low byte.
pub fn indir(cpu: &mut Cpu) -> (r: Resolved)
    ensures
        r == old(cpu)@.resolution(AddrMode::Indirect),
        final(cpu)@ == old(cpu)@.after_resolve(AddrMode::Indirect),
{
    proof {
        reveal(CpuState::resolution);
        reveal(CpuState::after_resolve);
    }
    let at = cpu.read16_increment_pc();
    Resolved { operand: Operand::Memory(cpu.mem.read16_wrapped(at)), crossed: false }
}

/// (Indirect,X): the next byte plus X, wrapping inside page 0, points at
/// the address.
pub fn idx_indir(cpu: &mut Cpu) -> (r: Resolved)
    ensures
        r == old(cpu)@.resolution(AddrMode::IndirectX),
        final(cpu)@ == old(cpu)@.after_resolve(AddrMode::IndirectX),
{
    proof {
        reveal(CpuState::resolution);
        reveal(CpuState::after_resolve);
    }
    let base = cpu.read_increment_pc();
    let at = index_zero_page(base, cpu.x);
    Resolved { operand: Operand::Memory(cpu.mem.read16_wrapped(at)), crossed: false }
}

/// (Indirect),Y: the next byte points at a base address in page 0, to
/// which Y is added. A sum on another page than the base is a page
/// crossing.
pub fn indir_idx(cpu: &mut Cpu) -> (r: Resolved)
    ensures
        r == old(cpu)@.resolution(AddrMode::IndirectY),
        final(cpu)@ == old(cpu)@.after_resolve(AddrMode::IndirectY),
{
    proof {
        reveal(CpuState::resolution);
        reveal(CpuState::after_resolve);
    }
    let at = cpu.read_increment_pc();
    let base = cpu.mem.read16_wrapped(at as u16);
    let addr = index_address(base, cpu.y);
    Resolved { operand: Operand::Memory(addr), crossed: page_crossed(base, addr) }
}

/// Relative: the next byte is a signed distance from the instruction that
/// follows.
pub fn relative(cpu: &mut Cpu) -> (r: Resolved)
    ensures
        r == old(cpu)@.resolution(AddrMode::Relative),
        final(cpu)@ == old(cpu)@.after_resolve(AddrMode::Relative),
{
    proof {
        reveal(CpuState::resolution);
        reveal(CpuState::after_resolve);
    }
    let offset = cpu.read_increment_pc();
    Resolved { operand: Operand::Memory(relative_address(cpu.pc, offset)), crossed: false }
}

/// Resolves `mode` with the program counter behind the opcode.
pub fn resolve(cpu: &mut Cpu, mode: AddrMode) -> (r: Resolved)
    ensures
        r == old(cpu)@.resolution(mode),
        final(cpu)@ == old(cpu)@.after_resolve(mode),
        mode.yields(r.operand),
        final(cpu).cycles == old(cpu).cycles,
{
    proof {
        reveal(CpuState::resolution);
        reveal(CpuState::after_resolve);
    }
    match mode {
        AddrMode::Implied => implied(cpu),
        AddrMode::Accumulator => acc(cpu),
        AddrMode::Immediate => imm(cpu),
        AddrMode::ZeroPage => zero(cpu),
        AddrMode::ZeroPageX => zero_x(cpu),
        AddrMode::ZeroPageY => zero_y(cpu),
        AddrMode::Absolute => abs(cpu),
        AddrMode::AbsoluteX => abs_x(cpu),
        AddrMode::AbsoluteY => abs_y(cpu),
        AddrMode::Indirect => indir(cpu),
        AddrMode::IndirectX => idx_indir(cpu),
        AddrMode::IndirectY => indir_idx(cpu),
        AddrMode::Relative => relative(cpu),
    }
}

} // verus!
