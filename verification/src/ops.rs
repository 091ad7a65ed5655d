use vstd::prelude::*;
use crate::alu::add_with_carry;
use crate::alu::compare;
use crate::alu::decrement;
use crate::alu::increment;
use crate::alu::shift_left;
use crate::alu::shift_right;
use crate::alu::subtract_with_borrow;
use crate::alu::AluResult;
use crate::cpu::Cpu;
use crate::cpu::MAX_DMA_CYCLES;
use crate::instr::Op;
use crate::instr::Operand;
use crate::modes::address_after;
use crate::modes::address_before;
use crate::state::lemma_executed_cycles;
use crate::state::CpuState;

verus! {

/// Reads the operand.
pub fn load(cpu: &mut Cpu, operand: Operand) -> (value: u8)
    ensures
        value == old(cpu)@.operand_value(operand),
        final(cpu)@ == old(cpu)@.after_load(operand),
{
    match operand {
        Operand::Implied => 0,
        Operand::Accumulator => cpu.a,
        Operand::Immediate(value) => value,
        Operand::Memory(addr) => cpu.read(addr),
    }
}

/// Writes `value` back to the operand, which must be able to take it: an
/// immediate operand cannot.
pub fn writeback(cpu: &mut Cpu, operand: Operand, value: u8)
    requires
        operand.writable(),
        old(cpu).cycles + MAX_DMA_CYCLES <= usize::MAX,
    ensures
        final(cpu)@ == old(cpu)@.after_store(operand, value),
{
    match operand {
        Operand::Accumulator => {
            cpu.a = value;
        },
        Operand::Memory(addr) => {
            cpu.write(addr, value);
        },
        _ => {
            vstd::pervasive::unreached()
        },
    }
}

/// The address that the operand of a jump or branch names.
pub fn target_of(operand: Operand) -> (addr: u16)
    requires
        operand is Memory,
    ensures
        addr == CpuState::target(operand),
        operand == Operand::Memory(addr),
{
    match operand {
        Operand::Memory(addr) => addr,
        _ => vstd::pervasive::unreached(),
    }
}

/// Puts the result of a shift or rotation into the flags and the operand.
pub fn finish_shift(cpu: &mut Cpu, operand: Operand, r: AluResult)
    requires
        operand.writable(),
        old(cpu).cycles + MAX_DMA_CYCLES <= usize::MAX,
    ensures
        final(cpu)@ == old(cpu)@.shifted(operand, r),
{
    cpu.p.carry = r.carry;
    cpu.p.set_zn(r.value);
    writeback(cpu, operand, r.value);
}

/// Puts the outcome of a comparison into the flags.
pub fn finish_compare(cpu: &mut Cpu, r: AluResult)
    ensures
        final(cpu)@ == old(cpu)@.compared(r),
{
    cpu.p.carry = r.carry;
    cpu.p.set_zn(r.value);
}

/// Puts the result of an addition or subtraction into the accumulator and
/// the flags.
pub fn finish_arithmetic(cpu: &mut Cpu, r: AluResult)
    ensures
        final(cpu)@ == old(cpu)@.accumulated(r),
{
    cpu.p.carry = r.carry;
    cpu.p.overflow = r.overflow;
    cpu.p.set_zn(r.value);
    cpu.a = r.value;
}

/// Adds the operand and the carry to the accumulator.
pub fn adc(cpu: &mut Cpu, operand: Operand)
    ensures
        final(cpu)@ == old(cpu)@.executed(Op::Adc, operand),
{
    proof {
        reveal(CpuState::executed);
    }
    let m = load(cpu, operand);
    let r = add_with_carry(cpu.a, m, cpu.p.carry);
    finish_arithmetic(cpu, r);
}

/// Bitwise and of the accumulator with the operand.
pub fn and(cpu: &mut Cpu, operand: Operand)
    ensures
        final(cpu)@ == old(cpu)@.executed(Op::And, operand),
{
    proof {
        reveal(CpuState::executed);
    }
    let m = load(cpu, operand);
    let result = cpu.a & m;
    cpu.p.set_zn(result);
    cpu.a = result;
}

/// Shifts the operand left by one bit; bit 7 goes to Carry.
pub fn asl(cpu: &mut Cpu, operand: Operand)
    requires
        operand.writable(),
        old(cpu).cycles + MAX_DMA_CYCLES <= usize::MAX,
    ensures
        final(cpu)@ == old(cpu)@.executed(Op::Asl, operand),
{
    proof {
        reveal(CpuState::executed);
    }
    let m = load(cpu, operand);
    finish_shift(cpu, operand, shift_left(m, false));
}

/// Branches if Carry is clear.
pub fn bcc(cpu: &mut Cpu, addr: u16)
    requires
        old(cpu).cycles + 2 <= usize::MAX,
    ensures
        final(cpu)@ == old(cpu)@.executed(Op::Bcc, Operand::Memory(addr)),
{
    proof {
        reveal(CpuState::executed);
    }
    cpu.branch(addr, !cpu.p.carry);
}

/// Branches if Carry is set.
pub fn bcs(cpu: &mut Cpu, addr: u16)
    requires
        old(cpu).cycles + 2 <= usize::MAX,
    ensures
        final(cpu)@ == old(cpu)@.executed(Op::Bcs, Operand::Memory(addr)),
{
    proof {
        reveal(CpuState::executed);
    }
    cpu.branch(addr, cpu.p.carry);
}

/// Branches if Zero is set.
pub fn beq(cpu: &mut Cpu, addr: u16)
    requires
        old(cpu).cycles + 2 <= usize::MAX,
    ensures
        final(cpu)@ == old(cpu)@.executed(Op::Beq, Operand::Memory(addr)),
{
    proof {
        reveal(CpuState::executed);
    }
    cpu.branch(addr, cpu.p.zero);
}

/// Branches if Negative is set.
pub fn bmi(cpu: &mut Cpu, addr: u16)
    requires
        old(cpu).cycles + 2 <= usize::MAX,
    ensures
        final(cpu)@ == old(cpu)@.executed(Op::Bmi, Operand::Memory(addr)),
{
    proof {
        reveal(CpuState::executed);
    }
    cpu.branch(addr, cpu.p.negative);
}

/// Branches if Zero is clear.
pub fn bne(cpu: &mut Cpu, addr: u16)
    requires
        old(cpu).cycles + 2 <= usize::MAX,
    ensures
        final(cpu)@ == old(cpu)@.executed(Op::Bne, Operand::Memory(addr)),
{
    proof {
        reveal(CpuState::executed);
    }
    cpu.branch(addr, !cpu.p.zero);
}

/// Branches if Negative is clear.
pub fn bpl(cpu: &mut Cpu, addr: u16)
    requires
        old(cpu).cycles + 2 <= usize::MAX,
    ensures
        final(cpu)@ == old(cpu)@.executed(Op::Bpl, Operand::Memory(addr)),
{
    proof {
        reveal(CpuState::executed);
    }
    cpu.branch(addr, !cpu.p.negative);
}

/// Branches if Overflow is clear.
pub fn bvc(cpu: &mut Cpu, addr: u16)
    requires
        old(cpu).cycles + 2 <= usize::MAX,
    ensures
        final(cpu)@ == old(cpu)@.executed(Op::Bvc, Operand::Memory(addr)),
{
    proof {
        reveal(CpuState::executed);
    }
    cpu.branch(addr, !cpu.p.overflow);
}

/// Branches if Overflow is set.
pub fn bvs(cpu: &mut Cpu, addr: u16)
    requires
        old(cpu).cycles + 2 <= usize::MAX,
    ensures
        final(cpu)@ == old(cpu)@.executed(Op::Bvs, Operand::Memory(addr)),
{
    proof {
        reveal(CpuState::executed);
    }
    cpu.branch(addr, cpu.p.overflow);
}

/// Tests the operand against the accumulator: Negative and Overflow take
/// bits 7 and 6 of the operand, Zero tells whether the two have no bit in
/// common.
pub fn bit(cpu: &mut Cpu, operand: Operand)
    ensures
        final(cpu)@ == old(cpu)@.executed(Op::Bit, operand),
{
    proof {
        reveal(CpuState::executed);
    }
    let m = load(cpu, operand);
    assert((m & 0x80 != 0) == (m >= 128) && (m & 0x40 != 0) == (m / 64 % 2 == 1)) by (bit_vector);
    cpu.p.negative = m & 0x80 != 0;
    cpu.p.overflow = m & 0x40 != 0;
    cpu.p.zero = cpu.a & m == 0;
}

/// Compares the accumulator with the operand.
pub fn cmp(cpu: &mut Cpu, operand: Operand)
    ensures
        final(cpu)@ == old(cpu)@.executed(Op::Cmp, operand),
{
    proof {
        reveal(CpuState::executed);
    }
    let m = load(cpu, operand);
    finish_compare(cpu, compare(cpu.a, m));
}

/// Compares X with the operand.
pub fn cpx(cpu: &mut Cpu, operand: Operand)
    ensures
        final(cpu)@ == old(cpu)@.executed(Op::Cpx, operand),
{
    proof {
        reveal(CpuState::executed);
    }
    let m = load(cpu, operand);
    finish_compare(cpu, compare(cpu.x, m));
}

/// Compares Y with the operand.
pub fn cpy(cpu: &mut Cpu, operand: Operand)
    ensures
        final(cpu)@ == old(cpu)@.executed(Op::Cpy, operand),
{
    proof {
        reveal(CpuState::executed);
    }
    let m = load(cpu, operand);
    finish_compare(cpu, compare(cpu.y, m));
}

/// Counts the operand down by one, wrapping at zero.
pub fn dec(cpu: &mut Cpu, operand: Operand)
    requires
        operand.writable(),
        old(cpu).cycles + MAX_DMA_CYCLES <= usize::MAX,
    ensures
        final(cpu)@ == old(cpu)@.executed(Op::Dec, operand),
{
    proof {
        reveal(CpuState::executed);
    }
    let m = load(cpu, operand);
    let result = decrement(m);
    cpu.p.set_zn(result);
    writeback(cpu, operand, result);
}

/// Bitwise exclusive or of the accumulator with the operand.
pub fn eor(cpu: &mut Cpu, operand: Operand)
    ensures
        final(cpu)@ == old(cpu)@.executed(Op::Eor, operand),
{
    proof {
        reveal(CpuState::executed);
    }
    let m = load(cpu, operand);
    let result = cpu.a ^ m;
    cpu.p.set_zn(result);
    cpu.a = result;
}

/// Counts the operand up by one, wrapping at 255.
pub fn inc(cpu: &mut Cpu, operand: Operand)
    requires
        operand.writable(),
        old(cpu).cycles + MAX_DMA_CYCLES <= usize::MAX,
    ensures
        final(cpu)@ == old(cpu)@.executed(Op::Inc, operand),
{
    proof {
        reveal(CpuState::executed);
    }
    let m = load(cpu, operand);
    let result = increment(m);
    cpu.p.set_zn(result);
    writeback(cpu, operand, result);
}

/// Goes to `addr`.
pub fn jmp(cpu: &mut Cpu, addr: u16)
    ensures
        final(cpu)@ == old(cpu)@.executed(Op::Jmp, Operand::Memory(addr)),
{
    proof {
        reveal(CpuState::executed);
    }
    cpu.pc = addr;
}

/// Pushes the address of the last byte of the instruction, then jumps.
pub fn jsr(cpu: &mut Cpu, addr: u16)
    ensures
        final(cpu)@ == old(cpu)@.executed(Op::Jsr, Operand::Memory(addr)),
{
    proof {
        reveal(CpuState::executed);
    }
    let ret = address_before(cpu.pc);
    cpu.push16(ret);
    cpu.pc = addr;
}

/// Loads the accumulator.
pub fn lda(cpu: &mut Cpu, operand: Operand)
    ensures
        final(cpu)@ == old(cpu)@.executed(Op::Lda, operand),
{
    proof {
        reveal(CpuState::executed);
    }
    let m = load(cpu, operand);
    cpu.p.set_zn(m);
    cpu.a = m;
}

/// Loads X.
pub fn ldx(cpu: &mut Cpu, operand: Operand)
    ensures
        final(cpu)@ == old(cpu)@.executed(Op::Ldx, operand),
{
    proof {
        reveal(CpuState::executed);
    }
    let m = load(cpu, operand);
    cpu.p.set_zn(m);
    cpu.x = m;
}

/// Loads Y.
pub fn ldy(cpu: &mut Cpu, operand: Operand)
    ensures
        final(cpu)@ == old(cpu)@.executed(Op::Ldy, operand),
{
    proof {
        reveal(CpuState::executed);
    }
    let m = load(cpu, operand);
    cpu.p.set_zn(m);
    cpu.y = m;
}

/// Shifts the operand right by one bit; bit 0 goes to Carry.
pub fn lsr(cpu: &mut Cpu, operand: Operand)
    requires
        operand.writable(),
        old(cpu).cycles + MAX_DMA_CYCLES <= usize::MAX,
    ensures
        final(cpu)@ == old(cpu)@.executed(Op::Lsr, operand),
{
    proof {
        reveal(CpuState::executed);
    }
    let m = load(cpu, operand);
    finish_shift(cpu, operand, shift_right(m, false));
}

/// Bitwise or of the accumulator with the operand.
pub fn ora(cpu: &mut Cpu, operand: Operand)
    ensures
        final(cpu)@ == old(cpu)@.executed(Op::Ora, operand),
{
    proof {
        reveal(CpuState::executed);
    }
    let m = load(cpu, operand);
    let result = cpu.a | m;
    cpu.p.set_zn(result);
    cpu.a = result;
}

/// Rotates the operand left through Carry.
pub fn rol(cpu: &mut Cpu, operand: Operand)
    requires
        operand.writable(),
        old(cpu).cycles + MAX_DMA_CYCLES <= usize::MAX,
    ensures
        final(cpu)@ == old(cpu)@.executed(Op::Rol, operand),
{
    proof {
        reveal(CpuState::executed);
    }
    let m = load(cpu, operand);
    let r = shift_left(m, cpu.p.carry);
    finish_shift(cpu, operand, r);
}

/// Rotates the operand right through Carry.
pub fn ror(cpu: &mut Cpu, operand: Operand)
    requires
        operand.writable(),
        old(cpu).cycles + MAX_DMA_CYCLES <= usize::MAX,
    ensures
        final(cpu)@ == old(cpu)@.executed(Op::Ror, operand),
{
    proof {
        reveal(CpuState::executed);
    }
    let m = load(cpu, operand);
    let r = shift_right(m, cpu.p.carry);
    finish_shift(cpu, operand, r);
}

/// Subtracts the operand and the borrow from the accumulator.
pub fn sbc(cpu: &mut Cpu, operand: Operand)
    ensures
        final(cpu)@ == old(cpu)@.executed(Op::Sbc, operand),
{
    proof {
        reveal(CpuState::executed);
    }
    let m = load(cpu, operand);
    let r = subtract_with_borrow(cpu.a, m, cpu.p.carry);
    finish_arithmetic(cpu, r);
}

/// Stores the accumulator.
pub fn sta(cpu: &mut Cpu, operand: Operand)
    requires
        operand.writable(),
        old(cpu).cycles + MAX_DMA_CYCLES <= usize::MAX,
    ensures
        final(cpu)@ == old(cpu)@.executed(Op::Sta, operand),
{
    proof {
        reveal(CpuState::executed);
    }
    writeback(cpu, operand, cpu.a);
}

/// Stores X.
pub fn stx(cpu: &mut Cpu, operand: Operand)
    requires
        operand.writable(),
        old(cpu).cycles + MAX_DMA_CYCLES <= usize::MAX,
    ensures
        final(cpu)@ == old(cpu)@.executed(Op::Stx, operand),
{
    proof {
        reveal(CpuState::executed);
    }
    writeback(cpu, operand, cpu.x);
}

/// Stores Y.
pub fn sty(cpu: &mut Cpu, operand: Operand)
    requires
        operand.writable(),
        old(cpu).cycles + MAX_DMA_CYCLES <= usize::MAX,
    ensures
        final(cpu)@ == old(cpu)@.executed(Op::Sty, operand),
{
    proof {
        reveal(CpuState::executed);
    }
    writeback(cpu, operand, cpu.y);
}

/// Software interrupt through the vector at `0xfffe`, with Break set in
/// the pushed status.
pub fn brk(cpu: &mut Cpu)
    ensures
        final(cpu)@ == old(cpu)@.executed(Op::Brk, Operand::Implied),
{
    proof {
        reveal(CpuState::executed);
    }
    cpu.do_interrupt(0xfffe, true);
}

/// Pushes the status with Break set.
pub fn php(cpu: &mut Cpu)
    ensures
        final(cpu)@ == old(cpu)@.executed(Op::Php, Operand::Implied),
{
    proof {
        reveal(CpuState::executed);
    }
    let mut flags = cpu.p;
    flags.brk = true;
    cpu.push(flags.as_byte());
}

/// Pulls the status. Interrupt-disable keeps its value until the
/// instruction is over; the pulled value waits.
pub fn plp(cpu: &mut Cpu)
    ensures
        final(cpu)@ == old(cpu)@.executed(Op::Plp, Operand::Implied),
{
    proof {
        reveal(CpuState::executed);
    }
    let kept = cpu.p.interrupt;
    let byte = cpu.pop();
    cpu.p.set(byte);
    let pulled = cpu.p.interrupt;
    cpu.p.interrupt = kept;
    cpu.delayed_set_iflag = Some(pulled);
}

/// Pushes the accumulator.
pub fn pha(cpu: &mut Cpu)
    ensures
        final(cpu)@ == old(cpu)@.executed(Op::Pha, Operand::Implied),
{
    proof {
        reveal(CpuState::executed);
    }
    cpu.push(cpu.a);
}

/// Pulls the accumulator and sets Zero and Negative from it.
pub fn pla(cpu: &mut Cpu)
    ensures
        final(cpu)@ == old(cpu)@.executed(Op::Pla, Operand::Implied),
{
    proof {
        reveal(CpuState::executed);
    }
    let value = cpu.pop();
    cpu.p.set_zn(value);
    cpu.a = value;
}

/// Returns from an interrupt: pulls the status, then the program counter.
pub fn rti(cpu: &mut Cpu)
    ensures
        final(cpu)@ == old(cpu)@.executed(Op::Rti, Operand::Implied),
{
    proof {
        reveal(CpuState::executed);
    }
    let byte = cpu.pop();
    cpu.p.set(byte);
    cpu.pc = cpu.pop16();
}

/// Returns from a subroutine: pulls the address that `jsr` pushed and
/// goes to the byte behind it.
pub fn rts(cpu: &mut Cpu)
    ensures
        final(cpu)@ == old(cpu)@.executed(Op::Rts, Operand::Implied),
{
    proof {
        reveal(CpuState::executed);
    }
    let ret = cpu.pop16();
    cpu.pc = address_after(ret);
}

/// Does nothing.
pub fn nop(cpu: &mut Cpu)
    ensures
        final(cpu)@ == old(cpu)@.executed(Op::Nop, Operand::Implied),
{
    proof {
        reveal(CpuState::executed);
    }
}

/// The instructions that only set or clear one flag. Those on
/// Interrupt-disable leave their value waiting until the instruction is
/// over.
pub fn set_flag(cpu: &mut Cpu, op: Op)
    requires
        op == Op::Clc || op == Op::Cld || op == Op::Cli || op == Op::Clv || op == Op::Sec || op
            == Op::Sed || op == Op::Sei,
    ensures
        final(cpu)@ == old(cpu)@.executed(op, Operand::Implied),
{
    proof {
        reveal(CpuState::executed);
    }
    match op {
        Op::Clc => {
            cpu.p.carry = false;
        },
        Op::Cld => {
            cpu.p.decimal = false;
        },
        Op::Cli => {
            cpu.delayed_set_iflag = Some(false);
        },
        Op::Clv => {
            cpu.p.overflow = false;
        },
        Op::Sec => {
            cpu.p.carry = true;
        },
        Op::Sed => {
            cpu.p.decimal = true;
        },
        _ => {
            cpu.delayed_set_iflag = Some(true);
        },
    }
}

/// The transfers between registers. All but the one to the stack pointer
/// set Zero and Negative.
pub fn transfer(cpu: &mut Cpu, op: Op)
    requires
        op == Op::Tax || op == Op::Tay || op == Op::Tsx || op == Op::Txa || op == Op::Txs || op
            == Op::Tya,
    ensures
        final(cpu)@ == old(cpu)@.executed(op, Operand::Implied),
{
    proof {
        reveal(CpuState::executed);
    }
    match op {
        Op::Tax => {
            cpu.p.set_zn(cpu.a);
            cpu.x = cpu.a;
        },
        Op::Tay => {
            cpu.p.set_zn(cpu.a);
            cpu.y = cpu.a;
        },
        Op::Tsx => {
            cpu.p.set_zn(cpu.sp);
            cpu.x = cpu.sp;
        },
        Op::Txa => {
            cpu.p.set_zn(cpu.x);
            cpu.a = cpu.x;
        },
        Op::Txs => {
            cpu.sp = cpu.x;
        },
        _ => {
            cpu.p.set_zn(cpu.y);
            cpu.a = cpu.y;
        },
    }
}

/// The instructions that count an index register up or down.
pub fn count_index(cpu: &mut Cpu, op: Op)
    requires
        op == Op::Dex || op == Op::Dey || op == Op::Inx || op == Op::Iny,
    ensures
        final(cpu)@ == old(cpu)@.executed(op, Operand::Implied),
{
    proof {
        reveal(CpuState::executed);
    }
    match op {
        Op::Dex => {
            let result = decrement(cpu.x);
            cpu.p.set_zn(result);
            cpu.x = result;
        },
        Op::Dey => {
            let result = decrement(cpu.y);
            cpu.p.set_zn(result);
            cpu.y = result;
        },
        Op::Inx => {
            let result = increment(cpu.x);
            cpu.p.set_zn(result);
            cpu.x = result;
        },
        _ => {
            let result = increment(cpu.y);
            cpu.p.set_zn(result);
            cpu.y = result;
        },
    }
}

/// Carries `op` out on `operand`. The operand must have a form that the
/// operation accepts.
pub fn execute(cpu: &mut Cpu, op: Op, operand: Operand)
    requires
        op.accepts(operand),
        old(cpu).cycles + MAX_DMA_CYCLES <= usize::MAX,
    ensures
        final(cpu)@ == old(cpu)@.executed(op, operand),
        old(cpu).cycles <= final(cpu).cycles <= old(cpu).cycles + MAX_DMA_CYCLES,
{
    proof {
        lemma_executed_cycles(cpu@, op, operand);
    }
    match op {
        Op::Adc => adc(cpu, operand),
        Op::And => and(cpu, operand),
        Op::Asl => asl(cpu, operand),
        Op::Bcc => bcc(cpu, target_of(operand)),
        Op::Bcs => bcs(cpu, target_of(operand)),
        Op::Beq => beq(cpu, target_of(operand)),
        Op::Bit => bit(cpu, operand),
        Op::Bmi => bmi(cpu, target_of(operand)),
        Op::Bne => bne(cpu, target_of(operand)),
        Op::Bpl => bpl(cpu, target_of(operand)),
        Op::Brk => brk(cpu),
        Op::Bvc => bvc(cpu, target_of(operand)),
        Op::Bvs => bvs(cpu, target_of(operand)),
        Op::Clc | Op::Cld | Op::Cli | Op::Clv | Op::Sec | Op::Sed | Op::Sei => set_flag(cpu, op),
        Op::Cmp => cmp(cpu, operand),
        Op::Cpx => cpx(cpu, operand),
        Op::Cpy => cpy(cpu, operand),
        Op::Dec => dec(cpu, operand),
        Op::Dex | Op::Dey | Op::Inx | Op::Iny => count_index(cpu, op),
        Op::Eor => eor(cpu, operand),
        Op::Inc => inc(cpu, operand),
        Op::Jmp => jmp(cpu, target_of(operand)),
        Op::Jsr => jsr(cpu, target_of(operand)),
        Op::Lda => lda(cpu, operand),
        Op::Ldx => ldx(cpu, operand),
        Op::Ldy => ldy(cpu, operand),
        Op::Lsr => lsr(cpu, operand),
        Op::Nop => nop(cpu),
        Op::Ora => ora(cpu, operand),
        Op::Pha => pha(cpu),
        Op::Php => php(cpu),
        Op::Pla => pla(cpu),
        Op::Plp => plp(cpu),
        Op::Rol => rol(cpu, operand),
        Op::Ror => ror(cpu, operand),
        Op::Rti => rti(cpu),
        Op::Rts => rts(cpu),
        Op::Sbc => sbc(cpu, operand),
        Op::Sta => sta(cpu, operand),
        Op::Stx => stx(cpu, operand),
        Op::Sty => sty(cpu, operand),
        Op::Tax | Op::Tay | Op::Tsx | Op::Txa | Op::Txs | Op::Tya => transfer(cpu, op),
    }
}

} // verus!
