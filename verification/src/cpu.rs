use vstd::prelude::*;
use crate::instr::decode;
use crate::instr::lemma_accepts;
use crate::memory::make_word;
use crate::memory::CpuMem;
use crate::memory::Mem;
use crate::modes::resolve;
use crate::ops::execute;
use crate::state::cycles_left;
use crate::state::spec_page_crossed;
use crate::state::CpuState;
use crate::state::Fault;
use crate::status::Status;

verus! {

/// The most cycles that one sprite memory transfer can stall the processor.
pub const MAX_DMA_CYCLES: usize = 514;

/// The most cycles that one instruction can take, a transfer included.
pub const MAX_INSTRUCTION_CYCLES: usize = 522;

/// The most cycles that one instruction and the interrupt behind it can take.
pub const MAX_STEP_CYCLES: usize = 529;

/// The processor with its bus.
pub struct Cpu {
    pub a: u8,
    pub x: u8,
    pub y: u8,
    pub sp: u8,
    pub p: Status,
    pub pc: u16,
    pub mem: CpuMem,
    /// Clock cycles since power-on.
    pub cycles: usize,
    /// The non-maskable interrupt line.
    pub nmi: bool,
    /// The maskable interrupt line.
    pub irq: bool,
    /// The value that Interrupt-disable takes when the instruction is over.
    pub delayed_set_iflag: Option<bool>,
}

impl View for Cpu {
    type V = CpuState;

    open spec fn view(&self) -> CpuState {
        CpuState {
            a: self.a,
            x: self.x,
            y: self.y,
            sp: self.sp,
            p: self.p,
            pc: self.pc,
            bus: self.mem@,
            cycles: self.cycles as nat,
            nmi: self.nmi,
            irq: self.irq,
            pending_iflag: self.delayed_set_iflag,
        }
    }
}

/// Whether two addresses lie on different pages.
pub fn page_crossed(addr1: u16, addr2: u16) -> (crossed: bool)
    ensures
        crossed == spec_page_crossed(addr1, addr2),
{
    assert(((addr1 & 0xff00) != (addr2 & 0xff00)) == (addr1 / 256 != addr2 / 256)) by (bit_vector);
    addr1 & 0xff00 != addr2 & 0xff00
}

impl Cpu {
    /// A processor at power-on, on a bus at power-on.
    pub fn new() -> (cpu: Cpu)
        ensures
            cpu@ == CpuState::power_on(),
    {
        Cpu {
            a: 0,
            x: 0,
            y: 0,
            sp: 0xfd,
            pc: 0,
            p: Status::new(),
            mem: CpuMem::new(),
            cycles: 0,
            nmi: false,
            irq: false,
            delayed_set_iflag: None,
        }
    }

    /// The bus of every processor has its memories at full size.
    pub proof fn lemma_wf(&self)
        ensures
            self@.wf(),
    {
        self.mem.lemma_wf();
    }

    /// One clock cycle passes.
    pub fn tick(&mut self)
        requires
            old(self).cycles < usize::MAX,
        ensures
            final(self)@ == old(self)@.charged(1),
    {
        self.cycles += 1;
    }

    /// Reads a byte from the bus.
    pub fn read(&mut self, addr: u16) -> (value: u8)
        ensures
            value == old(self)@.bus.peek(addr),
            final(self)@ == old(self)@.after_read(addr),
    {
        self.mem.read(addr)
    }

    /// Writes a byte to the bus. A write to `0x4014` starts the sprite
    /// memory transfer from the page that `value` names.
    pub fn write(&mut self, addr: u16, value: u8)
        requires
            old(self).cycles + MAX_DMA_CYCLES <= usize::MAX,
        ensures
            final(self)@ == old(self)@.after_write(addr, value),
    {
        self.mem.write(addr, value);
        if addr == 0x4014 {
            self.do_dma(value);
        }
    }

    /// Reads the byte at the program counter and moves the counter on.
    pub fn read_increment_pc(&mut self) -> (value: u8)
        ensures
            value == old(self)@.fetch_value(),
            final(self)@ == old(self)@.after_fetch(),
    {
        let value = self.mem.read(self.pc);
        self.pc = self.pc.wrapping_add(1);
        value
    }

    /// Reads the little-endian word at the program counter and moves the
    /// counter past it.
    pub fn read16_increment_pc(&mut self) -> (value: u16)
        ensures
            value == old(self)@.fetch16_value(),
            final(self)@ == old(self)@.after_fetch16(),
    {
        let lo = self.read_increment_pc();
        let hi = self.read_increment_pc();
        make_word(lo, hi)
    }

    /// Pushes a byte on the stack in page 1; the stack pointer wraps.
    pub fn push(&mut self, value: u8)
        ensures
            final(self)@ == old(self)@.pushed(value),
    {
        self.mem.write(self.sp as u16 + 0x0100, value);
        self.sp = self.sp.wrapping_sub(1);
    }

    /// Pushes a word, high byte first.
    pub fn push16(&mut self, value: u16)
        ensures
            final(self)@ == old(self)@.pushed16(value),
    {
        assert(value >> 8 == value / 256 && value & 0xff == value % 256) by (bit_vector);
        self.push((value >> 8) as u8);
        self.push((value & 0xff) as u8);
    }

    /// Pops a byte off the stack; the stack pointer wraps.
    pub fn pop(&mut self) -> (value: u8)
        ensures
            value == old(self)@.pop_value(),
            final(self)@ == old(self)@.popped(),
    {
        self.sp = self.sp.wrapping_add(1);
        self.mem.read(self.sp as u16 + 0x0100)
    }

    /// Pops a word, low byte first.
    pub fn pop16(&mut self) -> (value: u16)
        ensures
            value == old(self)@.pop16_value(),
            final(self)@ == old(self)@.popped16(),
    {
        let lo = self.pop();
        let hi = self.pop();
        make_word(lo, hi)
    }

    /// Goes to `addr` if `condition` holds. A branch that is taken costs a
    /// cycle, and another when `addr` lies on another page than the
    /// instruction that follows the branch.
    pub fn branch(&mut self, addr: u16, condition: bool)
        requires
            old(self).cycles + 2 <= usize::MAX,
        ensures
            final(self)@ == old(self)@.branched(addr, condition),
    {
        if condition {
            self.tick();
            if page_crossed(self.pc, addr) {
                self.tick();
            }
            self.pc = addr;
        }
    }

    /// Copies the 256 bytes of page `value` to the sprite data register,
    /// lowest address first, and stalls the processor for 513 cycles, or
    /// 514 when the transfer starts on an odd cycle.
    pub fn do_dma(&mut self, value: u8)
        requires
            old(self).cycles + MAX_DMA_CYCLES <= usize::MAX,
        ensures
            final(self)@ == old(self)@.transferred(value),
    {
        if self.cycles % 2 != 0 {
            self.cycles += 514;
        } else {
            self.cycles += 513;
        }
        let base: u16 = (value as u16) << 8;
        assert((value as u16) << 8 == (value as u16) * 256) by (bit_vector);
        let ghost charged = self@;
        let mut offset: u16 = 0;
        while offset < 0x100
            invariant
                offset <= 0x100,
                base == value * 256,
                self@ == (CpuState { bus: old(self)@.bus.sprite_dma(value, offset as nat), ..charged }),
            decreases 0x100 - offset,
        {
            let byte = self.mem.read(base + offset);
            self.mem.write(0x2004, byte);
            offset += 1;
        }
    }

    /// The interrupt sequence: pushes the program counter and the status
    /// with Break as `isbrk` says, sets Interrupt-disable and loads the
    /// program counter from `vector`.
    pub fn do_interrupt(&mut self, vector: u16, isbrk: bool)
        ensures
            final(self)@ == old(self)@.interrupted(vector, isbrk),
    {
        self.push16(self.pc);
        let mut flags = self.p;
        flags.brk = isbrk;
        self.push(flags.as_byte());
        self.p.interrupt = true;
        self.pc = self.mem.read16(vector);
    }

    /// Fetches, decodes and carries out one instruction. An opcode that
    /// stands for no instruction is a fault: it is reported with the
    /// address it was fetched from, and the program counter stays there.
    pub fn run_instruction(&mut self) -> (outcome: Result<(), Fault>)
        requires
            old(self).cycles + MAX_INSTRUCTION_CYCLES <= usize::MAX,
        ensures
            final(self)@ == old(self)@.after_instruction(),
            outcome is Err <==> old(self)@.fault() is Some,
            outcome matches Err(fault) ==> old(self)@.fault() == Some(fault),
            final(self).cycles <= old(self).cycles + MAX_INSTRUCTION_CYCLES,
            outcome is Ok ==> old(self).cycles + 2 <= final(self).cycles,
    {
        proof {
            reveal(CpuState::after_instruction);
        }
        let at = self.pc;
        let opcode = self.read_increment_pc();
        match decode(opcode) {
            None => {
                self.pc = at;
                Err(Fault::UnknownOpcode { opcode, pc: at })
            },
            Some(instr) => {
                let resolved = resolve(self, instr.mode);
                proof {
                    lemma_accepts(instr.op, instr.mode, resolved.operand);
                }
                if instr.page_penalty && resolved.crossed {
                    self.cycles += 1;
                }
                self.cycles += instr.cycles as usize;
                execute(self, instr.op, resolved.operand);
                Ok(())
            },
        }
    }

    /// What happens between two instructions: looks at the interrupt
    /// lines, lets a waiting Interrupt-disable value arrive, and takes the
    /// interrupt that the lines asked for.
    pub fn finish_instruction(&mut self)
        requires
            old(self).cycles + 7 <= usize::MAX,
        ensures
            final(self)@ == old(self)@.after_boundary(),
            old(self).cycles <= final(self).cycles <= old(self).cycles + 7,
    {
        proof {
            reveal(CpuState::after_boundary);
        }
        let take_nmi = self.nmi;
        let take_irq = !self.nmi && self.irq && !self.p.interrupt;
        match self.delayed_set_iflag {
            Some(value) => {
                self.p.interrupt = value;
                self.delayed_set_iflag = None;
            },
            None => {},
        }
        if take_nmi {
            self.do_interrupt(0xfffa, false);
            self.nmi = false;
            self.cycles += 7;
        } else if take_irq {
            self.do_interrupt(0xfffe, false);
            self.irq = false;
            self.cycles += 7;
        }
    }

    /// One instruction and what follows it.
    pub fn step(&mut self) -> (outcome: Result<(), Fault>)
        requires
            old(self).cycles + MAX_STEP_CYCLES <= usize::MAX,
        ensures
            final(self)@ == old(self)@.after_step(),
            outcome is Err <==> old(self)@.fault() is Some,
            outcome matches Err(fault) ==> old(self)@.fault() == Some(fault),
            final(self).cycles <= old(self).cycles + MAX_STEP_CYCLES,
            outcome is Ok ==> old(self).cycles + 2 <= final(self).cycles,
    {
        match self.run_instruction() {
            Err(fault) => Err(fault),
            Ok(()) => {
                self.finish_instruction();
                Ok(())
            },
        }
    }

    /// Runs instructions until `upto` cycles have gone by since the call,
    /// or until one faults. The instruction that is running when the
    /// cycles are up is finished.
    pub fn run(&mut self, upto: usize) -> (outcome: Result<(), Fault>)
        requires
            old(self).cycles + upto + MAX_STEP_CYCLES <= usize::MAX,
        ensures
            final(self)@ == old(self)@.run_to(old(self)@.cycles + upto as nat),
            outcome is Err <==> old(self)@.run_fault(old(self)@.cycles + upto as nat) is Some,
            outcome matches Err(fault) ==> old(self)@.run_fault(old(self)@.cycles + upto as nat)
                == Some(fault),
    {
        let start = self.cycles;
        let ghost deadline = start as nat + upto as nat;
        while self.cycles - start < upto
            invariant
                start == old(self).cycles,
                deadline == start as nat + upto as nat,
                start + upto + MAX_STEP_CYCLES <= usize::MAX,
                start <= self.cycles,
                self.cycles <= start + upto + MAX_STEP_CYCLES,
                self@.run_to(deadline) == old(self)@.run_to(deadline),
                self@.run_fault(deadline) == old(self)@.run_fault(deadline),
            ensures
                self.cycles >= deadline,
            decreases cycles_left(self.cycles as nat, deadline),
        {
            match self.step() {
                Err(fault) => {
                    return Err(fault);
                },
                Ok(()) => {},
            }
        }
        Ok(())
    }
}

} // verus!
