use vstd::prelude::*;
use crate::alu::low_byte;
use crate::alu::signed;
use crate::alu::spec_add;
use crate::alu::spec_compare;
use crate::alu::spec_shift_left;
use crate::alu::spec_shift_right;
use crate::alu::spec_subtract;
use crate::alu::AluResult;
use crate::instr::instruction;
use crate::instr::lemma_table_wf;
use crate::instr::AddrMode;
use crate::instr::Instr;
use crate::instr::Op;
use crate::instr::Operand;
use crate::memory::page_successor;
use crate::memory::successor;
use crate::memory::word;
use crate::memory::BusState;
use crate::status::Status;

verus! {

/// Why the processor stopped.
#[derive(Clone, Copy, PartialEq, Eq, Structural, Debug)]
pub enum Fault {
    /// The byte `opcode`, fetched at `pc`, stands for no instruction.
    UnknownOpcode { opcode: u8, pc: u16 },
}

/// What an addressing mode resolved to, and whether adding the index took
/// the address to another page than its base.
#[derive(Clone, Copy, PartialEq, Eq, Structural, Debug)]
pub struct Resolved {
    pub operand: Operand,
    pub crossed: bool,
}

/// Two addresses lie on different pages when their high bytes differ.
pub open spec fn spec_page_crossed(addr1: u16, addr2: u16) -> bool {
    addr1 / 256 != addr2 / 256
}

/// The address `index` bytes after `base`, wrapping at 16 bits.
pub open spec fn indexed(base: u16, index: u8) -> u16 {
    ((base + index) % 0x10000) as u16
}

/// The zero-page address `index` bytes after `base`, wrapping inside page 0.
pub open spec fn zero_page_indexed(base: u8, index: u8) -> u16 {
    ((base + index) % 256) as u16
}

/// The address that a branch with the signed `offset` goes to from `pc`.
pub open spec fn branch_target(pc: u16, offset: u8) -> u16 {
    ((pc + signed(offset)) % 0x10000) as u16
}

/// The address in page 1 that the stack pointer `sp` names.
pub open spec fn stack_addr(sp: u8) -> u16 {
    (0x100 + sp) as u16
}

/// The low sixteen bits of `n`.
pub open spec fn low_word(n: int) -> u16 {
    (n % 0x10000) as u16
}

/// The cycles that one transfer of sprite memory stalls the processor when
/// it starts at cycle `cycles`: 513, and one more from an odd cycle.
pub open spec fn dma_cycles(cycles: nat) -> nat {
    513 + cycles % 2
}

/// The cycles that are left at `cycles` until `deadline`.
pub open spec fn cycles_left(cycles: nat, deadline: nat) -> nat {
    if cycles < deadline {
        (deadline - cycles) as nat
    } else {
        0
    }
}

/// The cycles that an interrupt sequence takes.
pub open spec fn interrupt_cycles() -> nat {
    7
}

/// The state of the processor and of everything on its bus.
pub struct CpuState {
    pub a: u8,
    pub x: u8,
    pub y: u8,
    pub sp: u8,
    pub p: Status,
    pub pc: u16,
    pub bus: BusState,
    pub cycles: nat,
    pub nmi: bool,
    pub irq: bool,
    /// A value for the Interrupt-disable flag that waits for the end of the
    /// instruction.
    pub pending_iflag: Option<bool>,
}

impl CpuState {
    pub open spec fn wf(self) -> bool {
        self.bus.wf()
    }

    /// The state at power-on. The program counter is 0 until the
    /// surrounding system loads it from the reset vector.
    pub open spec fn power_on() -> CpuState {
        CpuState {
            a: 0,
            x: 0,
            y: 0,
            sp: 0xfd,
            p: Status::spec_from_byte(0x34),
            pc: 0,
            bus: BusState::power_on(),
            cycles: 0,
            nmi: false,
            irq: false,
            pending_iflag: None,
        }
    }

    pub open spec fn with_flags(self, p: Status) -> CpuState {
        CpuState { p, ..self }
    }

    pub open spec fn with_pc(self, pc: u16) -> CpuState {
        CpuState { pc, ..self }
    }

    pub open spec fn charged(self, cycles: nat) -> CpuState {
        CpuState { cycles: self.cycles + cycles, ..self }
    }

    // The bus, as the processor drives it.

    pub open spec fn after_read(self, addr: u16) -> CpuState {
        CpuState { bus: self.bus.touched(addr), ..self }
    }

    /// The state after the sprite memory transfer from page `page`: the page
    /// number reaches the video unit, 256 bytes are copied, and the
    /// processor stalls.
    pub open spec fn after_dma(self, page: u8) -> CpuState {
        CpuState { bus: self.bus.stored(0x4014, page), ..self }.transferred(page)
    }

    /// The transfer itself: 256 bytes copied, and the stall charged.
    pub open spec fn transferred(self, page: u8) -> CpuState {
        CpuState {
            bus: self.bus.sprite_dma(page, 256),
            cycles: self.cycles + dma_cycles(self.cycles),
            ..self
        }
    }

    /// The state after a write: one to `0x4014` starts the sprite memory
    /// transfer, any other only reaches the bus.
    pub open spec fn after_write(self, addr: u16, value: u8) -> CpuState {
        if addr == 0x4014 {
            self.after_dma(value)
        } else {
            CpuState { bus: self.bus.stored(addr, value), ..self }
        }
    }

    // Fetching instruction bytes.

    pub open spec fn fetch_value(self) -> u8 {
        self.bus.peek(self.pc)
    }

    pub open spec fn after_fetch(self) -> CpuState {
        CpuState { pc: successor(self.pc), bus: self.bus.touched(self.pc), ..self }
    }

    pub open spec fn fetch16_value(self) -> u16 {
        word(self.fetch_value(), self.after_fetch().fetch_value())
    }

    pub open spec fn after_fetch16(self) -> CpuState {
        self.after_fetch().after_fetch()
    }

    // The stack.

    pub open spec fn pushed(self, value: u8) -> CpuState {
        CpuState {
            bus: self.bus.stored(stack_addr(self.sp), value),
            sp: low_byte(self.sp - 1),
            ..self
        }
    }

    /// High byte first, so that the word lies little-endian in memory.
    pub open spec fn pushed16(self, value: u16) -> CpuState {
        self.pushed((value / 256) as u8).pushed((value % 256) as u8)
    }

    pub open spec fn pop_value(self) -> u8 {
        self.bus.peek(stack_addr(low_byte(self.sp + 1)))
    }

    pub open spec fn popped(self) -> CpuState {
        CpuState { sp: low_byte(self.sp + 1), ..self }
    }

    pub open spec fn pop16_value(self) -> u16 {
        word(self.pop_value(), self.popped().pop_value())
    }

    pub open spec fn popped16(self) -> CpuState {
        self.popped().popped()
    }

    // Interrupts.

    /// The status byte that an interrupt sequence pushes: Break set for the
    /// `BRK` instruction and clear for a hardware interrupt.
    pub open spec fn interrupt_status(self, isbrk: bool) -> u8 {
        Status { brk: isbrk, ..self.p }.spec_as_byte()
    }

    /// The interrupt sequence: push the program counter and the status, set
    /// Interrupt-disable, and go where the vector points.
    pub open spec fn interrupted(self, vector: u16, isbrk: bool) -> CpuState {
        let s = self.pushed16(self.pc).pushed(self.interrupt_status(isbrk));
        CpuState {
            p: Status { interrupt: true, ..s.p },
            pc: s.bus.word_at(vector),
            bus: s.bus.touched(vector).touched(successor(vector)),
            ..s
        }
    }

    // Addressing modes.

    pub open spec fn after_pointer(self, ptr: u16) -> CpuState {
        CpuState { bus: self.bus.touched(ptr).touched(page_successor(ptr)), ..self }
    }

    /// What `mode` resolves to when the program counter stands behind the
    /// opcode.
    #[verifier::opaque]
    pub open spec fn resolution(self, mode: AddrMode) -> Resolved {
        match mode {
            AddrMode::Implied => Resolved { operand: Operand::Implied, crossed: false },
            AddrMode::Accumulator => Resolved { operand: Operand::Accumulator, crossed: false },
            AddrMode::Immediate => Resolved {
                operand: Operand::Immediate(self.fetch_value()),
                crossed: false,
            },
            AddrMode::ZeroPage => Resolved {
                operand: Operand::Memory(self.fetch_value() as u16),
                crossed: false,
            },
            AddrMode::ZeroPageX => Resolved {
                operand: Operand::Memory(zero_page_indexed(self.fetch_value(), self.x)),
                crossed: false,
            },
            AddrMode::ZeroPageY => Resolved {
                operand: Operand::Memory(zero_page_indexed(self.fetch_value(), self.y)),
                crossed: false,
            },
            AddrMode::Absolute => Resolved {
                operand: Operand::Memory(self.fetch16_value()),
                crossed: false,
            },
            AddrMode::AbsoluteX => Resolved {
                operand: Operand::Memory(indexed(self.fetch16_value(), self.x)),
                crossed: spec_page_crossed(
                    self.fetch16_value(),
                    indexed(self.fetch16_value(), self.x),
                ),
            },
            AddrMode::AbsoluteY => Resolved {
                operand: Operand::Memory(indexed(self.fetch16_value(), self.y)),
                crossed: spec_page_crossed(
                    self.fetch16_value(),
                    indexed(self.fetch16_value(), self.y),
                ),
            },
            AddrMode::Indirect => Resolved {
                operand: Operand::Memory(
                    self.after_fetch16().bus.word_in_page(self.fetch16_value()),
                ),
                crossed: false,
            },
            AddrMode::IndirectX => Resolved {
                operand: Operand::Memory(
                    self.after_fetch().bus.word_in_page(
                        zero_page_indexed(self.fetch_value(), self.x),
                    ),
                ),
                crossed: false,
            },
            AddrMode::IndirectY => {
                let base = self.after_fetch().bus.word_in_page(self.fetch_value() as u16);
                Resolved {
                    operand: Operand::Memory(indexed(base, self.y)),
                    crossed: spec_page_crossed(base, indexed(base, self.y)),
                }
            },
            AddrMode::Relative => Resolved {
                operand: Operand::Memory(branch_target(successor(self.pc), self.fetch_value())),
                crossed: false,
            },
        }
    }

    /// The state that resolving `mode` leaves: the operand bytes are
    /// fetched, and an indirect mode has read its pointer.
    #[verifier::opaque]
    pub open spec fn after_resolve(self, mode: AddrMode) -> CpuState {
        match mode {
            AddrMode::Implied | AddrMode::Accumulator => self,
            AddrMode::Immediate | AddrMode::ZeroPage | AddrMode::ZeroPageX | AddrMode::ZeroPageY
            | AddrMode::Relative => self.after_fetch(),
            AddrMode::Absolute | AddrMode::AbsoluteX | AddrMode::AbsoluteY => self.after_fetch16(),
            AddrMode::Indirect => self.after_fetch16().after_pointer(self.fetch16_value()),
            AddrMode::IndirectX => self.after_fetch().after_pointer(
                zero_page_indexed(self.fetch_value(), self.x),
            ),
            AddrMode::IndirectY => self.after_fetch().after_pointer(self.fetch_value() as u16),
        }
    }

    // Operands.

    pub open spec fn operand_value(self, operand: Operand) -> u8 {
        match operand {
            Operand::Implied => 0,
            Operand::Accumulator => self.a,
            Operand::Immediate(value) => value,
            Operand::Memory(addr) => self.bus.peek(addr),
        }
    }

    pub open spec fn after_load(self, operand: Operand) -> CpuState {
        match operand {
            Operand::Memory(addr) => self.after_read(addr),
            _ => self,
        }
    }

    pub open spec fn after_store(self, operand: Operand, value: u8) -> CpuState {
        match operand {
            Operand::Accumulator => CpuState { a: value, ..self },
            Operand::Memory(addr) => self.after_write(addr, value),
            _ => self,
        }
    }

    /// The address that a jump or a branch goes to.
    pub open spec fn target(operand: Operand) -> u16 {
        match operand {
            Operand::Memory(addr) => addr,
            _ => 0,
        }
    }

    // What the instructions do.

    pub open spec fn with_a(self, value: u8) -> CpuState {
        CpuState { a: value, p: self.p.with_zn(value), ..self }
    }

    pub open spec fn with_x(self, value: u8) -> CpuState {
        CpuState { x: value, p: self.p.with_zn(value), ..self }
    }

    pub open spec fn with_y(self, value: u8) -> CpuState {
        CpuState { y: value, p: self.p.with_zn(value), ..self }
    }

    /// The accumulator takes the result of an addition or subtraction, and
    /// the flags follow.
    pub open spec fn accumulated(self, r: AluResult) -> CpuState {
        CpuState {
            a: r.value,
            p: Status { carry: r.carry, overflow: r.overflow, ..self.p }.with_zn(r.value),
            ..self
        }
    }

    /// Only the flags take the outcome of a comparison.
    pub open spec fn compared(self, r: AluResult) -> CpuState {
        self.with_flags(Status { carry: r.carry, ..self.p }.with_zn(r.value))
    }

    /// The operand takes the result of a shift or rotation.
    pub open spec fn shifted(self, operand: Operand, r: AluResult) -> CpuState {
        self.with_flags(Status { carry: r.carry, ..self.p }.with_zn(r.value)).after_store(
            operand,
            r.value,
        )
    }

    /// The operand takes `value`, one more or one less than it held.
    pub open spec fn counted(self, operand: Operand, value: u8) -> CpuState {
        self.with_flags(self.p.with_zn(value)).after_store(operand, value)
    }

    /// A branch: when taken it costs one cycle, and one more when the
    /// target lies on another page than the instruction that follows.
    pub open spec fn branched(self, target: u16, taken: bool) -> CpuState {
        if taken {
            CpuState {
                pc: target,
                cycles: self.cycles + 1 + if spec_page_crossed(self.pc, target) {
                    1nat
                } else {
                    0nat
                },
                ..self
            }
        } else {
            self
        }
    }

    /// Whether the branch `op` is taken in this state.
    pub open spec fn branch_taken(self, op: Op) -> bool {
        match op {
            Op::Bcc => !self.p.carry,
            Op::Bcs => self.p.carry,
            Op::Beq => self.p.zero,
            Op::Bmi => self.p.negative,
            Op::Bne => !self.p.zero,
            Op::Bpl => !self.p.negative,
            Op::Bvc => !self.p.overflow,
            Op::Bvs => self.p.overflow,
            _ => false,
        }
    }

    /// The cycles that the branch `op` to the address in `operand` costs
    /// beyond its base cost.
    pub open spec fn branch_cycles(self, op: Op, operand: Operand) -> nat {
        if !self.branch_taken(op) {
            0
        } else if spec_page_crossed(self.pc, Self::target(operand)) {
            2
        } else {
            1
        }
    }

    /// The cycles that carrying out `op` on `operand` costs beyond what the
    /// instruction is charged from the table: those of a taken branch, and
    /// the stall of a sprite memory transfer that a write starts.
    pub open spec fn execution_cycles(self, op: Op, operand: Operand) -> nat {
        if op.is_branch() {
            self.branch_cycles(op, operand)
        } else if op.writes_back() {
            store_cycles(self.cycles, operand)
        } else {
            0
        }
    }

    /// The state after `op` was carried out on `operand`.
    #[verifier::opaque]
    pub open spec fn executed(self, op: Op, operand: Operand) -> CpuState {
        let m = self.operand_value(operand);
        let s = self.after_load(operand);
        let to = Self::target(operand);
        match op {
            Op::Adc => s.accumulated(spec_add(s.a, m, s.p.carry)),
            Op::And => s.with_a(s.a & m),
            Op::Asl => s.shifted(operand, spec_shift_left(m, false)),
            Op::Bcc => self.branched(to, !self.p.carry),
            Op::Bcs => self.branched(to, self.p.carry),
            Op::Beq => self.branched(to, self.p.zero),
            Op::Bit => s.with_flags(
                Status {
                    negative: m >= 128,
                    overflow: m / 64 % 2 == 1,
                    zero: s.a & m == 0,
                    ..s.p
                },
            ),
            Op::Bmi => self.branched(to, self.p.negative),
            Op::Bne => self.branched(to, !self.p.zero),
            Op::Bpl => self.branched(to, !self.p.negative),
            Op::Brk => self.interrupted(0xfffe, true),
            Op::Bvc => self.branched(to, !self.p.overflow),
            Op::Bvs => self.branched(to, self.p.overflow),
            Op::Clc => self.with_flags(Status { carry: false, ..self.p }),
            Op::Cld => self.with_flags(Status { decimal: false, ..self.p }),
            Op::Cli => CpuState { pending_iflag: Some(false), ..self },
            Op::Clv => self.with_flags(Status { overflow: false, ..self.p }),
            Op::Cmp => s.compared(spec_compare(s.a, m)),
            Op::Cpx => s.compared(spec_compare(s.x, m)),
            Op::Cpy => s.compared(spec_compare(s.y, m)),
            Op::Dec => s.counted(operand, low_byte(m - 1)),
            Op::Dex => self.with_x(low_byte(self.x - 1)),
            Op::Dey => self.with_y(low_byte(self.y - 1)),
            Op::Eor => s.with_a(s.a ^ m),
            Op::Inc => s.counted(operand, low_byte(m + 1)),
            Op::Inx => self.with_x(low_byte(self.x + 1)),
            Op::Iny => self.with_y(low_byte(self.y + 1)),
            Op::Jmp => self.with_pc(to),
            Op::Jsr => self.pushed16(low_word(self.pc - 1)).with_pc(to),
            Op::Lda => s.with_a(m),
            Op::Ldx => s.with_x(m),
            Op::Ldy => s.with_y(m),
            Op::Lsr => s.shifted(operand, spec_shift_right(m, false)),
            Op::Nop => self,
            Op::Ora => s.with_a(s.a | m),
            Op::Pha => self.pushed(self.a),
            Op::Php => self.pushed(Status { brk: true, ..self.p }.spec_as_byte()),
            Op::Pla => self.popped().with_a(self.pop_value()),
            Op::Plp => CpuState {
                p: Status {
                    interrupt: self.p.interrupt,
                    ..Status::spec_from_byte(self.pop_value())
                },
                pending_iflag: Some(Status::spec_from_byte(self.pop_value()).interrupt),
                ..self.popped()
            },
            Op::Rol => s.shifted(operand, spec_shift_left(m, s.p.carry)),
            Op::Ror => s.shifted(operand, spec_shift_right(m, s.p.carry)),
            Op::Rti => CpuState {
                p: Status::spec_from_byte(self.pop_value()),
                pc: self.popped().pop16_value(),
                ..self.popped().popped16()
            },
            Op::Rts => self.popped16().with_pc(low_word(self.pop16_value() + 1)),
            Op::Sbc => s.accumulated(spec_subtract(s.a, m, s.p.carry)),
            Op::Sec => self.with_flags(Status { carry: true, ..self.p }),
            Op::Sed => self.with_flags(Status { decimal: true, ..self.p }),
            Op::Sei => CpuState { pending_iflag: Some(true), ..self },
            Op::Sta => self.after_store(operand, self.a),
            Op::Stx => self.after_store(operand, self.x),
            Op::Sty => self.after_store(operand, self.y),
            Op::Tax => self.with_x(self.a),
            Op::Tay => self.with_y(self.a),
            Op::Tsx => self.with_x(self.sp),
            Op::Txa => self.with_a(self.x),
            Op::Txs => CpuState { sp: self.x, ..self },
            Op::Tya => self.with_a(self.y),
        }
    }

    // One instruction, and what follows it.

    /// The cycles that `instr` is charged before it is carried out: its base
    /// cost, and one more when it pays for a page crossing and one happened.
    pub open spec fn charge(instr: Instr, crossed: bool) -> nat {
        if instr.page_penalty && crossed {
            (instr.cycles + 1) as nat
        } else {
            instr.cycles as nat
        }
    }

    /// The fault that the next instruction ends in, if any.
    pub open spec fn fault(self) -> Option<Fault> {
        match instruction(self.fetch_value()) {
            Some(_) => None,
            None => Some(Fault::UnknownOpcode { opcode: self.fetch_value(), pc: self.pc }),
        }
    }

    /// The state after the next instruction. Where the opcode is unknown
    /// only its fetch has happened, and the program counter still points
    /// at it.
    #[verifier::opaque]
    pub open spec fn after_instruction(self) -> CpuState {
        match instruction(self.fetch_value()) {
            None => self.after_read(self.pc),
            Some(instr) => {
                let fetched = self.after_fetch();
                let resolved = fetched.resolution(instr.mode);
                fetched.after_resolve(instr.mode).charged(
                    Self::charge(instr, resolved.crossed),
                ).executed(instr.op, resolved.operand)
            },
        }
    }

    /// Which interrupt the lines ask for at the end of an instruction.
    pub open spec fn polled_nmi(self) -> bool {
        self.nmi
    }

    /// A maskable interrupt is taken only while Interrupt-disable is clear;
    /// a value that waits for the flag does not count yet.
    pub open spec fn polled_irq(self) -> bool {
        !self.nmi && self.irq && !self.p.interrupt
    }

    /// The flags after a waiting value for Interrupt-disable has arrived.
    pub open spec fn settled(self) -> CpuState {
        match self.pending_iflag {
            Some(value) => CpuState {
                p: Status { interrupt: value, ..self.p },
                pending_iflag: None,
                ..self
            },
            None => self,
        }
    }

    /// What happens between two instructions: the interrupt lines are
    /// looked at, a waiting Interrupt-disable value arrives, and the
    /// interrupt that was asked for is taken.
    #[verifier::opaque]
    pub open spec fn after_boundary(self) -> CpuState {
        if self.polled_nmi() {
            CpuState { nmi: false, ..self.settled().interrupted(0xfffa, false) }.charged(
                interrupt_cycles(),
            )
        } else if self.polled_irq() {
            CpuState { irq: false, ..self.settled().interrupted(0xfffe, false) }.charged(
                interrupt_cycles(),
            )
        } else {
            self.settled()
        }
    }

    /// The state after one instruction and the boundary behind it; after a
    /// fault nothing follows the instruction.
    pub open spec fn after_step(self) -> CpuState {
        if self.fault() is Some {
            self.after_instruction()
        } else {
            self.after_instruction().after_boundary()
        }
    }

    /// The state in which a run ends that goes on until the cycle counter
    /// has reached `deadline` or an instruction faults.
    pub open spec fn run_to(self, deadline: nat) -> CpuState
        decreases cycles_left(self.cycles, deadline),
        via Self::run_to_decreases
    {
        if self.cycles >= deadline {
            self
        } else if self.fault() is Some {
            self.after_step()
        } else {
            self.after_step().run_to(deadline)
        }
    }

    #[via_fn]
    proof fn run_to_decreases(self, deadline: nat) {
        if self.cycles < deadline && self.fault() is None {
            lemma_step_cycles(self);
        }
    }

    /// The fault that ends such a run, if one does.
    pub open spec fn run_fault(self, deadline: nat) -> Option<Fault>
        decreases cycles_left(self.cycles, deadline),
        via Self::run_fault_decreases
    {
        if self.cycles >= deadline {
            None
        } else if self.fault() is Some {
            self.fault()
        } else {
            self.after_step().run_fault(deadline)
        }
    }

    #[via_fn]
    proof fn run_fault_decreases(self, deadline: nat) {
        if self.cycles < deadline && self.fault() is None {
            lemma_step_cycles(self);
        }
    }
}

/// The cycles that a write to the operand costs: the stall of a sprite
/// memory transfer when the operand is the byte at `0x4014`, else none.
pub open spec fn store_cycles(cycles: nat, operand: Operand) -> nat {
    if operand == Operand::Memory(0x4014) {
        dma_cycles(cycles)
    } else {
        0
    }
}

/// A write to the operand costs what `store_cycles` says.
pub proof fn lemma_store_cycles(s: CpuState, operand: Operand, value: u8)
    ensures
        s.after_store(operand, value).cycles == s.cycles + store_cycles(s.cycles, operand),
{
}

/// Carrying out an operation that writes its operand back costs what the
/// write costs.
pub proof fn lemma_write_back_cycles(s: CpuState, op: Op, operand: Operand)
    requires
        op.writes_back(),
    ensures
        s.executed(op, operand).cycles == s.cycles + store_cycles(s.cycles, operand),
{
    reveal(CpuState::executed);
    let loaded = s.after_load(operand);
    assert(loaded.cycles == s.cycles);
    assert forall|t: CpuState, value: u8| #[trigger]
        t.after_store(operand, value).cycles == t.cycles + store_cycles(t.cycles, operand) by {
        lemma_store_cycles(t, operand, value);
    }
}

/// Carrying out a branch costs a cycle when it is taken, and one more when
/// it goes to another page.
pub proof fn lemma_branch_cycles(s: CpuState, op: Op, operand: Operand)
    requires
        op.is_branch(),
    ensures
        s.executed(op, operand).cycles == s.cycles + s.branch_cycles(op, operand),
{
    reveal(CpuState::executed);
}

/// Carrying out any other operation costs nothing beyond what the
/// instruction was charged.
pub proof fn lemma_plain_cycles(s: CpuState, op: Op, operand: Operand)
    requires
        !op.is_branch(),
        !op.writes_back(),
    ensures
        s.executed(op, operand).cycles == s.cycles,
{
    reveal(CpuState::executed);
}

/// The cycles that carrying out `op` on `operand` adds to those that the
/// instruction was charged.
pub proof fn lemma_executed_cycles(s: CpuState, op: Op, operand: Operand)
    ensures
        s.executed(op, operand).cycles == s.cycles + s.execution_cycles(op, operand),
        s.cycles <= s.executed(op, operand).cycles <= s.cycles + 514,
{
    if op.is_branch() {
        lemma_branch_cycles(s, op, operand);
    } else if op.writes_back() {
        lemma_write_back_cycles(s, op, operand);
    } else {
        lemma_plain_cycles(s, op, operand);
    }
}

/// The cycles of one instruction: what the table charges for it, one more
/// for a page crossing that it pays for, and what carrying it out adds.
pub proof fn lemma_instruction_cycles(s: CpuState)
    requires
        s.fault() is None,
    ensures
        ({
            let instr = instruction(s.fetch_value())->Some_0;
            let resolved = s.after_fetch().resolution(instr.mode);
            let ready = s.after_fetch().after_resolve(instr.mode).charged(
                CpuState::charge(instr, resolved.crossed),
            );
            &&& ready.cycles == s.cycles + CpuState::charge(instr, resolved.crossed)
            &&& s.after_instruction().cycles == ready.cycles + ready.execution_cycles(
                instr.op,
                resolved.operand,
            )
        }),
{
    reveal(CpuState::after_resolve);
    reveal(CpuState::after_instruction);
    let instr = instruction(s.fetch_value())->Some_0;
    let resolved = s.after_fetch().resolution(instr.mode);
    let ready = s.after_fetch().after_resolve(instr.mode).charged(
        CpuState::charge(instr, resolved.crossed),
    );
    lemma_executed_cycles(ready, instr.op, resolved.operand);
}

/// What happens between two instructions never takes cycles back, and
/// adds at most those of one interrupt sequence.
pub proof fn lemma_boundary_cycles(s: CpuState)
    ensures
        s.cycles <= s.after_boundary().cycles <= s.cycles + interrupt_cycles(),
{
    reveal(CpuState::after_boundary);
}

/// A step without a fault takes at least two cycles.
pub proof fn lemma_step_cycles(s: CpuState)
    requires
        s.fault() is None,
    ensures
        s.after_step().cycles >= s.cycles + 2,
{
    lemma_table_wf(s.fetch_value());
    lemma_instruction_cycles(s);
    lemma_boundary_cycles(s.after_instruction());
}

} // verus!
