use vstd::prelude::*;

verus! {

/// The operations of the instruction set.
#[derive(Clone, Copy, PartialEq, Eq, Structural, Debug)]
pub enum Op {
    Adc,
    And,
    Asl,
    Bcc,
    Bcs,
    Beq,
    Bit,
    Bmi,
    Bne,
    Bpl,
    Brk,
    Bvc,
    Bvs,
    Clc,
    Cld,
    Cli,
    Clv,
    Cmp,
    Cpx,
    Cpy,
    Dec,
    Dex,
    Dey,
    Eor,
    Inc,
    Inx,
    Iny,
    Jmp,
    Jsr,
    Lda,
    Ldx,
    Ldy,
    Lsr,
    Nop,
    Ora,
    Pha,
    Php,
    Pla,
    Plp,
    Rol,
    Ror,
    Rti,
    Rts,
    Sbc,
    Sec,
    Sed,
    Sei,
    Sta,
    Stx,
    Sty,
    Tax,
    Tay,
    Tsx,
    Txa,
    Txs,
    Tya,
}

/// How an instruction finds its operand.
#[derive(Clone, Copy, PartialEq, Eq, Structural, Debug)]
pub enum AddrMode {
    Implied,
    Accumulator,
    Immediate,
    ZeroPage,
    ZeroPageX,
    ZeroPageY,
    Absolute,
    AbsoluteX,
    AbsoluteY,
    Indirect,
    IndirectX,
    IndirectY,
    Relative,
}

/// What an addressing mode resolves to.
#[derive(Clone, Copy, PartialEq, Eq, Structural, Debug)]
pub enum Operand {
    /// The instruction takes no operand.
    Implied,
    /// The operand is the accumulator, which also takes the result.
    Accumulator,
    /// The operand is this byte of the instruction; nothing can be written
    /// back to it.
    Immediate(u8),
    /// The operand is the byte at this address.
    Memory(u16),
}

/// One entry of the dispatch table.
#[derive(Clone, Copy, PartialEq, Eq, Structural, Debug)]
pub struct Instr {
    pub op: Op,
    pub mode: AddrMode,
    /// The cycles that the instruction always takes.
    pub cycles: u8,
    /// Whether crossing a page while the operand is resolved costs one more.
    pub page_penalty: bool,
}

impl Operand {
    /// Whether a result can be written back to the operand.
    pub open spec fn writable(self) -> bool {
        self is Accumulator || self is Memory
    }
}

impl AddrMode {
    /// Whether `operand` has the form that this mode resolves to.
    pub open spec fn yields(self, operand: Operand) -> bool {
        match self {
            AddrMode::Implied => operand is Implied,
            AddrMode::Accumulator => operand is Accumulator,
            AddrMode::Immediate => operand is Immediate,
            _ => operand is Memory,
        }
    }

    /// Whether the mode adds an index register to a 16-bit base address, so
    /// that the sum may lie on another page than the base.
    pub open spec fn indexes_base(self) -> bool {
        self == AddrMode::AbsoluteX || self == AddrMode::AbsoluteY || self == AddrMode::IndirectY
    }
}

impl Op {
    /// The conditional branches.
    pub open spec fn is_branch(self) -> bool {
        match self {
            Op::Bcc | Op::Bcs | Op::Beq | Op::Bmi | Op::Bne | Op::Bpl | Op::Bvc | Op::Bvs => true,
            _ => false,
        }
    }

    /// The operations that go to an address: the branches and the two jumps.
    pub open spec fn takes_address(self) -> bool {
        self.is_branch() || self == Op::Jmp || self == Op::Jsr
    }

    /// The operations that write a result back to their operand.
    pub open spec fn writes_back(self) -> bool {
        match self {
            Op::Asl | Op::Lsr | Op::Rol | Op::Ror | Op::Inc | Op::Dec | Op::Sta | Op::Stx
            | Op::Sty => true,
            _ => false,
        }
    }

    /// The operations that only read their operand.
    pub open spec fn reads_value(self) -> bool {
        match self {
            Op::Adc | Op::And | Op::Bit | Op::Cmp | Op::Cpx | Op::Cpy | Op::Eor | Op::Lda
            | Op::Ldx | Op::Ldy | Op::Ora | Op::Sbc => true,
            _ => false,
        }
    }

    /// Whether the operation can be carried out on what `mode` resolves to.
    pub open spec fn accepts_mode(self, mode: AddrMode) -> bool {
        if self.writes_back() {
            mode != AddrMode::Implied && mode != AddrMode::Immediate
        } else if self.takes_address() {
            mode != AddrMode::Implied && mode != AddrMode::Accumulator && mode
                != AddrMode::Immediate
        } else if self.reads_value() {
            mode != AddrMode::Implied
        } else {
            mode == AddrMode::Implied
        }
    }

    /// Whether the operation can be carried out on `operand`. An operation
    /// that writes back needs an operand that can take the result, so never
    /// an immediate one; one that goes to an address needs an address; one
    /// that reads needs something to read; any other takes no operand.
    pub open spec fn accepts(self, operand: Operand) -> bool {
        if self.writes_back() {
            operand.writable()
        } else if self.takes_address() {
            operand is Memory
        } else if self.reads_value() {
            !(operand is Implied)
        } else {
            operand is Implied
        }
    }
}

/// The dispatch table: the instruction that an opcode byte stands for, or
/// `None` for a byte that stands for none.
pub open spec fn instruction(opcode: u8) -> Option<Instr> {
    match opcode {
        0x00 => Some(Instr { op: Op::Brk, mode: AddrMode::Implied, cycles: 7, page_penalty: false }),
        0x01 => Some(Instr { op: Op::Ora, mode: AddrMode::IndirectX, cycles: 6, page_penalty: false }),
        0x05 => Some(Instr { op: Op::Ora, mode: AddrMode::ZeroPage, cycles: 3, page_penalty: false }),
        0x06 => Some(Instr { op: Op::Asl, mode: AddrMode::ZeroPage, cycles: 5, page_penalty: false }),
        0x08 => Some(Instr { op: Op::Php, mode: AddrMode::Implied, cycles: 3, page_penalty: false }),
        0x09 => Some(Instr { op: Op::Ora, mode: AddrMode::Immediate, cycles: 2, page_penalty: false }),
        0x0a => Some(Instr { op: Op::Asl, mode: AddrMode::Accumulator, cycles: 2, page_penalty: false }),
        0x0d => Some(Instr { op: Op::Ora, mode: AddrMode::Absolute, cycles: 4, page_penalty: false }),
        0x0e => Some(Instr { op: Op::Asl, mode: AddrMode::Absolute, cycles: 6, page_penalty: false }),
        0x10 => Some(Instr { op: Op::Bpl, mode: AddrMode::Relative, cycles: 2, page_penalty: false }),
        0x11 => Some(Instr { op: Op::Ora, mode: AddrMode::IndirectY, cycles: 5, page_penalty: true }),
        0x15 => Some(Instr { op: Op::Ora, mode: AddrMode::ZeroPageX, cycles: 4, page_penalty: false }),
        0x16 => Some(Instr { op: Op::Asl, mode: AddrMode::ZeroPageX, cycles: 6, page_penalty: false }),
        0x18 => Some(Instr { op: Op::Clc, mode: AddrMode::Implied, cycles: 2, page_penalty: false }),
        0x19 => Some(Instr { op: Op::Ora, mode: AddrMode::AbsoluteY, cycles: 4, page_penalty: true }),
        0x1d => Some(Instr { op: Op::Ora, mode: AddrMode::AbsoluteX, cycles: 4, page_penalty: true }),
        0x1e => Some(Instr { op: Op::Asl, mode: AddrMode::AbsoluteX, cycles: 7, page_penalty: false }),
        0x20 => Some(Instr { op: Op::Jsr, mode: AddrMode::Absolute, cycles: 6, page_penalty: false }),
        0x21 => Some(Instr { op: Op::And, mode: AddrMode::IndirectX, cycles: 6, page_penalty: false }),
        0x24 => Some(Instr { op: Op::Bit, mode: AddrMode::ZeroPage, cycles: 3, page_penalty: false }),
        0x25 => Some(Instr { op: Op::And, mode: AddrMode::ZeroPage, cycles: 3, page_penalty: false }),
        0x26 => Some(Instr { op: Op::Rol, mode: AddrMode::ZeroPage, cycles: 5, page_penalty: false }),
        0x28 => Some(Instr { op: Op::Plp, mode: AddrMode::Implied, cycles: 4, page_penalty: false }),
        0x29 => Some(Instr { op: Op::And, mode: AddrMode::Immediate, cycles: 2, page_penalty: false }),
        0x2a => Some(Instr { op: Op::Rol, mode: AddrMode::Accumulator, cycles: 2, page_penalty: false }),
        0x2c => Some(Instr { op: Op::Bit, mode: AddrMode::Absolute, cycles: 4, page_penalty: false }),
        0x2d => Some(Instr { op: Op::And, mode: AddrMode::Absolute, cycles: 4, page_penalty: false }),
        0x2e => Some(Instr { op: Op::Rol, mode: AddrMode::Absolute, cycles: 6, page_penalty: false }),
        0x30 => Some(Instr { op: Op::Bmi, mode: AddrMode::Relative, cycles: 2, page_penalty: false }),
        0x31 => Some(Instr { op: Op::And, mode: AddrMode::IndirectY, cycles: 5, page_penalty: true }),
        0x35 => Some(Instr { op: Op::And, mode: AddrMode::ZeroPageX, cycles: 4, page_penalty: false }),
        0x36 => Some(Instr { op: Op::Rol, mode: AddrMode::ZeroPageX, cycles: 6, page_penalty: false }),
        0x38 => Some(Instr { op: Op::Sec, mode: AddrMode::Implied, cycles: 2, page_penalty: false }),
        0x39 => Some(Instr { op: Op::And, mode: AddrMode::AbsoluteY, cycles: 4, page_penalty: true }),
        0x3d => Some(Instr { op: Op::And, mode: AddrMode::AbsoluteX, cycles: 4, page_penalty: true }),
        0x3e => Some(Instr { op: Op::Rol, mode: AddrMode::AbsoluteX, cycles: 7, page_penalty: false }),
        0x40 => Some(Instr { op: Op::Rti, mode: AddrMode::Implied, cycles: 6, page_penalty: false }),
        0x41 => Some(Instr { op: Op::Eor, mode: AddrMode::IndirectX, cycles: 6, page_penalty: false }),
        0x45 => Some(Instr { op: Op::Eor, mode: AddrMode::ZeroPage, cycles: 3, page_penalty: false }),
        0x46 => Some(Instr { op: Op::Lsr, mode: AddrMode::ZeroPage, cycles: 5, page_penalty: false }),
        0x48 => Some(Instr { op: Op::Pha, mode: AddrMode::Implied, cycles: 3, page_penalty: false }),
        0x49 => Some(Instr { op: Op::Eor, mode: AddrMode::Immediate, cycles: 2, page_penalty: false }),
        0x4a => Some(Instr { op: Op::Lsr, mode: AddrMode::Accumulator, cycles: 2, page_penalty: false }),
        0x4c => Some(Instr { op: Op::Jmp, mode: AddrMode::Absolute, cycles: 3, page_penalty: false }),
        0x4d => Some(Instr { op: Op::Eor, mode: AddrMode::Absolute, cycles: 4, page_penalty: false }),
        0x4e => Some(Instr { op: Op::Lsr, mode: AddrMode::Absolute, cycles: 6, page_penalty: false }),
        0x50 => Some(Instr { op: Op::Bvc, mode: AddrMode::Relative, cycles: 2, page_penalty: false }),
        0x51 => Some(Instr { op: Op::Eor, mode: AddrMode::IndirectY, cycles: 5, page_penalty: true }),
        0x55 => Some(Instr { op: Op::Eor, mode: AddrMode::ZeroPageX, cycles: 4, page_penalty: false }),
        0x56 => Some(Instr { op: Op::Lsr, mode: AddrMode::ZeroPageX, cycles: 6, page_penalty: false }),
        0x58 => Some(Instr { op: Op::Cli, mode: AddrMode::Implied, cycles: 2, page_penalty: false }),
        0x59 => Some(Instr { op: Op::Eor, mode: AddrMode::AbsoluteY, cycles: 4, page_penalty: true }),
        0x5d => Some(Instr { op: Op::Eor, mode: AddrMode::AbsoluteX, cycles: 4, page_penalty: true }),
        0x5e => Some(Instr { op: Op::Lsr, mode: AddrMode::AbsoluteX, cycles: 7, page_penalty: false }),
        0x60 => Some(Instr { op: Op::Rts, mode: AddrMode::Implied, cycles: 6, page_penalty: false }),
        0x61 => Some(Instr { op: Op::Adc, mode: AddrMode::IndirectX, cycles: 6, page_penalty: false }),
        0x65 => Some(Instr { op: Op::Adc, mode: AddrMode::ZeroPage, cycles: 3, page_penalty: false }),
        0x66 => Some(Instr { op: Op::Ror, mode: AddrMode::ZeroPage, cycles: 5, page_penalty: false }),
        0x68 => Some(Instr { op: Op::Pla, mode: AddrMode::Implied, cycles: 4, page_penalty: false }),
        0x69 => Some(Instr { op: Op::Adc, mode: AddrMode::Immediate, cycles: 2, page_penalty: false }),
        0x6a => Some(Instr { op: Op::Ror, mode: AddrMode::Accumulator, cycles: 2, page_penalty: false }),
        0x6c => Some(Instr { op: Op::Jmp, mode: AddrMode::Indirect, cycles: 5, page_penalty: false }),
        0x6d => Some(Instr { op: Op::Adc, mode: AddrMode::Absolute, cycles: 4, page_penalty: false }),
        0x6e => Some(Instr { op: Op::Ror, mode: AddrMode::Absolute, cycles: 6, page_penalty: false }),
        0x70 => Some(Instr { op: Op::Bvs, mode: AddrMode::Relative, cycles: 2, page_penalty: false }),
        0x71 => Some(Instr { op: Op::Adc, mode: AddrMode::IndirectY, cycles: 5, page_penalty: true }),
        0x75 => Some(Instr { op: Op::Adc, mode: AddrMode::ZeroPageX, cycles: 4, page_penalty: false }),
        0x76 => Some(Instr { op: Op::Ror, mode: AddrMode::ZeroPageX, cycles: 6, page_penalty: false }),
        0x78 => Some(Instr { op: Op::Sei, mode: AddrMode::Implied, cycles: 2, page_penalty: false }),
        0x79 => Some(Instr { op: Op::Adc, mode: AddrMode::AbsoluteY, cycles: 4, page_penalty: true }),
        0x7d => Some(Instr { op: Op::Adc, mode: AddrMode::AbsoluteX, cycles: 4, page_penalty: true }),
        0x7e => Some(Instr { op: Op::Ror, mode: AddrMode::AbsoluteX, cycles: 7, page_penalty: false }),
        0x81 => Some(Instr { op: Op::Sta, mode: AddrMode::IndirectX, cycles: 6, page_penalty: false }),
        0x84 => Some(Instr { op: Op::Sty, mode: AddrMode::ZeroPage, cycles: 3, page_penalty: false }),
        0x85 => Some(Instr { op: Op::Sta, mode: AddrMode::ZeroPage, cycles: 3, page_penalty: false }),
        0x86 => Some(Instr { op: Op::Stx, mode: AddrMode::ZeroPage, cycles: 3, page_penalty: false }),
        0x88 => Some(Instr { op: Op::Dey, mode: AddrMode::Implied, cycles: 2, page_penalty: false }),
        0x8a => Some(Instr { op: Op::Txa, mode: AddrMode::Implied, cycles: 2, page_penalty: false }),
        0x8c => Some(Instr { op: Op::Sty, mode: AddrMode::Absolute, cycles: 4, page_penalty: false }),
        0x8d => Some(Instr { op: Op::Sta, mode: AddrMode::Absolute, cycles: 4, page_penalty: false }),
        0x8e => Some(Instr { op: Op::Stx, mode: AddrMode::Absolute, cycles: 4, page_penalty: false }),
        0x90 => Some(Instr { op: Op::Bcc, mode: AddrMode::Relative, cycles: 2, page_penalty: false }),
        0x91 => Some(Instr { op: Op::Sta, mode: AddrMode::IndirectY, cycles: 6, page_penalty: false }),
        0x94 => Some(Instr { op: Op::Sty, mode: AddrMode::ZeroPageX, cycles: 4, page_penalty: false }),
        0x95 => Some(Instr { op: Op::Sta, mode: AddrMode::ZeroPageX, cycles: 4, page_penalty: false }),
        0x96 => Some(Instr { op: Op::Stx, mode: AddrMode::ZeroPageY, cycles: 4, page_penalty: false }),
        0x98 => Some(Instr { op: Op::Tya, mode: AddrMode::Implied, cycles: 2, page_penalty: false }),
        0x99 => Some(Instr { op: Op::Sta, mode: AddrMode::AbsoluteY, cycles: 5, page_penalty: false }),
        0x9a => Some(Instr { op: Op::Txs, mode: AddrMode::Implied, cycles: 2, page_penalty: false }),
        0x9d => Some(Instr { op: Op::Sta, mode: AddrMode::AbsoluteX, cycles: 5, page_penalty: false }),
        0xa0 => Some(Instr { op: Op::Ldy, mode: AddrMode::Immediate, cycles: 2, page_penalty: false }),
        0xa1 => Some(Instr { op: Op::Lda, mode: AddrMode::IndirectX, cycles: 6, page_penalty: false }),
        0xa2 => Some(Instr { op: Op::Ldx, mode: AddrMode::Immediate, cycles: 2, page_penalty: false }),
        0xa4 => Some(Instr { op: Op::Ldy, mode: AddrMode::ZeroPage, cycles: 3, page_penalty: false }),
        0xa5 => Some(Instr { op: Op::Lda, mode: AddrMode::ZeroPage, cycles: 3, page_penalty: false }),
        0xa6 => Some(Instr { op: Op::Ldx, mode: AddrMode::ZeroPage, cycles: 3, page_penalty: false }),
        0xa8 => Some(Instr { op: Op::Tay, mode: AddrMode::Implied, cycles: 2, page_penalty: false }),
        0xa9 => Some(Instr { op: Op::Lda, mode: AddrMode::Immediate, cycles: 2, page_penalty: false }),
        0xaa => Some(Instr { op: Op::Tax, mode: AddrMode::Implied, cycles: 2, page_penalty: false }),
        0xac => Some(Instr { op: Op::Ldy, mode: AddrMode::Absolute, cycles: 4, page_penalty: false }),
        0xad => Some(Instr { op: Op::Lda, mode: AddrMode::Absolute, cycles: 4, page_penalty: false }),
        0xae => Some(Instr { op: Op::Ldx, mode: AddrMode::Absolute, cycles: 4, page_penalty: false }),
        0xb0 => Some(Instr { op: Op::Bcs, mode: AddrMode::Relative, cycles: 2, page_penalty: false }),
        0xb1 => Some(Instr { op: Op::Lda, mode: AddrMode::IndirectY, cycles: 5, page_penalty: true }),
        0xb4 => Some(Instr { op: Op::Ldy, mode: AddrMode::ZeroPageX, cycles: 4, page_penalty: false }),
        0xb5 => Some(Instr { op: Op::Lda, mode: AddrMode::ZeroPageX, cycles: 4, page_penalty: false }),
        0xb6 => Some(Instr { op: Op::Ldx, mode: AddrMode::ZeroPageY, cycles: 4, page_penalty: false }),
        0xb8 => Some(Instr { op: Op::Clv, mode: AddrMode::Implied, cycles: 2, page_penalty: false }),
        0xb9 => Some(Instr { op: Op::Lda, mode: AddrMode::AbsoluteY, cycles: 4, page_penalty: true }),
        0xba => Some(Instr { op: Op::Tsx, mode: AddrMode::Implied, cycles: 2, page_penalty: false }),
        0xbc => Some(Instr { op: Op::Ldy, mode: AddrMode::AbsoluteX, cycles: 4, page_penalty: true }),
        0xbd => Some(Instr { op: Op::Lda, mode: AddrMode::AbsoluteX, cycles: 4, page_penalty: true }),
        0xbe => Some(Instr { op: Op::Ldx, mode: AddrMode::AbsoluteY, cycles: 4, page_penalty: true }),
        0xc0 => Some(Instr { op: Op::Cpy, mode: AddrMode::Immediate, cycles: 2, page_penalty: false }),
        0xc1 => Some(Instr { op: Op::Cmp, mode: AddrMode::IndirectX, cycles: 6, page_penalty: false }),
        0xc4 => Some(Instr { op: Op::Cpy, mode: AddrMode::ZeroPage, cycles: 3, page_penalty: false }),
        0xc5 => Some(Instr { op: Op::Cmp, mode: AddrMode::ZeroPage, cycles: 3, page_penalty: false }),
        0xc6 => Some(Instr { op: Op::Dec, mode: AddrMode::ZeroPage, cycles: 5, page_penalty: false }),
        0xc8 => Some(Instr { op: Op::Iny, mode: AddrMode::Implied, cycles: 2, page_penalty: false }),
        0xc9 => Some(Instr { op: Op::Cmp, mode: AddrMode::Immediate, cycles: 2, page_penalty: false }),
        0xca => Some(Instr { op: Op::Dex, mode: AddrMode::Implied, cycles: 2, page_penalty: false }),
        0xcc => Some(Instr { op: Op::Cpy, mode: AddrMode::Absolute, cycles: 4, page_penalty: false }),
        0xcd => Some(Instr { op: Op::Cmp, mode: AddrMode::Absolute, cycles: 4, page_penalty: false }),
        0xce => Some(Instr { op: Op::Dec, mode: AddrMode::Absolute, cycles: 6, page_penalty: false }),
        0xd0 => Some(Instr { op: Op::Bne, mode: AddrMode::Relative, cycles: 2, page_penalty: false }),
        0xd1 => Some(Instr { op: Op::Cmp, mode: AddrMode::IndirectY, cycles: 5, page_penalty: true }),
        0xd5 => Some(Instr { op: Op::Cmp, mode: AddrMode::ZeroPageX, cycles: 4, page_penalty: false }),
        0xd6 => Some(Instr { op: Op::Dec, mode: AddrMode::ZeroPageX, cycles: 6, page_penalty: false }),
        0xd8 => Some(Instr { op: Op::Cld, mode: AddrMode::Implied, cycles: 2, page_penalty: false }),
        0xd9 => Some(Instr { op: Op::Cmp, mode: AddrMode::AbsoluteY, cycles: 4, page_penalty: true }),
        0xdd => Some(Instr { op: Op::Cmp, mode: AddrMode::AbsoluteX, cycles: 4, page_penalty: true }),
        0xde => Some(Instr { op: Op::Dec, mode: AddrMode::AbsoluteX, cycles: 7, page_penalty: false }),
        0xe0 => Some(Instr { op: Op::Cpx, mode: AddrMode::Immediate, cycles: 2, page_penalty: false }),
        0xe1 => Some(Instr { op: Op::Sbc, mode: AddrMode::IndirectX, cycles: 6, page_penalty: false }),
        0xe4 => Some(Instr { op: Op::Cpx, mode: AddrMode::ZeroPage, cycles: 3, page_penalty: false }),
        0xe5 => Some(Instr { op: Op::Sbc, mode: AddrMode::ZeroPage, cycles: 3, page_penalty: false }),
        0xe6 => Some(Instr { op: Op::Inc, mode: AddrMode::ZeroPage, cycles: 5, page_penalty: false }),
        0xe8 => Some(Instr { op: Op::Inx, mode: AddrMode::Implied, cycles: 2, page_penalty: false }),
        0xe9 => Some(Instr { op: Op::Sbc, mode: AddrMode::Immediate, cycles: 2, page_penalty: false }),
        0xea => Some(Instr { op: Op::Nop, mode: AddrMode::Implied, cycles: 2, page_penalty: false }),
        0xec => Some(Instr { op: Op::Cpx, mode: AddrMode::Absolute, cycles: 4, page_penalty: false }),
        0xed => Some(Instr { op: Op::Sbc, mode: AddrMode::Absolute, cycles: 4, page_penalty: false }),
        0xee => Some(Instr { op: Op::Inc, mode: AddrMode::Absolute, cycles: 6, page_penalty: false }),
        0xf0 => Some(Instr { op: Op::Beq, mode: AddrMode::Relative, cycles: 2, page_penalty: false }),
        0xf1 => Some(Instr { op: Op::Sbc, mode: AddrMode::IndirectY, cycles: 5, page_penalty: true }),
        0xf5 => Some(Instr { op: Op::Sbc, mode: AddrMode::ZeroPageX, cycles: 4, page_penalty: false }),
        0xf6 => Some(Instr { op: Op::Inc, mode: AddrMode::ZeroPageX, cycles: 6, page_penalty: false }),
        0xf8 => Some(Instr { op: Op::Sed, mode: AddrMode::Implied, cycles: 2, page_penalty: false }),
        0xf9 => Some(Instr { op: Op::Sbc, mode: AddrMode::AbsoluteY, cycles: 4, page_penalty: true }),
        0xfd => Some(Instr { op: Op::Sbc, mode: AddrMode::AbsoluteX, cycles: 4, page_penalty: true }),
        0xfe => Some(Instr { op: Op::Inc, mode: AddrMode::AbsoluteX, cycles: 7, page_penalty: false }),
        _ => None,
    }
}

impl Instr {
    /// What holds of every entry of the dispatch table: it costs between
    /// two and seven cycles; its operation accepts what its addressing mode
    /// resolves to, so that nothing is ever written back to an immediate
    /// operand; and only an operation that reads, through a mode that adds
    /// an index to a base address, pays for a page crossing.
    pub open spec fn wf(self) -> bool {
        &&& 2 <= self.cycles <= 7
        &&& self.op.accepts_mode(self.mode)
        &&& self.page_penalty ==> self.mode.indexes_base() && self.op.reads_value()
        &&& self.op.is_branch() <==> self.mode == AddrMode::Relative
    }
}

/// An operation that accepts a mode accepts every operand that the mode
/// resolves to.
pub proof fn lemma_accepts(op: Op, mode: AddrMode, operand: Operand)
    requires
        op.accepts_mode(mode),
        mode.yields(operand),
    ensures
        op.accepts(operand),
{
}

/// Every entry of the dispatch table costs between two and seven cycles.
pub proof fn lemma_table_costs(opcode: u8)
    ensures
        instruction(opcode) matches Some(instr) ==> 2 <= instr.cycles <= 7,
{
}

/// In every entry of the dispatch table the operation accepts the mode.
pub proof fn lemma_table_operands(opcode: u8)
    ensures
        instruction(opcode) matches Some(instr) ==> instr.op.accepts_mode(instr.mode),
{
}

/// In the dispatch table only reads through an indexed base address pay
/// for a page crossing, and the branches are the relative instructions.
pub proof fn lemma_table_penalties(opcode: u8)
    ensures
        instruction(opcode) matches Some(instr) ==> {
            &&& instr.page_penalty ==> instr.mode.indexes_base() && instr.op.reads_value()
            &&& instr.op.is_branch() <==> instr.mode == AddrMode::Relative
        },
{
}

/// Every entry of the dispatch table is well-formed.
pub proof fn lemma_table_wf(opcode: u8)
    ensures
        instruction(opcode) matches Some(instr) ==> instr.wf(),
{
    lemma_table_costs(opcode);
    lemma_table_operands(opcode);
    lemma_table_penalties(opcode);
}

/// Looks an opcode up in the dispatch table.
pub fn decode(opcode: u8) -> (entry: Option<Instr>)
    ensures
        entry == instruction(opcode),
        entry matches Some(instr) ==> instr.wf(),
{
    match opcode {
        0x00 => Some(Instr { op: Op::Brk, mode: AddrMode::Implied, cycles: 7, page_penalty: false }),
        0x01 => Some(Instr { op: Op::Ora, mode: AddrMode::IndirectX, cycles: 6, page_penalty: false }),
        0x05 => Some(Instr { op: Op::Ora, mode: AddrMode::ZeroPage, cycles: 3, page_penalty: false }),
        0x06 => Some(Instr { op: Op::Asl, mode: AddrMode::ZeroPage, cycles: 5, page_penalty: false }),
        0x08 => Some(Instr { op: Op::Php, mode: AddrMode::Implied, cycles: 3, page_penalty: false }),
        0x09 => Some(Instr { op: Op::Ora, mode: AddrMode::Immediate, cycles: 2, page_penalty: false }),
        0x0a => Some(Instr { op: Op::Asl, mode: AddrMode::Accumulator, cycles: 2, page_penalty: false }),
        0x0d => Some(Instr { op: Op::Ora, mode: AddrMode::Absolute, cycles: 4, page_penalty: false }),
        0x0e => Some(Instr { op: Op::Asl, mode: AddrMode::Absolute, cycles: 6, page_penalty: false }),
        0x10 => Some(Instr { op: Op::Bpl, mode: AddrMode::Relative, cycles: 2, page_penalty: false }),
        0x11 => Some(Instr { op: Op::Ora, mode: AddrMode::IndirectY, cycles: 5, page_penalty: true }),
        0x15 => Some(Instr { op: Op::Ora, mode: AddrMode::ZeroPageX, cycles: 4, page_penalty: false }),
        0x16 => Some(Instr { op: Op::Asl, mode: AddrMode::ZeroPageX, cycles: 6, page_penalty: false }),
        0x18 => Some(Instr { op: Op::Clc, mode: AddrMode::Implied, cycles: 2, page_penalty: false }),
        0x19 => Some(Instr { op: Op::Ora, mode: AddrMode::AbsoluteY, cycles: 4, page_penalty: true }),
        0x1d => Some(Instr { op: Op::Ora, mode: AddrMode::AbsoluteX, cycles: 4, page_penalty: true }),
        0x1e => Some(Instr { op: Op::Asl, mode: AddrMode::AbsoluteX, cycles: 7, page_penalty: false }),
        0x20 => Some(Instr { op: Op::Jsr, mode: AddrMode::Absolute, cycles: 6, page_penalty: false }),
        0x21 => Some(Instr { op: Op::And, mode: AddrMode::IndirectX, cycles: 6, page_penalty: false }),
        0x24 => Some(Instr { op: Op::Bit, mode: AddrMode::ZeroPage, cycles: 3, page_penalty: false }),
        0x25 => Some(Instr { op: Op::And, mode: AddrMode::ZeroPage, cycles: 3, page_penalty: false }),
        0x26 => Some(Instr { op: Op::Rol, mode: AddrMode::ZeroPage, cycles: 5, page_penalty: false }),
        0x28 => Some(Instr { op: Op::Plp, mode: AddrMode::Implied, cycles: 4, page_penalty: false }),
        0x29 => Some(Instr { op: Op::And, mode: AddrMode::Immediate, cycles: 2, page_penalty: false }),
        0x2a => Some(Instr { op: Op::Rol, mode: AddrMode::Accumulator, cycles: 2, page_penalty: false }),
        0x2c => Some(Instr { op: Op::Bit, mode: AddrMode::Absolute, cycles: 4, page_penalty: false }),
        0x2d => Some(Instr { op: Op::And, mode: AddrMode::Absolute, cycles: 4, page_penalty: false }),
        0x2e => Some(Instr { op: Op::Rol, mode: AddrMode::Absolute, cycles: 6, page_penalty: false }),
        0x30 => Some(Instr { op: Op::Bmi, mode: AddrMode::Relative, cycles: 2, page_penalty: false }),
        0x31 => Some(Instr { op: Op::And, mode: AddrMode::IndirectY, cycles: 5, page_penalty: true }),
        0x35 => Some(Instr { op: Op::And, mode: AddrMode::ZeroPageX, cycles: 4, page_penalty: false }),
        0x36 => Some(Instr { op: Op::Rol, mode: AddrMode::ZeroPageX, cycles: 6, page_penalty: false }),
        0x38 => Some(Instr { op: Op::Sec, mode: AddrMode::Implied, cycles: 2, page_penalty: false }),
        0x39 => Some(Instr { op: Op::And, mode: AddrMode::AbsoluteY, cycles: 4, page_penalty: true }),
        0x3d => Some(Instr { op: Op::And, mode: AddrMode::AbsoluteX, cycles: 4, page_penalty: true }),
        0x3e => Some(Instr { op: Op::Rol, mode: AddrMode::AbsoluteX, cycles: 7, page_penalty: false }),
        0x40 => Some(Instr { op: Op::Rti, mode: AddrMode::Implied, cycles: 6, page_penalty: false }),
        0x41 => Some(Instr { op: Op::Eor, mode: AddrMode::IndirectX, cycles: 6, page_penalty: false }),
        0x45 => Some(Instr { op: Op::Eor, mode: AddrMode::ZeroPage, cycles: 3, page_penalty: false }),
        0x46 => Some(Instr { op: Op::Lsr, mode: AddrMode::ZeroPage, cycles: 5, page_penalty: false }),
        0x48 => Some(Instr { op: Op::Pha, mode: AddrMode::Implied, cycles: 3, page_penalty: false }),
        0x49 => Some(Instr { op: Op::Eor, mode: AddrMode::Immediate, cycles: 2, page_penalty: false }),
        0x4a => Some(Instr { op: Op::Lsr, mode: AddrMode::Accumulator, cycles: 2, page_penalty: false }),
        0x4c => Some(Instr { op: Op::Jmp, mode: AddrMode::Absolute, cycles: 3, page_penalty: false }),
        0x4d => Some(Instr { op: Op::Eor, mode: AddrMode::Absolute, cycles: 4, page_penalty: false }),
        0x4e => Some(Instr { op: Op::Lsr, mode: AddrMode::Absolute, cycles: 6, page_penalty: false }),
        0x50 => Some(Instr { op: Op::Bvc, mode: AddrMode::Relative, cycles: 2, page_penalty: false }),
        0x51 => Some(Instr { op: Op::Eor, mode: AddrMode::IndirectY, cycles: 5, page_penalty: true }),
        0x55 => Some(Instr { op: Op::Eor, mode: AddrMode::ZeroPageX, cycles: 4, page_penalty: false }),
        0x56 => Some(Instr { op: Op::Lsr, mode: AddrMode::ZeroPageX, cycles: 6, page_penalty: false }),
        0x58 => Some(Instr { op: Op::Cli, mode: AddrMode::Implied, cycles: 2, page_penalty: false }),
        0x59 => Some(Instr { op: Op::Eor, mode: AddrMode::AbsoluteY, cycles: 4, page_penalty: true }),
        0x5d => Some(Instr { op: Op::Eor, mode: AddrMode::AbsoluteX, cycles: 4, page_penalty: true }),
        0x5e => Some(Instr { op: Op::Lsr, mode: AddrMode::AbsoluteX, cycles: 7, page_penalty: false }),
        0x60 => Some(Instr { op: Op::Rts, mode: AddrMode::Implied, cycles: 6, page_penalty: false }),
        0x61 => Some(Instr { op: Op::Adc, mode: AddrMode::IndirectX, cycles: 6, page_penalty: false }),
        0x65 => Some(Instr { op: Op::Adc, mode: AddrMode::ZeroPage, cycles: 3, page_penalty: false }),
        0x66 => Some(Instr { op: Op::Ror, mode: AddrMode::ZeroPage, cycles: 5, page_penalty: false }),
        0x68 => Some(Instr { op: Op::Pla, mode: AddrMode::Implied, cycles: 4, page_penalty: false }),
        0x69 => Some(Instr { op: Op::Adc, mode: AddrMode::Immediate, cycles: 2, page_penalty: false }),
        0x6a => Some(Instr { op: Op::Ror, mode: AddrMode::Accumulator, cycles: 2, page_penalty: false }),
        0x6c => Some(Instr { op: Op::Jmp, mode: AddrMode::Indirect, cycles: 5, page_penalty: false }),
        0x6d => Some(Instr { op: Op::Adc, mode: AddrMode::Absolute, cycles: 4, page_penalty: false }),
        0x6e => Some(Instr { op: Op::Ror, mode: AddrMode::Absolute, cycles: 6, page_penalty: false }),
        0x70 => Some(Instr { op: Op::Bvs, mode: AddrMode::Relative, cycles: 2, page_penalty: false }),
        0x71 => Some(Instr { op: Op::Adc, mode: AddrMode::IndirectY, cycles: 5, page_penalty: true }),
        0x75 => Some(Instr { op: Op::Adc, mode: AddrMode::ZeroPageX, cycles: 4, page_penalty: false }),
        0x76 => Some(Instr { op: Op::Ror, mode: AddrMode::ZeroPageX, cycles: 6, page_penalty: false }),
        0x78 => Some(Instr { op: Op::Sei, mode: AddrMode::Implied, cycles: 2, page_penalty: false }),
        0x79 => Some(Instr { op: Op::Adc, mode: AddrMode::AbsoluteY, cycles: 4, page_penalty: true }),
        0x7d => Some(Instr { op: Op::Adc, mode: AddrMode::AbsoluteX, cycles: 4, page_penalty: true }),
        0x7e => Some(Instr { op: Op::Ror, mode: AddrMode::AbsoluteX, cycles: 7, page_penalty: false }),
        0x81 => Some(Instr { op: Op::Sta, mode: AddrMode::IndirectX, cycles: 6, page_penalty: false }),
        0x84 => Some(Instr { op: Op::Sty, mode: AddrMode::ZeroPage, cycles: 3, page_penalty: false }),
        0x85 => Some(Instr { op: Op::Sta, mode: AddrMode::ZeroPage, cycles: 3, page_penalty: false }),
        0x86 => Some(Instr { op: Op::Stx, mode: AddrMode::ZeroPage, cycles: 3, page_penalty: false }),
        0x88 => Some(Instr { op: Op::Dey, mode: AddrMode::Implied, cycles: 2, page_penalty: false }),
        0x8a => Some(Instr { op: Op::Txa, mode: AddrMode::Implied, cycles: 2, page_penalty: false }),
        0x8c => Some(Instr { op: Op::Sty, mode: AddrMode::Absolute, cycles: 4, page_penalty: false }),
        0x8d => Some(Instr { op: Op::Sta, mode: AddrMode::Absolute, cycles: 4, page_penalty: false }),
        0x8e => Some(Instr { op: Op::Stx, mode: AddrMode::Absolute, cycles: 4, page_penalty: false }),
        0x90 => Some(Instr { op: Op::Bcc, mode: AddrMode::Relative, cycles: 2, page_penalty: false }),
        0x91 => Some(Instr { op: Op::Sta, mode: AddrMode::IndirectY, cycles: 6, page_penalty: false }),
        0x94 => Some(Instr { op: Op::Sty, mode: AddrMode::ZeroPageX, cycles: 4, page_penalty: false }),
        0x95 => Some(Instr { op: Op::Sta, mode: AddrMode::ZeroPageX, cycles: 4, page_penalty: false }),
        0x96 => Some(Instr { op: Op::Stx, mode: AddrMode::ZeroPageY, cycles: 4, page_penalty: false }),
        0x98 => Some(Instr { op: Op::Tya, mode: AddrMode::Implied, cycles: 2, page_penalty: false }),
        0x99 => Some(Instr { op: Op::Sta, mode: AddrMode::AbsoluteY, cycles: 5, page_penalty: false }),
        0x9a => Some(Instr { op: Op::Txs, mode: AddrMode::Implied, cycles: 2, page_penalty: false }),
        0x9d => Some(Instr { op: Op::Sta, mode: AddrMode::AbsoluteX, cycles: 5, page_penalty: false }),
        0xa0 => Some(Instr { op: Op::Ldy, mode: AddrMode::Immediate, cycles: 2, page_penalty: false }),
        0xa1 => Some(Instr { op: Op::Lda, mode: AddrMode::IndirectX, cycles: 6, page_penalty: false }),
        0xa2 => Some(Instr { op: Op::Ldx, mode: AddrMode::Immediate, cycles: 2, page_penalty: false }),
        0xa4 => Some(Instr { op: Op::Ldy, mode: AddrMode::ZeroPage, cycles: 3, page_penalty: false }),
        0xa5 => Some(Instr { op: Op::Lda, mode: AddrMode::ZeroPage, cycles: 3, page_penalty: false }),
        0xa6 => Some(Instr { op: Op::Ldx, mode: AddrMode::ZeroPage, cycles: 3, page_penalty: false }),
        0xa8 => Some(Instr { op: Op::Tay, mode: AddrMode::Implied, cycles: 2, page_penalty: false }),
        0xa9 => Some(Instr { op: Op::Lda, mode: AddrMode::Immediate, cycles: 2, page_penalty: false }),
        0xaa => Some(Instr { op: Op::Tax, mode: AddrMode::Implied, cycles: 2, page_penalty: false }),
        0xac => Some(Instr { op: Op::Ldy, mode: AddrMode::Absolute, cycles: 4, page_penalty: false }),
        0xad => Some(Instr { op: Op::Lda, mode: AddrMode::Absolute, cycles: 4, page_penalty: false }),
        0xae => Some(Instr { op: Op::Ldx, mode: AddrMode::Absolute, cycles: 4, page_penalty: false }),
        0xb0 => Some(Instr { op: Op::Bcs, mode: AddrMode::Relative, cycles: 2, page_penalty: false }),
        0xb1 => Some(Instr { op: Op::Lda, mode: AddrMode::IndirectY, cycles: 5, page_penalty: true }),
        0xb4 => Some(Instr { op: Op::Ldy, mode: AddrMode::ZeroPageX, cycles: 4, page_penalty: false }),
        0xb5 => Some(Instr { op: Op::Lda, mode: AddrMode::ZeroPageX, cycles: 4, page_penalty: false }),
        0xb6 => Some(Instr { op: Op::Ldx, mode: AddrMode::ZeroPageY, cycles: 4, page_penalty: false }),
        0xb8 => Some(Instr { op: Op::Clv, mode: AddrMode::Implied, cycles: 2, page_penalty: false }),
        0xb9 => Some(Instr { op: Op::Lda, mode: AddrMode::AbsoluteY, cycles: 4, page_penalty: true }),
        0xba => Some(Instr { op: Op::Tsx, mode: AddrMode::Implied, cycles: 2, page_penalty: false }),
        0xbc => Some(Instr { op: Op::Ldy, mode: AddrMode::AbsoluteX, cycles: 4, page_penalty: true }),
        0xbd => Some(Instr { op: Op::Lda, mode: AddrMode::AbsoluteX, cycles: 4, page_penalty: true }),
        0xbe => Some(Instr { op: Op::Ldx, mode: AddrMode::AbsoluteY, cycles: 4, page_penalty: true }),
        0xc0 => Some(Instr { op: Op::Cpy, mode: AddrMode::Immediate, cycles: 2, page_penalty: false }),
        0xc1 => Some(Instr { op: Op::Cmp, mode: AddrMode::IndirectX, cycles: 6, page_penalty: false }),
        0xc4 => Some(Instr { op: Op::Cpy, mode: AddrMode::ZeroPage, cycles: 3, page_penalty: false }),
        0xc5 => Some(Instr { op: Op::Cmp, mode: AddrMode::ZeroPage, cycles: 3, page_penalty: false }),
        0xc6 => Some(Instr { op: Op::Dec, mode: AddrMode::ZeroPage, cycles: 5, page_penalty: false }),
        0xc8 => Some(Instr { op: Op::Iny, mode: AddrMode::Implied, cycles: 2, page_penalty: false }),
        0xc9 => Some(Instr { op: Op::Cmp, mode: AddrMode::Immediate, cycles: 2, page_penalty: false }),
        0xca => Some(Instr { op: Op::Dex, mode: AddrMode::Implied, cycles: 2, page_penalty: false }),
        0xcc => Some(Instr { op: Op::Cpy, mode: AddrMode::Absolute, cycles: 4, page_penalty: false }),
        0xcd => Some(Instr { op: Op::Cmp, mode: AddrMode::Absolute, cycles: 4, page_penalty: false }),
        0xce => Some(Instr { op: Op::Dec, mode: AddrMode::Absolute, cycles: 6, page_penalty: false }),
        0xd0 => Some(Instr { op: Op::Bne, mode: AddrMode::Relative, cycles: 2, page_penalty: false }),
        0xd1 => Some(Instr { op: Op::Cmp, mode: AddrMode::IndirectY, cycles: 5, page_penalty: true }),
        0xd5 => Some(Instr { op: Op::Cmp, mode: AddrMode::ZeroPageX, cycles: 4, page_penalty: false }),
        0xd6 => Some(Instr { op: Op::Dec, mode: AddrMode::ZeroPageX, cycles: 6, page_penalty: false }),
        0xd8 => Some(Instr { op: Op::Cld, mode: AddrMode::Implied, cycles: 2, page_penalty: false }),
        0xd9 => Some(Instr { op: Op::Cmp, mode: AddrMode::AbsoluteY, cycles: 4, page_penalty: true }),
        0xdd => Some(Instr { op: Op::Cmp, mode: AddrMode::AbsoluteX, cycles: 4, page_penalty: true }),
        0xde => Some(Instr { op: Op::Dec, mode: AddrMode::AbsoluteX, cycles: 7, page_penalty: false }),
        0xe0 => Some(Instr { op: Op::Cpx, mode: AddrMode::Immediate, cycles: 2, page_penalty: false }),
        0xe1 => Some(Instr { op: Op::Sbc, mode: AddrMode::IndirectX, cycles: 6, page_penalty: false }),
        0xe4 => Some(Instr { op: Op::Cpx, mode: AddrMode::ZeroPage, cycles: 3, page_penalty: false }),
        0xe5 => Some(Instr { op: Op::Sbc, mode: AddrMode::ZeroPage, cycles: 3, page_penalty: false }),
        0xe6 => Some(Instr { op: Op::Inc, mode: AddrMode::ZeroPage, cycles: 5, page_penalty: false }),
        0xe8 => Some(Instr { op: Op::Inx, mode: AddrMode::Implied, cycles: 2, page_penalty: false }),
        0xe9 => Some(Instr { op: Op::Sbc, mode: AddrMode::Immediate, cycles: 2, page_penalty: false }),
        0xea => Some(Instr { op: Op::Nop, mode: AddrMode::Implied, cycles: 2, page_penalty: false }),
        0xec => Some(Instr { op: Op::Cpx, mode: AddrMode::Absolute, cycles: 4, page_penalty: false }),
        0xed => Some(Instr { op: Op::Sbc, mode: AddrMode::Absolute, cycles: 4, page_penalty: false }),
        0xee => Some(Instr { op: Op::Inc, mode: AddrMode::Absolute, cycles: 6, page_penalty: false }),
        0xf0 => Some(Instr { op: Op::Beq, mode: AddrMode::Relative, cycles: 2, page_penalty: false }),
        0xf1 => Some(Instr { op: Op::Sbc, mode: AddrMode::IndirectY, cycles: 5, page_penalty: true }),
        0xf5 => Some(Instr { op: Op::Sbc, mode: AddrMode::ZeroPageX, cycles: 4, page_penalty: false }),
        0xf6 => Some(Instr { op: Op::Inc, mode: AddrMode::ZeroPageX, cycles: 6, page_penalty: false }),
        0xf8 => Some(Instr { op: Op::Sed, mode: AddrMode::Implied, cycles: 2, page_penalty: false }),
        0xf9 => Some(Instr { op: Op::Sbc, mode: AddrMode::AbsoluteY, cycles: 4, page_penalty: true }),
        0xfd => Some(Instr { op: Op::Sbc, mode: AddrMode::AbsoluteX, cycles: 4, page_penalty: true }),
        0xfe => Some(Instr { op: Op::Inc, mode: AddrMode::AbsoluteX, cycles: 7, page_penalty: false }),
        _ => None,
    }
}

} // verus!
