use redwhite::cpu::Cpu;
use redwhite::instr::{Op, Operand};
use redwhite::memory::Mem;
use redwhite::ops::{
    and, asl, bit, cmp, count_index, cpx, cpy, dec, eor, execute, inc, lda, ldx, ldy, load, lsr,
    ora, pha, php, pla, plp, rol, ror, rti, set_flag, sta, stx, sty, transfer, writeback,
};

fn cpu_with(program: &[u8], at: u16) -> Cpu {
    let mut cpu = Cpu::new();
    let mut addr = at;
    for byte in program {
        cpu.mem.write(addr, *byte);
        addr = addr.wrapping_add(1);
    }
    cpu.pc = at;
    cpu
}

#[test]
fn fetch_moves_the_program_counter() {
    let mut cpu = cpu_with(&[0x11, 0x22, 0x33], 0x0400);
    assert_eq!(cpu.read_increment_pc(), 0x11);
    assert_eq!(cpu.pc, 0x0401);
    assert_eq!(cpu.read16_increment_pc(), 0x3322);
    assert_eq!(cpu.pc, 0x0403);
    assert_eq!(cpu.cycles, 0);
}

#[test]
fn fetch_wraps_at_the_top_of_the_address_space() {
    let mut cpu = Cpu::new();
    cpu.pc = 0xffff;
    assert_eq!(cpu.read_increment_pc(), 0);
    assert_eq!(cpu.pc, 0x0000);
}

#[test]
fn tick_counts_one_cycle() {
    let mut cpu = Cpu::new();
    cpu.tick();
    cpu.tick();
    assert_eq!(cpu.cycles, 2);
}

#[test]
fn stack_lives_in_page_one_and_wraps() {
    let mut cpu = Cpu::new();
    cpu.push(0xaa);
    assert_eq!(cpu.sp, 0xfc);
    assert_eq!(cpu.mem.read(0x01fd), 0xaa);
    assert_eq!(cpu.pop(), 0xaa);
    assert_eq!(cpu.sp, 0xfd);

    cpu.sp = 0x00;
    cpu.push(0xbb);
    assert_eq!(cpu.sp, 0xff);
    assert_eq!(cpu.mem.read(0x0100), 0xbb);
    assert_eq!(cpu.pop(), 0xbb);
    assert_eq!(cpu.sp, 0x00);

    cpu.sp = 0xff;
    cpu.mem.write(0x0100, 0xcc);
    assert_eq!(cpu.pop(), 0xcc);
    assert_eq!(cpu.sp, 0x00);
}

#[test]
fn words_go_on_the_stack_high_byte_first() {
    let mut cpu = Cpu::new();
    cpu.push16(0x1234);
    assert_eq!(cpu.sp, 0xfb);
    assert_eq!(cpu.mem.read(0x01fd), 0x12);
    assert_eq!(cpu.mem.read(0x01fc), 0x34);
    assert_eq!(cpu.pop16(), 0x1234);
    assert_eq!(cpu.sp, 0xfd);
}

#[test]
fn brk_pushes_and_goes_through_the_vector() {
    let mut cpu = cpu_with(&[0x00], 0x0300);
    cpu.p.set(0x00);
    cpu.p.carry = true;
    assert_eq!(cpu.run_instruction(), Ok(()));
    assert_eq!(cpu.cycles, 7);
    assert_eq!(cpu.pc, 0x0000);
    assert!(cpu.p.interrupt);
    assert_eq!(cpu.sp, 0xfa);
    assert_eq!(cpu.mem.read(0x01fd), 0x03);
    assert_eq!(cpu.mem.read(0x01fc), 0x01);
    assert_eq!(cpu.mem.read(0x01fb), 0x31);
}

#[test]
fn hardware_interrupt_pushes_the_status_without_break() {
    let mut cpu = Cpu::new();
    cpu.pc = 0x1234;
    cpu.p.set(0xff);
    cpu.do_interrupt(0xfffa, false);
    assert_eq!(cpu.mem.read(0x01fd), 0x12);
    assert_eq!(cpu.mem.read(0x01fc), 0x34);
    assert_eq!(cpu.mem.read(0x01fb), 0xef);
    assert!(cpu.p.interrupt);
    assert_eq!(cpu.pc, 0x0000);
    assert_eq!(cpu.cycles, 0);
}

#[test]
fn nmi_is_taken_at_the_end_of_the_instruction() {
    let mut cpu = cpu_with(&[0xea], 0x0300);
    cpu.nmi = true;
    cpu.p.interrupt = true;
    assert_eq!(cpu.step(), Ok(()));
    assert!(!cpu.nmi);
    assert_eq!(cpu.cycles, 2 + 7);
    assert_eq!(cpu.pc, 0x0000);
    assert_eq!(cpu.mem.read(0x01fd), 0x03);
    assert_eq!(cpu.mem.read(0x01fc), 0x01);
    assert_eq!(cpu.sp, 0xfa);
}

#[test]
fn irq_waits_while_interrupts_are_disabled() {
    let mut cpu = cpu_with(&[0xea, 0xea], 0x0300);
    cpu.irq = true;
    cpu.p.interrupt = true;
    assert_eq!(cpu.step(), Ok(()));
    assert!(cpu.irq);
    assert_eq!(cpu.pc, 0x0301);
    assert_eq!(cpu.cycles, 2);
    cpu.p.interrupt = false;
    assert_eq!(cpu.step(), Ok(()));
    assert!(!cpu.irq);
    assert!(cpu.p.interrupt);
    assert_eq!(cpu.pc, 0x0000);
    assert_eq!(cpu.cycles, 4 + 7);
}

#[test]
fn nmi_goes_before_irq() {
    let mut cpu = cpu_with(&[0xea], 0x0300);
    cpu.irq = true;
    cpu.nmi = true;
    cpu.p.interrupt = false;
    assert_eq!(cpu.step(), Ok(()));
    assert!(!cpu.nmi);
    assert!(cpu.irq);
    assert_eq!(cpu.cycles, 9);
}

#[test]
fn sei_takes_effect_after_the_interrupt_lines_were_looked_at() {
    let mut cpu = cpu_with(&[0x78], 0x0300);
    cpu.p.set(0x00);
    cpu.irq = true;
    assert_eq!(cpu.run_instruction(), Ok(()));
    assert!(!cpu.p.interrupt);
    assert_eq!(cpu.delayed_set_iflag, Some(true));
    cpu.finish_instruction();
    assert_eq!(cpu.delayed_set_iflag, None);
    assert!(!cpu.irq);
    assert!(cpu.p.interrupt);
    assert_eq!(cpu.mem.read(0x01fb), 0x24);
    assert_eq!(cpu.cycles, 2 + 7);
}

#[test]
fn cli_lets_an_irq_in_only_after_the_next_instruction() {
    let mut cpu = cpu_with(&[0x58, 0xea], 0x0300);
    cpu.p.set(0x04);
    cpu.irq = true;
    assert_eq!(cpu.step(), Ok(()));
    assert!(cpu.irq);
    assert!(!cpu.p.interrupt);
    assert_eq!(cpu.delayed_set_iflag, None);
    assert_eq!(cpu.pc, 0x0301);
    assert_eq!(cpu.cycles, 2);
    assert_eq!(cpu.step(), Ok(()));
    assert!(!cpu.irq);
    assert_eq!(cpu.pc, 0x0000);
    assert_eq!(cpu.cycles, 4 + 7);
}

#[test]
fn plp_delays_only_the_interrupt_flag() {
    let mut cpu = Cpu::new();
    cpu.p.set(0x00);
    cpu.push(0xcf);
    plp(&mut cpu);
    assert!(cpu.p.negative && cpu.p.overflow && cpu.p.decimal && cpu.p.zero && cpu.p.carry);
    assert!(!cpu.p.interrupt);
    assert_eq!(cpu.delayed_set_iflag, Some(true));
    cpu.finish_instruction();
    assert!(cpu.p.interrupt);
}

#[test]
fn php_pushes_break_and_the_unused_bit() {
    let mut cpu = Cpu::new();
    cpu.p.set(0x81);
    php(&mut cpu);
    assert_eq!(cpu.mem.read(0x01fd), 0xb1);
    assert_eq!(cpu.p.as_byte(), 0xa1);
}

#[test]
fn pha_and_pla() {
    let mut cpu = Cpu::new();
    cpu.a = 0x80;
    pha(&mut cpu);
    cpu.a = 0x00;
    cpu.p.set(0x00);
    pla(&mut cpu);
    assert_eq!(cpu.a, 0x80);
    assert!(cpu.p.negative);
    assert!(!cpu.p.zero);
    assert_eq!(cpu.sp, 0xfd);
}

#[test]
fn rti_restores_flags_and_program_counter() {
    let mut cpu = Cpu::new();
    cpu.push16(0x4567);
    cpu.push(0xc3);
    cpu.p.set(0x04);
    rti(&mut cpu);
    assert_eq!(cpu.pc, 0x4567);
    assert_eq!(cpu.p.as_byte(), 0xe3);
    assert_eq!(cpu.sp, 0xfd);
    assert_eq!(cpu.delayed_set_iflag, None);
}

#[test]
fn flag_instructions() {
    let mut cpu = Cpu::new();
    cpu.p.set(0x00);
    set_flag(&mut cpu, Op::Sec);
    assert!(cpu.p.carry);
    set_flag(&mut cpu, Op::Clc);
    assert!(!cpu.p.carry);
    set_flag(&mut cpu, Op::Sed);
    assert!(cpu.p.decimal);
    set_flag(&mut cpu, Op::Cld);
    assert!(!cpu.p.decimal);
    cpu.p.overflow = true;
    set_flag(&mut cpu, Op::Clv);
    assert!(!cpu.p.overflow);
    set_flag(&mut cpu, Op::Sei);
    assert!(!cpu.p.interrupt);
    assert_eq!(cpu.delayed_set_iflag, Some(true));
    set_flag(&mut cpu, Op::Cli);
    assert_eq!(cpu.delayed_set_iflag, Some(false));
    assert_eq!(cpu.p.as_byte(), 0x20);
}

#[test]
fn transfers_set_zero_and_negative_except_to_the_stack_pointer() {
    let mut cpu = Cpu::new();
    cpu.p.set(0x00);
    cpu.a = 0x80;
    transfer(&mut cpu, Op::Tax);
    assert_eq!(cpu.x, 0x80);
    assert!(cpu.p.negative);
    cpu.a = 0x00;
    transfer(&mut cpu, Op::Tay);
    assert_eq!(cpu.y, 0x00);
    assert!(cpu.p.zero && !cpu.p.negative);
    cpu.x = 0x00;
    cpu.p.set(0x80);
    transfer(&mut cpu, Op::Txs);
    assert_eq!(cpu.sp, 0x00);
    assert_eq!(cpu.p.as_byte(), 0xa0);
    cpu.sp = 0x7f;
    transfer(&mut cpu, Op::Tsx);
    assert_eq!(cpu.x, 0x7f);
    assert!(!cpu.p.zero && !cpu.p.negative);
    cpu.x = 0x90;
    transfer(&mut cpu, Op::Txa);
    assert_eq!(cpu.a, 0x90);
    assert!(cpu.p.negative);
    cpu.y = 0x01;
    transfer(&mut cpu, Op::Tya);
    assert_eq!(cpu.a, 0x01);
    assert!(!cpu.p.negative);
}

#[test]
fn index_registers_count_and_wrap() {
    let mut cpu = Cpu::new();
    cpu.x = 0xff;
    count_index(&mut cpu, Op::Inx);
    assert_eq!(cpu.x, 0x00);
    assert!(cpu.p.zero);
    count_index(&mut cpu, Op::Dex);
    assert_eq!(cpu.x, 0xff);
    assert!(cpu.p.negative && !cpu.p.zero);
    cpu.y = 0x7f;
    count_index(&mut cpu, Op::Iny);
    assert_eq!(cpu.y, 0x80);
    assert!(cpu.p.negative);
    count_index(&mut cpu, Op::Dey);
    assert_eq!(cpu.y, 0x7f);
    assert!(!cpu.p.negative);
}

#[test]
fn stores_write_their_own_register() {
    let mut cpu = Cpu::new();
    cpu.a = 0x11;
    cpu.x = 0x22;
    cpu.y = 0x33;
    sta(&mut cpu, Operand::Memory(0x0010));
    stx(&mut cpu, Operand::Memory(0x0011));
    sty(&mut cpu, Operand::Memory(0x0012));
    assert_eq!(cpu.mem.read(0x0010), 0x11);
    assert_eq!(cpu.mem.read(0x0011), 0x22);
    assert_eq!(cpu.mem.read(0x0012), 0x33);
    assert_eq!(cpu.p.as_byte(), 0x34);
}

#[test]
fn loads_set_zero_and_negative() {
    let mut cpu = Cpu::new();
    cpu.mem.write(0x0010, 0x80);
    lda(&mut cpu, Operand::Memory(0x0010));
    assert_eq!(cpu.a, 0x80);
    assert!(cpu.p.negative && !cpu.p.zero);
    ldx(&mut cpu, Operand::Immediate(0x00));
    assert_eq!(cpu.x, 0x00);
    assert!(cpu.p.zero && !cpu.p.negative);
    ldy(&mut cpu, Operand::Immediate(0x01));
    assert_eq!(cpu.y, 0x01);
    assert!(!cpu.p.zero && !cpu.p.negative);
}

#[test]
fn logic_instructions() {
    let mut cpu = Cpu::new();
    cpu.a = 0xf0;
    and(&mut cpu, Operand::Immediate(0x3c));
    assert_eq!(cpu.a, 0x30);
    ora(&mut cpu, Operand::Immediate(0x81));
    assert_eq!(cpu.a, 0xb1);
    assert!(cpu.p.negative);
    eor(&mut cpu, Operand::Immediate(0xb1));
    assert_eq!(cpu.a, 0x00);
    assert!(cpu.p.zero);
}

#[test]
fn bit_copies_the_top_bits_of_the_operand() {
    let mut cpu = Cpu::new();
    cpu.p.set(0x00);
    cpu.a = 0x01;
    cpu.mem.write(0x0010, 0xc0);
    bit(&mut cpu, Operand::Memory(0x0010));
    assert!(cpu.p.negative && cpu.p.overflow && cpu.p.zero);
    assert_eq!(cpu.a, 0x01);
    cpu.mem.write(0x0010, 0x01);
    bit(&mut cpu, Operand::Memory(0x0010));
    assert!(!cpu.p.negative && !cpu.p.overflow && !cpu.p.zero);
}

#[test]
fn comparisons_leave_the_registers_alone() {
    let mut cpu = Cpu::new();
    cpu.a = 0x40;
    cpu.x = 0x10;
    cpu.y = 0x00;
    cmp(&mut cpu, Operand::Immediate(0x40));
    assert!(cpu.p.carry && cpu.p.zero && !cpu.p.negative);
    cmp(&mut cpu, Operand::Immediate(0x41));
    assert!(!cpu.p.carry && !cpu.p.zero && cpu.p.negative);
    cpx(&mut cpu, Operand::Immediate(0x0f));
    assert!(cpu.p.carry && !cpu.p.zero && !cpu.p.negative);
    cpy(&mut cpu, Operand::Immediate(0x01));
    assert!(!cpu.p.carry && !cpu.p.zero && cpu.p.negative);
    cpu.a = 0x80;
    cmp(&mut cpu, Operand::Immediate(0x01));
    assert!(cpu.p.carry && !cpu.p.zero && !cpu.p.negative);
    assert_eq!((cpu.a, cpu.x, cpu.y), (0x80, 0x10, 0x00));
}

#[test]
fn shifts_and_rotations_on_the_accumulator_and_on_memory() {
    let mut cpu = Cpu::new();
    cpu.p.set(0x00);
    cpu.a = 0x81;
    asl(&mut cpu, Operand::Accumulator);
    assert_eq!(cpu.a, 0x02);
    assert!(cpu.p.carry);
    rol(&mut cpu, Operand::Accumulator);
    assert_eq!(cpu.a, 0x05);
    assert!(!cpu.p.carry);
    cpu.mem.write(0x0020, 0x01);
    lsr(&mut cpu, Operand::Memory(0x0020));
    assert_eq!(cpu.mem.read(0x0020), 0x00);
    assert!(cpu.p.carry && cpu.p.zero);
    ror(&mut cpu, Operand::Memory(0x0020));
    assert_eq!(cpu.mem.read(0x0020), 0x80);
    assert!(!cpu.p.carry && cpu.p.negative);
    assert_eq!(cpu.a, 0x05);
}

#[test]
fn memory_counts_up_and_down() {
    let mut cpu = Cpu::new();
    cpu.mem.write(0x0030, 0xff);
    inc(&mut cpu, Operand::Memory(0x0030));
    assert_eq!(cpu.mem.read(0x0030), 0x00);
    assert!(cpu.p.zero);
    dec(&mut cpu, Operand::Memory(0x0030));
    assert_eq!(cpu.mem.read(0x0030), 0xff);
    assert!(cpu.p.negative);
}

#[test]
fn operands_are_read_and_written() {
    let mut cpu = Cpu::new();
    cpu.a = 0x12;
    cpu.mem.write(0x0040, 0x34);
    assert_eq!(load(&mut cpu, Operand::Accumulator), 0x12);
    assert_eq!(load(&mut cpu, Operand::Immediate(0x56)), 0x56);
    assert_eq!(load(&mut cpu, Operand::Memory(0x0040)), 0x34);
    writeback(&mut cpu, Operand::Accumulator, 0x78);
    assert_eq!(cpu.a, 0x78);
    writeback(&mut cpu, Operand::Memory(0x0040), 0x9a);
    assert_eq!(cpu.mem.read(0x0040), 0x9a);
}

#[test]
fn execute_dispatches_on_the_operation() {
    let mut cpu = Cpu::new();
    execute(&mut cpu, Op::Lda, Operand::Immediate(0x42));
    assert_eq!(cpu.a, 0x42);
    execute(&mut cpu, Op::Tax, Operand::Implied);
    assert_eq!(cpu.x, 0x42);
    execute(&mut cpu, Op::Jmp, Operand::Memory(0x0600));
    assert_eq!(cpu.pc, 0x0600);
    execute(&mut cpu, Op::Nop, Operand::Implied);
    assert_eq!((cpu.a, cpu.x, cpu.pc, cpu.cycles), (0x42, 0x42, 0x0600, 0));
}

#[test]
fn a_small_program() {
    let program = [
        0xa2, 0x05, // ldx #5
        0xa9, 0x00, // lda #0
        0x18, // clc
        0x69, 0x03, // adc #3
        0xca, // dex
        0xd0, 0xfa, // bne -6
        0x85, 0x10, // sta $10
        0x02,
    ];
    let mut cpu = cpu_with(&program, 0x0400);
    let outcome = cpu.run(10_000);
    assert_eq!(outcome.is_err(), true);
    assert_eq!(cpu.a, 15);
    assert_eq!(cpu.x, 0);
    assert_eq!(cpu.mem.read(0x0010), 15);
    assert_eq!(cpu.pc, 0x040c);
    assert_eq!(cpu.cycles, 2 + 2 + 5 * (2 + 2 + 2) + 4 * 3 + 2 + 3);
}

#[test]
fn run_stops_once_the_cycles_are_up() {
    let mut cpu = cpu_with(&[0xea; 64], 0x0400);
    assert_eq!(cpu.run(7), Ok(()));
    assert_eq!(cpu.cycles, 8);
    assert_eq!(cpu.pc, 0x0404);
    assert_eq!(cpu.run(0), Ok(()));
    assert_eq!(cpu.cycles, 8);
    assert_eq!(cpu.run(1), Ok(()));
    assert_eq!(cpu.cycles, 10);
    assert_eq!(cpu.run(2), Ok(()));
    assert_eq!(cpu.cycles, 12);
}
