use redwhite::mem::Access;
use redwhite::memory::{make_word, next_in_page, CpuMem, Mem, PpuMem};
use redwhite::ppu::{Ppu, PpuCtrl, PpuStatus};

#[test]
fn ram_starts_zeroed() {
    let mut mem = CpuMem::new();
    assert_eq!(mem.read(0x0000), 0);
    assert_eq!(mem.read(0x07ff), 0);
    assert_eq!(mem.read(0x1234), 0);
}

#[test]
fn ram_is_mirrored_every_0x800_bytes() {
    let mut mem = CpuMem::new();
    mem.write(0x0123, 0xab);
    assert_eq!(mem.read(0x0123), 0xab);
    assert_eq!(mem.read(0x0923), 0xab);
    assert_eq!(mem.read(0x1123), 0xab);
    assert_eq!(mem.read(0x1923), 0xab);
    mem.write(0x1fff, 0xcd);
    assert_eq!(mem.read(0x07ff), 0xcd);
}

#[test]
fn ram_read_twice_returns_the_same_value() {
    let mut mem = CpuMem::new();
    mem.write(0x0456, 0x5a);
    let first = mem.read(0x0456);
    let second = mem.read(0x0456);
    assert_eq!(first, 0x5a);
    assert_eq!(first, second);
}

#[test]
fn unmapped_addresses_read_zero_and_ignore_writes() {
    let mut mem = CpuMem::new();
    mem.write(0x4000, 0x11);
    mem.write(0x8000, 0x22);
    mem.write(0xffff, 0x33);
    assert_eq!(mem.read(0x4000), 0);
    assert_eq!(mem.read(0x8000), 0);
    assert_eq!(mem.read(0xffff), 0);
    assert_eq!(mem.read(0x0000), 0);
}

#[test]
fn read16_is_little_endian() {
    let mut mem = CpuMem::new();
    mem.write(0x0010, 0x34);
    mem.write(0x0011, 0x12);
    assert_eq!(mem.read16(0x0010), 0x1234);
}

#[test]
fn read16_does_not_wrap_inside_the_page() {
    let mut mem = CpuMem::new();
    mem.write(0x10ff, 0x34);
    mem.write(0x1100, 0x12);
    mem.write(0x1000, 0x56);
    assert_eq!(mem.read16(0x10ff), 0x1234);
}

#[test]
fn read16_wrapped_takes_the_high_byte_from_the_same_page() {
    let mut mem = CpuMem::new();
    mem.write(0x10ff, 0x34);
    mem.write(0x1100, 0x12);
    mem.write(0x1000, 0x56);
    let expected = (mem.read(0x1000) as u16) << 8 | mem.read(0x10ff) as u16;
    assert_eq!(mem.read16_wrapped(0x10ff), expected);
    assert_eq!(mem.read16_wrapped(0x10ff), 0x5634);
}

#[test]
fn read16_wrapped_inside_a_page_reads_two_bytes_in_a_row() {
    let mut mem = CpuMem::new();
    mem.write(0x0020, 0xcd);
    mem.write(0x0021, 0xab);
    assert_eq!(mem.read16_wrapped(0x0020), 0xabcd);
}

#[test]
fn read16_at_the_top_of_the_address_space_wraps_to_zero() {
    let mut mem = CpuMem::new();
    mem.write(0x0000, 0x77);
    assert_eq!(mem.read16(0xffff), 0x7700);
}

#[test]
fn word_helpers() {
    assert_eq!(make_word(0x34, 0x12), 0x1234);
    assert_eq!(make_word(0xff, 0xff), 0xffff);
    assert_eq!(next_in_page(0x10ff), 0x1000);
    assert_eq!(next_in_page(0x1000), 0x1001);
    assert_eq!(next_in_page(0xffff), 0xff00);
}

#[test]
fn registers_are_mirrored_every_eight_bytes() {
    let mut mem = CpuMem::new();
    mem.write(0x2003, 0x10);
    mem.write(0x2004, 0x99);
    mem.write(0x3ffb, 0x10);
    assert_eq!(mem.read(0x2004), 0x99);
    assert_eq!(mem.read(0x200c), 0x99);
    assert_eq!(mem.read(0x3ffc), 0x99);
}

#[test]
fn video_memory_regions() {
    let mut mem = PpuMem::new();
    Mem::write(&mut mem, 0x0000, 1);
    Mem::write(&mut mem, 0x1fff, 2);
    Mem::write(&mut mem, 0x2000, 3);
    Mem::write(&mut mem, 0x3f00, 4);
    Mem::write(&mut mem, 0x3f1f, 5);
    assert_eq!(Mem::read(&mut mem, 0x0000), 1);
    assert_eq!(Mem::read(&mut mem, 0x1fff), 2);
    assert_eq!(Mem::read(&mut mem, 0x2000), 3);
    assert_eq!(Mem::read(&mut mem, 0x3000), 3);
    assert_eq!(Mem::read(&mut mem, 0x3f00), 4);
    assert_eq!(Mem::read(&mut mem, 0x3f20), 4);
    assert_eq!(Mem::read(&mut mem, 0x3fff), 5);
}

#[test]
fn video_memory_above_0x3fff_is_open() {
    let mut mem = PpuMem::new();
    Mem::write(&mut mem, 0x4000, 9);
    Mem::write(&mut mem, 0xffff, 9);
    assert_eq!(Mem::read(&mut mem, 0x4000), 0);
    assert_eq!(Mem::read(&mut mem, 0xffff), 0);
    assert_eq!(Mem::read(&mut mem, 0x0000), 0);
}

#[test]
fn video_memory_words() {
    let mut mem = PpuMem::new();
    Mem::write(&mut mem, 0x00ff, 0x34);
    Mem::write(&mut mem, 0x0100, 0x12);
    Mem::write(&mut mem, 0x0000, 0x56);
    assert_eq!(Mem::read16(&mut mem, 0x00ff), 0x1234);
    assert_eq!(Mem::read16_wrapped(&mut mem, 0x00ff), 0x5634);
}

#[test]
fn access_reads_without_changing() {
    let mut mem = PpuMem::new();
    Access::write(&mut mem, 0x00ff, 0x34);
    Access::write(&mut mem, 0x0100, 0x12);
    Access::write(&mut mem, 0x0000, 0x56);
    assert_eq!(Access::read(&mem, 0x00ff), 0x34);
    assert_eq!(Access::read16(&mem, 0x00ff), 0x1234);
    assert_eq!(Access::read16_wrapped(&mem, 0x00ff), 0x5634);
    assert_eq!(mem.peek_at(0x0100), 0x12);
    mem.store_at(0x0100, 0x13);
    assert_eq!(Access::read16(&mem, 0x00ff), 0x1334);
}

#[test]
fn control_register_fields() {
    assert_eq!(PpuCtrl { value: 0x00 }.base_name_table(), 0x2000);
    assert_eq!(PpuCtrl { value: 0x01 }.base_name_table(), 0x2400);
    assert_eq!(PpuCtrl { value: 0x02 }.base_name_table(), 0x2800);
    assert_eq!(PpuCtrl { value: 0xff }.base_name_table(), 0x2c00);
    assert_eq!(PpuCtrl { value: 0x00 }.vram_increment(), 1);
    assert_eq!(PpuCtrl { value: 0x04 }.vram_increment(), 32);
    assert_eq!(PpuCtrl { value: 0x00 }.spr_pattern_table(), 0x0000);
    assert_eq!(PpuCtrl { value: 0x08 }.spr_pattern_table(), 0x1000);
    assert_eq!(PpuCtrl { value: 0x08 }.bg_pattern_table(), 0x0000);
    assert_eq!(PpuCtrl { value: 0x10 }.bg_pattern_table(), 0x1000);
    assert!(PpuCtrl { value: 0x20 }.spr_8x16());
    assert!(!PpuCtrl { value: 0xdf }.spr_8x16());
    assert!(PpuCtrl { value: 0x40 }.slave());
    assert!(!PpuCtrl { value: 0xbf }.slave());
    assert!(PpuCtrl { value: 0x80 }.gen_vblank_nmi());
    assert!(!PpuCtrl { value: 0x7f }.gen_vblank_nmi());
    assert_eq!(PpuCtrl::default().value, 0);
}

#[test]
fn video_status_packs_into_the_top_three_bits() {
    let none = PpuStatus::default();
    assert_eq!(none.as_byte(), 0x00);
    assert_eq!(PpuStatus { spr_overflow: true, ..none }.as_byte(), 0x20);
    assert_eq!(PpuStatus { spr_0_hit: true, ..none }.as_byte(), 0x40);
    assert_eq!(PpuStatus { vblank: true, ..none }.as_byte(), 0x80);
    assert_eq!(
        PpuStatus { spr_overflow: true, spr_0_hit: true, vblank: true }.as_byte(),
        0xe0
    );
}

#[test]
fn video_unit_at_power_on_reads_zero_everywhere() {
    let mut ppu = Ppu::new();
    assert_eq!(ppu.read_register(0x2000), 0);
    assert_eq!(ppu.read_register(0x2002), 0);
    assert_eq!(ppu.read_register(0x2004), 0);
    assert_eq!(ppu.read_register(0x2007), 0);
    assert_eq!(ppu.read_register(0x4014), 0);
    assert!(!ppu.nmi_assert_low());
}

#[test]
fn sprite_memory_is_written_through_the_data_register() {
    let mut ppu = Ppu::new();
    ppu.write_register(0x2003, 0xfe);
    ppu.write_register(0x2004, 0x11);
    ppu.write_register(0x2004, 0x22);
    ppu.write_register(0x2004, 0x33);
    assert_eq!(ppu.read_register(0x2004), 0);
    ppu.write_register(0x2003, 0xfe);
    assert_eq!(ppu.read_register(0x2004), 0x11);
    assert_eq!(ppu.read_register(0x2004), 0x11);
    ppu.write_register(0x2003, 0xff);
    assert_eq!(ppu.read_register(0x2004), 0x22);
    ppu.write_register(0x2003, 0x00);
    assert_eq!(ppu.read_register(0x2004), 0x33);
}

#[test]
fn video_data_register_moves_the_address_on() {
    let mut ppu = Ppu::new();
    ppu.write_register(0x2006, 0x00);
    ppu.write_register(0x2006, 0x40);
    ppu.write_register(0x2007, 0xa1);
    ppu.write_register(0x2007, 0xa2);
    ppu.write_register(0x2006, 0x00);
    ppu.write_register(0x2006, 0x40);
    assert_eq!(ppu.read_register(0x2007), 0xa1);
    assert_eq!(ppu.read_register(0x2007), 0xa2);
    assert_eq!(ppu.read_register(0x2007), 0x00);
}

#[test]
fn video_data_register_steps_by_32_when_asked() {
    let mut ppu = Ppu::new();
    ppu.write_register(0x2000, 0x04);
    ppu.write_register(0x2006, 0x00);
    ppu.write_register(0x2006, 0x10);
    ppu.write_register(0x2007, 0xb1);
    ppu.write_register(0x2007, 0xb2);
    ppu.write_register(0x2000, 0x00);
    ppu.write_register(0x2006, 0x00);
    ppu.write_register(0x2006, 0x10);
    assert_eq!(ppu.read_register(0x2007), 0xb1);
    ppu.write_register(0x2006, 0x00);
    ppu.write_register(0x2006, 0x30);
    assert_eq!(ppu.read_register(0x2007), 0xb2);
}

#[test]
fn reading_the_status_resets_the_write_latch() {
    let mut ppu = Ppu::new();
    ppu.write_register(0x2006, 0x00);
    assert_eq!(ppu.read_register(0x2002), 0);
    ppu.write_register(0x2006, 0x00);
    ppu.write_register(0x2006, 0x20);
    ppu.write_register(0x2007, 0x5c);
    ppu.write_register(0x2006, 0x00);
    ppu.write_register(0x2006, 0x20);
    assert_eq!(ppu.read_register(0x2007), 0x5c);
    ppu.write_register(0x2006, 0x00);
    ppu.write_register(0x2006, 0x00);
    assert_eq!(ppu.read_register(0x2007), 0x00);
}

#[test]
fn interrupt_line_stays_high_without_a_vertical_blank() {
    let mut ppu = Ppu::new();
    ppu.write_register(0x2000, 0x80);
    assert!(!ppu.nmi_assert_low());
    let mem = CpuMem::new();
    assert!(!mem.nmi_assert_low());
}

#[test]
fn write_only_registers_read_zero() {
    let mut ppu = Ppu::new();
    ppu.write_register(0x2000, 0xff);
    ppu.write_register(0x2001, 0xff);
    ppu.write_register(0x2003, 0x00);
    ppu.write_register(0x2005, 0xff);
    ppu.write_register(0x4014, 0xff);
    assert_eq!(ppu.read_register(0x2000), 0);
    assert_eq!(ppu.read_register(0x2001), 0);
    assert_eq!(ppu.read_register(0x2003), 0);
    assert_eq!(ppu.read_register(0x2005), 0);
    assert_eq!(ppu.read_register(0x2006), 0);
    assert_eq!(ppu.read_register(0x4014), 0);
    assert_eq!(ppu.read_register(0x1234), 0);
}
