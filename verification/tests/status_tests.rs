use redwhite::alu::{
    add_with_carry, compare, decrement, increment, shift_left, shift_right, subtract_with_borrow,
};
use redwhite::status::Status;

#[test]
fn status_power_on_packs_to_0x34() {
    let status = Status::new();
    assert_eq!(status.as_byte(), 0x34);
    assert!(status.interrupt);
    assert!(status.brk);
    assert!(!status.carry && !status.zero && !status.decimal);
    assert!(!status.overflow && !status.negative);
}

#[test]
fn status_unpack_then_pack_gives_every_byte_back_with_bit_5_set() {
    for value in 0..=255u8 {
        assert_eq!(Status::from_byte(value).as_byte(), value | 0x20);
    }
}

#[test]
fn status_pack_then_unpack_gives_the_flags_back() {
    for value in 0..=255u8 {
        let status = Status::from_byte(value);
        assert_eq!(Status::from_byte(status.as_byte()), status);
    }
}

#[test]
fn status_bit_order_is_n_v_unused_b_d_i_z_c() {
    let clear = Status::from_byte(0);
    assert_eq!(clear.as_byte(), 0x20);
    assert_eq!(Status { negative: true, ..clear }.as_byte(), 0xa0);
    assert_eq!(Status { overflow: true, ..clear }.as_byte(), 0x60);
    assert_eq!(Status { brk: true, ..clear }.as_byte(), 0x30);
    assert_eq!(Status { decimal: true, ..clear }.as_byte(), 0x28);
    assert_eq!(Status { interrupt: true, ..clear }.as_byte(), 0x24);
    assert_eq!(Status { zero: true, ..clear }.as_byte(), 0x22);
    assert_eq!(Status { carry: true, ..clear }.as_byte(), 0x21);
}

#[test]
fn status_set_replaces_all_flags() {
    let mut status = Status::new();
    status.set(0xc3);
    assert!(status.negative && status.overflow && status.zero && status.carry);
    assert!(!status.brk && !status.decimal && !status.interrupt);
    assert_eq!(status.as_byte(), 0xe3);
}

#[test]
fn status_decimal_is_kept_faithfully() {
    let mut status = Status::from_byte(0);
    status.set(0x08);
    assert!(status.decimal);
    assert_eq!(status.as_byte(), 0x28);
}

#[test]
fn status_set_zn_only_touches_zero_and_negative() {
    let mut status = Status::from_byte(0x41);
    status.set_zn(0);
    assert!(status.zero && !status.negative);
    assert!(status.overflow && status.carry);
    status.set_zn(0x80);
    assert!(!status.zero && status.negative);
    status.set_zn(0x7f);
    assert!(!status.zero && !status.negative);
    assert!(status.overflow && status.carry);
}

#[test]
fn adc_signed_overflow_into_negative() {
    let r = add_with_carry(0x50, 0x50, false);
    assert_eq!(r.value, 0xa0);
    assert!(!r.carry);
    assert!(r.overflow);
}

#[test]
fn adc_carry_out_and_carry_in() {
    let r = add_with_carry(0xff, 0x01, false);
    assert_eq!((r.value, r.carry, r.overflow), (0x00, true, false));
    let r = add_with_carry(0xff, 0xff, true);
    assert_eq!((r.value, r.carry, r.overflow), (0xff, true, false));
    let r = add_with_carry(0x80, 0x80, false);
    assert_eq!((r.value, r.carry, r.overflow), (0x00, true, true));
    let r = add_with_carry(0x7f, 0x00, true);
    assert_eq!((r.value, r.carry, r.overflow), (0x80, false, true));
    let r = add_with_carry(0x12, 0x34, false);
    assert_eq!((r.value, r.carry, r.overflow), (0x46, false, false));
}

#[test]
fn sbc_borrow_clears_carry() {
    let r = subtract_with_borrow(0x00, 0x01, true);
    assert_eq!(r.value, 0xff);
    assert!(!r.carry);
    assert!(!r.overflow);
}

#[test]
fn sbc_without_borrow_and_with_borrow_in() {
    let r = subtract_with_borrow(0x50, 0x10, true);
    assert_eq!((r.value, r.carry, r.overflow), (0x40, true, false));
    let r = subtract_with_borrow(0x50, 0x10, false);
    assert_eq!((r.value, r.carry, r.overflow), (0x3f, true, false));
    let r = subtract_with_borrow(0x80, 0x01, true);
    assert_eq!((r.value, r.carry, r.overflow), (0x7f, true, true));
    let r = subtract_with_borrow(0x7f, 0xff, true);
    assert_eq!((r.value, r.carry, r.overflow), (0x80, false, true));
    let r = subtract_with_borrow(0x00, 0x00, false);
    assert_eq!((r.value, r.carry, r.overflow), (0xff, false, false));
}

#[test]
fn compare_sets_carry_when_register_is_not_smaller() {
    let r = compare(0x40, 0x40);
    assert_eq!((r.value, r.carry), (0x00, true));
    let r = compare(0x41, 0x40);
    assert_eq!((r.value, r.carry), (0x01, true));
    let r = compare(0x40, 0x41);
    assert_eq!((r.value, r.carry), (0xff, false));
    let r = compare(0xff, 0x01);
    assert_eq!((r.value, r.carry), (0xfe, true));
    let r = compare(0x01, 0xff);
    assert_eq!((r.value, r.carry), (0x02, false));
}

#[test]
fn shifts_capture_the_bit_that_leaves() {
    let r = shift_left(0x81, false);
    assert_eq!((r.value, r.carry), (0x02, true));
    let r = shift_left(0x41, true);
    assert_eq!((r.value, r.carry), (0x83, false));
    let r = shift_right(0x81, false);
    assert_eq!((r.value, r.carry), (0x40, true));
    let r = shift_right(0x02, true);
    assert_eq!((r.value, r.carry), (0x81, false));
}

#[test]
fn increment_and_decrement_wrap() {
    assert_eq!(increment(0xff), 0x00);
    assert_eq!(increment(0x7f), 0x80);
    assert_eq!(decrement(0x00), 0xff);
    assert_eq!(decrement(0x80), 0x7f);
}
