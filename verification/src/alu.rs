use vstd::prelude::*;

verus! {

/// What the arithmetic unit hands back: the 8-bit result and the two flags
/// that only arithmetic decides.
#[derive(Clone, Copy, PartialEq, Eq, Structural, Debug)]
pub struct AluResult {
    pub value: u8,
    pub carry: bool,
    pub overflow: bool,
}

/// The number that a byte stands for in two's complement.
pub open spec fn signed(value: u8) -> int {
    if value < 128 {
        value as int
    } else {
        value - 256
    }
}

/// 1 for a set carry, 0 for a clear one.
pub open spec fn carry_in(carry: bool) -> int {
    if carry {
        1
    } else {
        0
    }
}

/// Whether `n` is outside what a signed byte can hold.
pub open spec fn out_of_signed_range(n: int) -> bool {
    n < -128 || n > 127
}

/// The low eight bits of `n`.
pub open spec fn low_byte(n: int) -> u8 {
    (n % 256) as u8
}

/// Addition with carry: the sum of both bytes and the carry. Carry comes out
/// when the unsigned sum passes 255, overflow when the signed sum leaves the
/// range of a signed byte.
pub open spec fn spec_add(a: u8, m: u8, carry: bool) -> AluResult {
    AluResult {
        value: low_byte(a + m + carry_in(carry)),
        carry: a + m + carry_in(carry) > 255,
        overflow: out_of_signed_range(signed(a) + signed(m) + carry_in(carry)),
    }
}

/// Subtraction with borrow: `a - m - (1 - carry)`. Carry comes out when no
/// borrow was needed, overflow when the signed difference leaves the range
/// of a signed byte.
pub open spec fn spec_subtract(a: u8, m: u8, carry: bool) -> AluResult {
    AluResult {
        value: low_byte(a - m - (1 - carry_in(carry))),
        carry: a - m - (1 - carry_in(carry)) >= 0,
        overflow: out_of_signed_range(signed(a) - signed(m) - (1 - carry_in(carry))),
    }
}

/// Comparison: the difference `reg - m` for the flags, carry when
/// `reg >= m`. Overflow is not touched by a comparison and reads false.
pub open spec fn spec_compare(reg: u8, m: u8) -> AluResult {
    AluResult { value: low_byte(reg - m), carry: reg >= m, overflow: false }
}

/// Shift left: bit 7 goes to carry, `fill` comes in as bit 0.
pub open spec fn spec_shift_left(m: u8, fill: bool) -> AluResult {
    AluResult { value: low_byte(2 * m + carry_in(fill)), carry: m >= 128, overflow: false }
}

/// Shift right: bit 0 goes to carry, `fill` comes in as bit 7.
pub open spec fn spec_shift_right(m: u8, fill: bool) -> AluResult {
    AluResult { value: (m / 2 + 128 * carry_in(fill)) as u8, carry: m % 2 == 1, overflow: false }
}

/// One more than `value`, wrapping at 8 bits.
pub fn increment(value: u8) -> (r: u8)
    ensures
        r == low_byte(value + 1),
{
    value.wrapping_add(1)
}

/// One less than `value`, wrapping at 8 bits.
pub fn decrement(value: u8) -> (r: u8)
    ensures
        r == low_byte(value - 1),
{
    value.wrapping_sub(1)
}

/// Adds two bytes and a carry.
pub fn add_with_carry(a: u8, m: u8, carry: bool) -> (r: AluResult)
    ensures
        r == spec_add(a, m, carry),
{
    let c: u16 = if carry { 1 } else { 0 };
    let sum: u16 = a as u16 + m as u16 + c;
    let value: u8 = (sum & 0xff) as u8;
    assert(sum & 0xff == sum % 256) by (bit_vector);
    assert((((a ^ m) & 0x80 == 0) && ((a ^ value) & 0x80 != 0)) == ((a < 128) == (m < 128) && (a
        < 128) != (value < 128))) by (bit_vector);
    AluResult {
        value,
        carry: sum > 0xff,
        overflow: ((a ^ m) & 0x80 == 0) && ((a ^ value) & 0x80 != 0),
    }
}

/// Subtracts a byte and a borrow, which is the carry turned round.
pub fn subtract_with_borrow(a: u8, m: u8, carry: bool) -> (r: AluResult)
    ensures
        r == spec_subtract(a, m, carry),
{
    let borrow: u16 = if carry { 0 } else { 1 };
    let diff: u16 = (a as u16).wrapping_sub(m as u16).wrapping_sub(borrow);
    let value: u8 = (diff & 0xff) as u8;
    assert(diff & 0xff == diff % 256) by (bit_vector);
    assert((((a ^ value) & 0x80 != 0) && ((a ^ m) & 0x80 != 0)) == ((a < 128) != (m < 128) && (a
        < 128) != (value < 128))) by (bit_vector);
    AluResult {
        value,
        carry: diff < 0x100,
        overflow: ((a ^ value) & 0x80 != 0) && ((a ^ m) & 0x80 != 0),
    }
}

/// Compares a register with a byte.
pub fn compare(reg: u8, m: u8) -> (r: AluResult)
    ensures
        r == spec_compare(reg, m),
{
    AluResult { value: reg.wrapping_sub(m), carry: reg >= m, overflow: false }
}

/// Shifts a byte left by one bit and fills bit 0.
pub fn shift_left(m: u8, fill: bool) -> (r: AluResult)
    ensures
        r == spec_shift_left(m, fill),
{
    let low: u8 = if fill { 1 } else { 0 };
    assert((m << 1) | low == (2 * m + low) % 256) by (bit_vector)
        requires
            low == 0 || low == 1,
    ;
    AluResult { value: (m << 1) | low, carry: m >= 0x80, overflow: false }
}

/// Shifts a byte right by one bit and fills bit 7.
pub fn shift_right(m: u8, fill: bool) -> (r: AluResult)
    ensures
        r == spec_shift_right(m, fill),
{
    let high: u8 = if fill { 0x80 } else { 0 };
    assert((m >> 1) | high == m / 2 + high) by (bit_vector)
        requires
            high == 0 || high == 0x80,
    ;
    assert((m & 1 != 0) == (m % 2 == 1)) by (bit_vector);
    AluResult { value: (m >> 1) | high, carry: m & 1 != 0, overflow: false }
}

} // verus!
