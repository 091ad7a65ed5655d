use vstd::prelude::*;

verus! {

/// The processor's condition flags.
///
/// Packed into a byte the flags stand, from bit 7 down to bit 0, in the
/// order N V - B D I Z C. Bit 5 carries no flag and always reads as set.
#[derive(Clone, Copy, PartialEq, Eq, Structural, Debug)]
pub struct Status {
    pub negative: bool,
    pub overflow: bool,
    pub brk: bool,
    pub decimal: bool,
    pub interrupt: bool,
    pub zero: bool,
    pub carry: bool,
}

/// The weight of a flag in the packed byte: `weight` when set, 0 when clear.
pub open spec fn flag_bit(flag: bool, weight: int) -> int {
    if flag {
        weight
    } else {
        0
    }
}

impl Status {
    /// The packed byte of a set of flags, as a sum of bit weights.
    pub open spec fn spec_as_byte(self) -> u8 {
        (flag_bit(self.negative, 128) + flag_bit(self.overflow, 64) + 32 + flag_bit(self.brk, 16)
            + flag_bit(self.decimal, 8) + flag_bit(self.interrupt, 4) + flag_bit(self.zero, 2)
            + flag_bit(self.carry, 1)) as u8
    }

    /// The flags that a packed byte holds. Bit 5 is not looked at.
    pub open spec fn spec_from_byte(value: u8) -> Status {
        Status {
            negative: value / 128 % 2 == 1,
            overflow: value / 64 % 2 == 1,
            brk: value / 16 % 2 == 1,
            decimal: value / 8 % 2 == 1,
            interrupt: value / 4 % 2 == 1,
            zero: value / 2 % 2 == 1,
            carry: value % 2 == 1,
        }
    }

    /// These flags with Zero and Negative taken from `value`.
    pub open spec fn with_zn(self, value: u8) -> Status {
        Status { zero: value == 0, negative: value >= 128, ..self }
    }

    /// The flags at power-on: Interrupt-disable and Break set, packed `0x34`.
    pub fn new() -> (status: Status)
        ensures
            status == Status::spec_from_byte(0x34),
            status.spec_as_byte() == 0x34,
    {
        Status {
            negative: false,
            overflow: false,
            brk: true,
            decimal: false,
            interrupt: true,
            zero: false,
            carry: false,
        }
    }

    /// Unpacks a byte into flags.
    pub fn from_byte(value: u8) -> (status: Status)
        ensures
            status == Status::spec_from_byte(value),
    {
        assert((value & 0x80 != 0) == (value / 128 % 2 == 1)) by (bit_vector);
        assert((value & 0x40 != 0) == (value / 64 % 2 == 1)) by (bit_vector);
        assert((value & 0x10 != 0) == (value / 16 % 2 == 1)) by (bit_vector);
        assert((value & 0x08 != 0) == (value / 8 % 2 == 1)) by (bit_vector);
        assert((value & 0x04 != 0) == (value / 4 % 2 == 1)) by (bit_vector);
        assert((value & 0x02 != 0) == (value / 2 % 2 == 1)) by (bit_vector);
        assert((value & 0x01 != 0) == (value % 2 == 1)) by (bit_vector);
        Status {
            negative: value & 0x80 != 0,
            overflow: value & 0x40 != 0,
            brk: value & 0x10 != 0,
            decimal: value & 0x08 != 0,
            interrupt: value & 0x04 != 0,
            zero: value & 0x02 != 0,
            carry: value & 0x01 != 0,
        }
    }

    /// Replaces every flag by the one that `value` holds.
    pub fn set(&mut self, value: u8)
        ensures
            *final(self) == Status::spec_from_byte(value),
    {
        *self = Status::from_byte(value);
    }

    /// Sets Zero and Negative from `value` and leaves the other flags alone.
    pub fn set_zn(&mut self, value: u8)
        ensures
            *final(self) == old(self).with_zn(value),
    {
        self.zero = value == 0;
        self.negative = value >= 0x80;
    }

    /// Packs the flags into a byte. Bit 5 is always set.
    pub fn as_byte(&self) -> (value: u8)
        ensures
            value == self.spec_as_byte(),
    {
        let n: u8 = if self.negative { 0x80 } else { 0 };
        let v: u8 = if self.overflow { 0x40 } else { 0 };
        let b: u8 = if self.brk { 0x10 } else { 0 };
        let d: u8 = if self.decimal { 0x08 } else { 0 };
        let i: u8 = if self.interrupt { 0x04 } else { 0 };
        let z: u8 = if self.zero { 0x02 } else { 0 };
        let c: u8 = if self.carry { 0x01 } else { 0 };
        assert(n | v | 0x20 | b | d | i | z | c == n + v + 0x20 + b + d + i + z + c) by (bit_vector)
            requires
                n == 0x80 || n == 0,
                v == 0x40 || v == 0,
                b == 0x10 || b == 0,
                d == 0x08 || d == 0,
                i == 0x04 || i == 0,
                z == 0x02 || z == 0,
                c == 0x01 || c == 0,
        ;
        n | v | 0x20 | b | d | i | z | c
    }
}

/// Unpacking a packed set of flags gives the same flags back.
pub proof fn lemma_unpack_pack(status: Status)
    ensures
        Status::spec_from_byte(status.spec_as_byte()) == status,
{
}

/// Packing the flags of a byte gives the byte back with bit 5 set, for
/// every one of the 256 bytes.
pub proof fn lemma_pack_unpack(value: u8)
    ensures
        Status::spec_from_byte(value).spec_as_byte() == if value / 32 % 2 == 1 {
            value as int
        } else {
            value + 32
        },
{
    assert(value == (value / 128 % 2) * 128 + (value / 64 % 2) * 64 + (value / 32 % 2) * 32 + (value
        / 16 % 2) * 16 + (value / 8 % 2) * 8 + (value / 4 % 2) * 4 + (value / 2 % 2) * 2 + value
        % 2) by (bit_vector);
}

} // verus!
