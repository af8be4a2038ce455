use vstd::prelude::*;

verus! {

/// The processor status register (`P`), one bit per flag:
/// `N V U B D I Z C` from bit 7 down to bit 0.
pub struct Status(pub u8);

impl Status {
    pub const CARRY: u8 = 0b0000_0001;
    pub const ZERO: u8 = 0b0000_0010;
    pub const INTERRUPT_DISABLE: u8 = 0b0000_0100;
    pub const DECIMAL_MODE: u8 = 0b0000_1000;
    pub const BREAK_COMMAND: u8 = 0b0001_0000;
    pub const OVERFLOW: u8 = 0b0100_0000;
    pub const NEGATIVE: u8 = 0b1000_0000;
    pub const UNUSED: u8 = 0b0010_0000;

    /// Sets the bits of `flag` when `val` holds and clears them otherwise;
    /// every other bit keeps its value.
    pub fn set(&mut self, flag: u8, val: bool)
        ensures
            final(self).0 == with_flag(old(self).0, flag, val),
            val ==> final(self).0 & flag == flag,
            !val ==> final(self).0 & flag == 0,
            final(self).0 & !flag == old(self).0 & !flag,
    {
        let ghost bits = self.0;
        if val {
            self.0 |= flag;
            assert((bits | flag) & flag == flag) by (bit_vector);
            assert((bits | flag) & !flag == bits & !flag) by (bit_vector);
        } else {
            self.0 &= !flag;
            assert((bits & !flag) & flag == 0) by (bit_vector);
            assert((bits & !flag) & !flag == bits & !flag) by (bit_vector);
        }
    }

    /// Whether any bit of `flag` is set; for a single-bit flag, whether that flag is set.
    pub fn is_set(&self, flag: u8) -> (set: bool)
        ensures
            set == has_flag(self.0, flag),
    {
        self.0 & flag != 0
    }

    /// Sets `Z` exactly when `value` is zero and `N` exactly when bit 7 of
    /// `value` (its sign bit) is set, as every load does; the other flags keep their values.
    pub fn set_zero_and_negative(&mut self, value: u8)
        ensures
            final(self).0 == after_load(old(self).0, value),
            has_flag(final(self).0, Status::ZERO) == (value == 0),
            has_flag(final(self).0, Status::NEGATIVE) == (value >= 0x80),
            final(self).0 & !(Status::ZERO | Status::NEGATIVE) == old(self).0 & !(Status::ZERO
                | Status::NEGATIVE),
    {
        self.set(Status::ZERO, value == 0x00);
        assert(value & 0x80 != 0 <==> value >= 0x80) by (bit_vector);
        self.set(Status::NEGATIVE, value & 0x80 != 0);  // check bit 7 (sign bit)
        proof {
            lemma_after_load(old(self).0, value);
        }
    }
}

/// The register `bits` once the bits of `flag` are all set (`val`) or all cleared.
pub open spec fn with_flag(bits: u8, flag: u8, val: bool) -> u8 {
    if val {
        bits | flag
    } else {
        bits & !flag
    }
}

/// Whether the register `bits` has any bit of `flag` set.
pub open spec fn has_flag(bits: u8, flag: u8) -> bool {
    bits & flag != 0
}

/// The register `bits` after a load of `value`: `Z` tells whether `value` is zero,
/// `N` whether it is negative as a signed byte.
pub open spec fn after_load(bits: u8, value: u8) -> u8 {
    with_flag(with_flag(bits, Status::ZERO, value == 0), Status::NEGATIVE, value >= 0x80)
}

/// After a load the zero flag says whether the value was zero, the negative flag
/// whether its bit 7 was set, and every other flag is as before.
pub proof fn lemma_after_load(bits: u8, value: u8)
    ensures
        has_flag(after_load(bits, value), Status::ZERO) == (value == 0),
        has_flag(after_load(bits, value), Status::NEGATIVE) == (value >= 0x80),
        after_load(bits, value) & !(Status::ZERO | Status::NEGATIVE) == bits & !(Status::ZERO
            | Status::NEGATIVE),
{
    let z = value == 0;
    let n = value >= 0x80;
    if z {
        if n {
            assert((((bits | 2u8) | 128u8) & 2u8 != 0) && (((bits | 2u8) | 128u8) & 128u8 != 0) && ((
            (bits | 2u8) | 128u8) & !(2u8 | 128u8) == bits & !(2u8 | 128u8))) by (bit_vector);
        } else {
            assert((((bits | 2u8) & !128u8) & 2u8 != 0) && (((bits | 2u8) & !128u8) & 128u8 == 0) && ((
            (bits | 2u8) & !128u8) & !(2u8 | 128u8) == bits & !(2u8 | 128u8))) by (bit_vector);
        }
    } else {
        if n {
            assert((((bits & !2u8) | 128u8) & 2u8 == 0) && (((bits & !2u8) | 128u8) & 128u8 != 0) && ((
            (bits & !2u8) | 128u8) & !(2u8 | 128u8) == bits & !(2u8 | 128u8))) by (bit_vector);
        } else {
            assert((((bits & !2u8) & !128u8) & 2u8 == 0) && (((bits & !2u8) & !128u8) & 128u8 == 0) && ((
            (bits & !2u8) & !128u8) & !(2u8 | 128u8) == bits & !(2u8 | 128u8))) by (bit_vector);
        }
    }
}

/// Setting a flag and then asking for it gives back the value set: a set flag reads
/// as set, a cleared one as clear.
pub proof fn lemma_set_then_is_set(bits: u8, flag: u8, val: bool)
    requires
        flag != 0,
    ensures
        has_flag(with_flag(bits, flag, val), flag) == val,
{
    if val {
        assert(flag != 0 ==> (bits | flag) & flag != 0) by (bit_vector);
    } else {
        assert((bits & !flag) & flag == 0) by (bit_vector);
    }
}

/// Setting a flag a second time, to either value, leaves what the second call asked for:
/// repeating a set or a clear changes nothing, and a clear undoes a set.
pub proof fn lemma_last_set_wins(bits: u8, flag: u8, first: bool, second: bool)
    ensures
        with_flag(with_flag(bits, flag, first), flag, second) == with_flag(bits, flag, second),
        with_flag(with_flag(bits, flag, second), flag, second) == with_flag(bits, flag, second),
{
    assert(((bits | flag) | flag) == bits | flag) by (bit_vector);
    assert(((bits & !flag) | flag) == bits | flag) by (bit_vector);
    assert(((bits | flag) & !flag) == bits & !flag) by (bit_vector);
    assert(((bits & !flag) & !flag) == bits & !flag) by (bit_vector);
}

/// Setting or clearing one flag leaves every flag that shares no bit with it unchanged.
pub proof fn lemma_set_keeps_other_flags(bits: u8, flag: u8, other: u8, val: bool)
    requires
        flag & other == 0,
    ensures
        with_flag(bits, flag, val) & other == bits & other,
        has_flag(with_flag(bits, flag, val), other) == has_flag(bits, other),
{
    assert(flag & other == 0 ==> (bits | flag) & other == bits & other) by (bit_vector);
    assert(flag & other == 0 ==> (bits & !flag) & other == bits & other) by (bit_vector);
}

/// The eight flags are eight distinct single bits that together fill the byte, so
/// clearing the seven flags in use from a full register leaves only the unused bit.
pub proof fn lemma_flags_partition_the_byte()
    ensures
        Status::CARRY == 1u8 << 0u8,
        Status::ZERO == 1u8 << 1u8,
        Status::INTERRUPT_DISABLE == 1u8 << 2u8,
        Status::DECIMAL_MODE == 1u8 << 3u8,
        Status::BREAK_COMMAND == 1u8 << 4u8,
        Status::UNUSED == 1u8 << 5u8,
        Status::OVERFLOW == 1u8 << 6u8,
        Status::NEGATIVE == 1u8 << 7u8,
        Status::CARRY | Status::ZERO | Status::INTERRUPT_DISABLE | Status::DECIMAL_MODE
            | Status::BREAK_COMMAND | Status::UNUSED | Status::OVERFLOW | Status::NEGATIVE == 0xFF,
        with_flag(
            with_flag(
                with_flag(
                    with_flag(
                        with_flag(
                            with_flag(with_flag(0xFF, Status::CARRY, false), Status::ZERO, false),
                            Status::INTERRUPT_DISABLE,
                            false,
                        ),
                        Status::DECIMAL_MODE,
                        false,
                    ),
                    Status::BREAK_COMMAND,
                    false,
                ),
                Status::OVERFLOW,
                false,
            ),
            Status::NEGATIVE,
            false,
        ) == Status::UNUSED,
{
    assert(1u8 == 1u8 << 0u8 && 2u8 == 1u8 << 1u8 && 4u8 == 1u8 << 2u8 && 8u8 == 1u8 << 3u8 && 16u8
        == 1u8 << 4u8 && 32u8 == 1u8 << 5u8 && 64u8 == 1u8 << 6u8 && 128u8 == 1u8 << 7u8)
        by (bit_vector);
    assert(1u8 | 2u8 | 4u8 | 8u8 | 16u8 | 32u8 | 64u8 | 128u8 == 0xFFu8) by (bit_vector);
    assert((((((((0xFFu8 & !1u8) & !2u8) & !4u8) & !8u8) & !16u8) & !64u8) & !128u8) == 32u8)
        by (bit_vector);
}

} // verus!
