use vstd::prelude::*;

verus! {

/// Whether `bits` has every bit of `flag` set.
pub open spec fn has_flag(bits: u8, flag: u8) -> bool {
    bits & flag == flag
}

/// `bits` with the bits of `flag` set when `on`, cleared otherwise.
pub open spec fn with_flag(bits: u8, flag: u8, on: bool) -> u8 {
    if on {
        bits | flag
    } else {
        bits & !flag
    }
}

/// Whether `flag` is one of the eight named status bits.
pub open spec fn single_bit(flag: u8) -> bool {
    flag == 1 || flag == 2 || flag == 4 || flag == 8 || flag == 16 || flag == 32 || flag == 64
        || flag == 128
}

/// Setting or clearing one status bit decides that bit and leaves every other one as it was.
pub proof fn lemma_with_flag(bits: u8, flag: u8, other: u8, on: bool)
    requires
        single_bit(flag),
        single_bit(other),
    ensures
        has_flag(with_flag(bits, flag, on), flag) == on,
        other != flag ==> has_flag(with_flag(bits, flag, on), other) == has_flag(bits, other),
{
    if on {
        assert((bits | flag) & flag == flag) by (bit_vector);
        assert(other != flag ==> (((bits | flag) & other == other) == (bits & other == other)))
            by (bit_vector)
            requires
                flag == 1 || flag == 2 || flag == 4 || flag == 8 || flag == 16 || flag == 32
                    || flag == 64 || flag == 128,
                other == 1 || other == 2 || other == 4 || other == 8 || other == 16 || other == 32
                    || other == 64 || other == 128,
        ;
    } else {
        assert((bits & !flag) & flag != flag)
            by (bit_vector)
            requires
                flag == 1 || flag == 2 || flag == 4 || flag == 8 || flag == 16 || flag == 32
                    || flag == 64 || flag == 128,
        ;
        assert(other != flag ==> (((bits & !flag) & other == other) == (bits & other == other)))
            by (bit_vector)
            requires
                flag == 1 || flag == 2 || flag == 4 || flag == 8 || flag == 16 || flag == 32
                    || flag == 64 || flag == 128,
                other == 1 || other == 2 || other == 4 || other == 8 || other == 16 || other == 32
                    || other == 64 || other == 128,
        ;
    }
}

/// The processor status register: eight independent bits packed into one byte.
#[derive(Clone, Copy, Debug, PartialEq, Eq, Structural)]
pub struct StatusFlags {
    pub bits: u8,
}

impl StatusFlags {
    pub const CARRY: u8 = 0b0000_0001;
    pub const ZERO: u8 = 0b0000_0010;
    pub const INTERRUPT_DISABLE: u8 = 0b0000_0100;
    pub const DECIMAL_MODE: u8 = 0b0000_1000;
    pub const BREAK: u8 = 0b0001_0000;
    pub const BREAK2: u8 = 0b0010_0000;
    pub const OVERFLOW: u8 = 0b0100_0000;
    pub const NEGATIVE: u8 = 0b1000_0000;

    /// Every bit of a byte names a flag, so no bit is dropped.
    pub fn from_bits_truncate(bits: u8) -> (r: StatusFlags)
        ensures
            r.bits == bits,
    {
        StatusFlags { bits }
    }

    pub fn bits(&self) -> (r: u8)
        ensures
            r == self.bits,
    {
        self.bits
    }

    pub fn contains(&self, flag: u8) -> (r: bool)
        ensures
            r == has_flag(self.bits, flag),
    {
        self.bits & flag == flag
    }

    pub fn insert(&mut self, flag: u8)
        ensures
            final(self).bits == with_flag(old(self).bits, flag, true),
    {
        self.bits = self.bits | flag;
    }

    pub fn remove(&mut self, flag: u8)
        ensures
            final(self).bits == with_flag(old(self).bits, flag, false),
    {
        self.bits = self.bits & !flag;
    }

    pub fn set(&mut self, flag: u8, on: bool)
        ensures
            final(self).bits == with_flag(old(self).bits, flag, on),
    {
        if on {
            self.insert(flag);
        } else {
            self.remove(flag);
        }
    }
}

} // verus!
