//! The processor status register: eight condition flags packed into a byte.

use vstd::prelude::*;

verus! {

/// The condition flags, from the most significant bit of the status byte to
/// the least.
#[derive(Clone, Copy, Debug, PartialEq, Eq)]
pub enum StatusFlag {
    Negative,
    Overflow,
    Ignored,
    Break,
    Decimal,
    Interrupt,
    Zero,
    Carry,
}

impl StatusFlag {
    /// The bit of the status byte that holds this flag.
    pub open spec fn spec_mask(self) -> u8 {
        match self {
            StatusFlag::Negative => 0x80,
            StatusFlag::Overflow => 0x40,
            StatusFlag::Ignored => 0x20,
            StatusFlag::Break => 0x10,
            StatusFlag::Decimal => 0x08,
            StatusFlag::Interrupt => 0x04,
            StatusFlag::Zero => 0x02,
            StatusFlag::Carry => 0x01,
        }
    }

    /// The bit of the status byte that holds this flag.
    #[verifier::when_used_as_spec(spec_mask)]
    pub fn mask(self) -> (m: u8)
        ensures
            m == self.spec_mask(),
    {
        match self {
            StatusFlag::Negative => 0b1000_0000,
            StatusFlag::Overflow => 0b0100_0000,
            StatusFlag::Ignored => 0b0010_0000,
            StatusFlag::Break => 0b0001_0000,
            StatusFlag::Decimal => 0b0000_1000,
            StatusFlag::Interrupt => 0b0000_0100,
            StatusFlag::Zero => 0b0000_0010,
            StatusFlag::Carry => 0b0000_0001,
        }
    }
}

/// The status register as the processor pushes and pulls it: one byte.
#[derive(Clone, Copy, Debug, PartialEq, Eq)]
pub struct ProcessorStatus(pub u8);

impl ProcessorStatus {
    /// Whether `flag` is set.
    pub open spec fn is_set(self, flag: StatusFlag) -> bool {
        self.0 & flag.mask() != 0
    }

    /// This register with `flag` set or cleared and every other bit as it was.
    pub open spec fn with_flag(self, flag: StatusFlag, set: bool) -> ProcessorStatus {
        if set {
            ProcessorStatus(self.0 | flag.mask())
        } else {
            ProcessorStatus(self.0 & !flag.mask())
        }
    }

    /// Reading a flag of `with_flag` gives the value just written for that
    /// flag and the previous value for any other.
    pub proof fn lemma_with_flag(self, flag: StatusFlag, set: bool, other: StatusFlag)
        ensures
            self.with_flag(flag, set).is_set(other) == if other == flag {
                set
            } else {
                self.is_set(other)
            },
    {
        let v = self.0;
        let m = flag.mask();
        let n = other.mask();
        assert(m == n <==> flag == other);
        assert({
            &&& ((v | m) & n != 0) == if n == m { true } else { v & n != 0 }
            &&& ((v & !m) & n != 0) == if n == m { false } else { v & n != 0 }
        }) by (bit_vector)
            requires
                m == 0x80 || m == 0x40 || m == 0x20 || m == 0x10 || m == 0x08 || m == 0x04 || m
                    == 0x02 || m == 0x01,
                n == 0x80 || n == 0x40 || n == 0x20 || n == 0x10 || n == 0x08 || n == 0x04 || n
                    == 0x02 || n == 0x01,
        ;
    }

    /// Sets or clears `flag` and leaves the other seven bits alone.
    pub fn set_flag(&mut self, flag: StatusFlag, set: bool)
        ensures
            *final(self) == old(self).with_flag(flag, set),
            forall|other: StatusFlag|
                #[trigger] final(self).is_set(other) == if other == flag {
                    set
                } else {
                    old(self).is_set(other)
                },
    {
        let mask = flag.mask();
        if set {
            self.0 |= mask;
        } else {
            self.0 &= !mask;
        }
        proof {
            assert forall|other: StatusFlag|
                #[trigger] self.is_set(other) == if other == flag {
                    set
                } else {
                    old(self).is_set(other)
                } by {
                old(self).lemma_with_flag(flag, set, other);
            }
        }
    }

    /// Reads `flag`.
    pub fn get_flag(&self, flag: StatusFlag) -> (set: bool)
        ensures
            set == self.is_set(flag),
    {
        (self.0 & flag.mask()) != 0
    }
}

impl Default for ProcessorStatus {
    /// The register at power-on: every flag clear.
    fn default() -> (status: Self)
        ensures
            status.0 == 0,
    {
        ProcessorStatus(0)
    }
}

impl From<u8> for ProcessorStatus {
    fn from(inner: u8) -> (status: Self) {
        ProcessorStatus(inner)
    }
}

impl vstd::std_specs::convert::FromSpecImpl<u8> for ProcessorStatus {
    open spec fn obeys_from_spec() -> bool {
        true
    }

    open spec fn from_spec(inner: u8) -> Self {
        ProcessorStatus(inner)
    }
}

} // verus!
