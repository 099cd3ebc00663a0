//! A 16-bit register pair whose two halves can be read and written apart.
use vstd::prelude::*;

verus! {

/// Two 8-bit registers seen together as one 16-bit register; the first
/// named is the high byte.
#[derive(Clone, Copy, Debug, PartialEq, Eq)]
pub struct Register16 {
    value: u16,
}

impl Register16 {
    pub closed spec fn spec_value(self) -> u16 {
        self.value
    }

    pub open spec fn spec_high(self) -> u8 {
        (self.spec_value() / 256) as u8
    }

    pub open spec fn spec_low(self) -> u8 {
        (self.spec_value() % 256) as u8
    }

    pub fn new(value: u16) -> (r: Self)
        ensures
            r.spec_value() == value,
    {
        Register16 { value }
    }

    pub fn value(&self) -> (r: u16)
        ensures
            r == self.spec_value(),
    {
        self.value
    }

    pub fn set_value(&mut self, value: u16)
        ensures
            final(self).spec_value() == value,
    {
        self.value = value;
    }

    pub fn high(&self) -> (r: u8)
        ensures
            r == self.spec_high(),
    {
        (self.value / 256) as u8
    }

    pub fn low(&self) -> (r: u8)
        ensures
            r == self.spec_low(),
    {
        (self.value % 256) as u8
    }

    pub fn set_high(&mut self, high: u8)
        ensures
            final(self).spec_value() == high as int * 256 + old(self).spec_low(),
            final(self).spec_high() == high,
            final(self).spec_low() == old(self).spec_low(),
    {
        self.value = high as u16 * 256 + self.value % 256;
    }

    pub fn set_low(&mut self, low: u8)
        ensures
            final(self).spec_value() == old(self).spec_high() as int * 256 + low,
            final(self).spec_high() == old(self).spec_high(),
            final(self).spec_low() == low,
    {
        self.value = (self.value / 256) * 256 + low as u16;
    }
}

/// A register pair is its value.
pub proof fn lemma_value_determines(a: Register16, b: Register16)
    requires
        a.spec_value() == b.spec_value(),
    ensures
        a == b,
{
}

} // verus!
