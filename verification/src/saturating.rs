//! A 16-bit number whose sums stop at the largest value.

use std::cmp::Ordering;
use std::ops::Add;
use vstd::prelude::*;

verus! {

/// A `u16` that adds without wrapping round: a sum that would pass `u16::MAX` is `u16::MAX`.
#[derive(Debug, Clone, Copy)]
pub struct SaturatingU16 {
    value: u16,
}

/// The sum of `a` and `b`, held at `u16::MAX` where it would pass it.
pub open spec fn saturating_sum(a: u16, b: u16) -> u16 {
    if a + b > u16::MAX {
        u16::MAX
    } else {
        (a + b) as u16
    }
}

impl View for SaturatingU16 {
    type V = u16;

    /// The number held.
    closed spec fn view(&self) -> u16 {
        self.value
    }
}

impl SaturatingU16 {
    /// Two values that hold the same number are the same value.
    pub proof fn lemma_same_number_same_value(a: SaturatingU16, b: SaturatingU16)
        requires
            a@ == b@,
        ensures
            a == b,
    {
    }
}

impl From<u16> for SaturatingU16 {
    fn from(n: u16) -> (made: SaturatingU16)
        ensures
            made@ == n,
    {
        SaturatingU16 { value: n }
    }
}

impl vstd::std_specs::convert::FromSpecImpl<u16> for SaturatingU16 {
    open spec fn obeys_from_spec() -> bool {
        true
    }

    closed spec fn from_spec(n: u16) -> SaturatingU16 {
        SaturatingU16 { value: n }
    }
}

impl From<&u16> for SaturatingU16 {
    fn from(n: &u16) -> (made: SaturatingU16)
        ensures
            made@ == *n,
    {
        SaturatingU16 { value: *n }
    }
}

impl vstd::std_specs::convert::FromSpecImpl<&u16> for SaturatingU16 {
    open spec fn obeys_from_spec() -> bool {
        true
    }

    closed spec fn from_spec(n: &u16) -> SaturatingU16 {
        SaturatingU16 { value: *n }
    }
}

impl From<u8> for SaturatingU16 {
    fn from(n: u8) -> (made: SaturatingU16)
        ensures
            made@ == n,
    {
        SaturatingU16 { value: n as u16 }
    }
}

impl vstd::std_specs::convert::FromSpecImpl<u8> for SaturatingU16 {
    open spec fn obeys_from_spec() -> bool {
        true
    }

    closed spec fn from_spec(n: u8) -> SaturatingU16 {
        SaturatingU16 { value: n as u16 }
    }
}

impl From<&u8> for SaturatingU16 {
    fn from(n: &u8) -> (made: SaturatingU16)
        ensures
            made@ == *n,
    {
        SaturatingU16 { value: *n as u16 }
    }
}

impl vstd::std_specs::convert::FromSpecImpl<&u8> for SaturatingU16 {
    open spec fn obeys_from_spec() -> bool {
        true
    }

    closed spec fn from_spec(n: &u8) -> SaturatingU16 {
        SaturatingU16 { value: *n as u16 }
    }
}

impl PartialEq<u16> for SaturatingU16 {
    fn eq(&self, other: &u16) -> (same: bool) {
        self.value == *other
    }
}

impl vstd::std_specs::cmp::PartialEqSpecImpl<u16> for SaturatingU16 {
    open spec fn obeys_eq_spec() -> bool {
        true
    }

    open spec fn eq_spec(&self, other: &u16) -> bool {
        self@ == *other
    }
}

impl PartialEq<SaturatingU16> for SaturatingU16 {
    fn eq(&self, other: &SaturatingU16) -> (same: bool) {
        self.value == other.value
    }
}

impl vstd::std_specs::cmp::PartialEqSpecImpl<SaturatingU16> for SaturatingU16 {
    open spec fn obeys_eq_spec() -> bool {
        true
    }

    open spec fn eq_spec(&self, other: &SaturatingU16) -> bool {
        self@ == other@
    }
}

impl PartialOrd<u16> for SaturatingU16 {
    fn partial_cmp(&self, other: &u16) -> (order: Option<Ordering>) {
        if self.value < *other {
            Some(Ordering::Less)
        } else if self.value == *other {
            Some(Ordering::Equal)
        } else {
            Some(Ordering::Greater)
        }
    }
}

impl vstd::std_specs::cmp::PartialOrdSpecImpl<u16> for SaturatingU16 {
    open spec fn obeys_partial_cmp_spec() -> bool {
        true
    }

    open spec fn partial_cmp_spec(&self, other: &u16) -> Option<Ordering> {
        if self@ < *other {
            Some(Ordering::Less)
        } else if self@ == *other {
            Some(Ordering::Equal)
        } else {
            Some(Ordering::Greater)
        }
    }
}

impl Add<u16> for SaturatingU16 {
    type Output = u16;

    fn add(self, rhs: u16) -> (sum: u16)
        ensures
            sum == saturating_sum(self@, rhs),
    {
        self.value.saturating_add(rhs)
    }
}

impl vstd::std_specs::ops::AddSpecImpl<u16> for SaturatingU16 {
    open spec fn obeys_add_spec() -> bool {
        true
    }

    open spec fn add_req(self, rhs: u16) -> bool {
        true
    }

    open spec fn add_spec(self, rhs: u16) -> u16 {
        saturating_sum(self@, rhs)
    }
}

impl Add<&SaturatingU16> for SaturatingU16 {
    type Output = SaturatingU16;

    fn add(self, rhs: &SaturatingU16) -> (sum: SaturatingU16)
        ensures
            sum@ == saturating_sum(self@, rhs@),
    {
        SaturatingU16 { value: self.value.saturating_add(rhs.value) }
    }
}

impl vstd::std_specs::ops::AddSpecImpl<&SaturatingU16> for SaturatingU16 {
    open spec fn obeys_add_spec() -> bool {
        true
    }

    open spec fn add_req(self, rhs: &SaturatingU16) -> bool {
        true
    }

    closed spec fn add_spec(self, rhs: &SaturatingU16) -> SaturatingU16 {
        SaturatingU16 { value: saturating_sum(self.value, rhs.value) }
    }
}

impl Add<SaturatingU16> for SaturatingU16 {
    type Output = SaturatingU16;

    fn add(self, rhs: SaturatingU16) -> (sum: SaturatingU16)
        ensures
            sum@ == saturating_sum(self@, rhs@),
    {
        SaturatingU16 { value: self.value.saturating_add(rhs.value) }
    }
}

impl vstd::std_specs::ops::AddSpecImpl<SaturatingU16> for SaturatingU16 {
    open spec fn obeys_add_spec() -> bool {
        true
    }

    open spec fn add_req(self, rhs: SaturatingU16) -> bool {
        true
    }

    closed spec fn add_spec(self, rhs: SaturatingU16) -> SaturatingU16 {
        SaturatingU16 { value: saturating_sum(self.value, rhs.value) }
    }
}

} // verus!
