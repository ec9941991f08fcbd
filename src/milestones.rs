//! Per-milestone percentages in basis points, for the three milestones.
use vstd::prelude::*;

verus! {

/// One hundred percent in basis points.
pub const BPS_MAX: u16 = 10000;

/// Whether `index` names a milestone (milestones are numbered from 1).
pub open spec fn valid_index(index: int) -> bool {
    1 <= index <= 3
}

/// A percentage in basis points for each of the three milestones.
#[derive(Clone, Copy, Debug, PartialEq, Eq, Structural)]
pub struct Milestones {
    pub first: u16,
    pub second: u16,
    pub third: u16,
}

impl Milestones {
    /// The percentage of milestone `index`.
    pub open spec fn at(self, index: int) -> int {
        if index == 1 {
            self.first as int
        } else if index == 2 {
            self.second as int
        } else {
            self.third as int
        }
    }

    /// Sum of the three percentages.
    pub open spec fn total(self) -> int {
        self.first + self.second + self.third
    }

    /// Every percentage lies in `[0, 10000]`.
    pub open spec fn in_range(self) -> bool {
        &&& self.first <= BPS_MAX
        &&& self.second <= BPS_MAX
        &&& self.third <= BPS_MAX
    }

    /// Every percentage is 10000.
    pub open spec fn complete(self) -> bool {
        &&& self.first == BPS_MAX
        &&& self.second == BPS_MAX
        &&& self.third == BPS_MAX
    }

    /// No percentage of `self` exceeds the same one of `later`.
    pub open spec fn below(self, later: Milestones) -> bool {
        &&& self.first <= later.first
        &&& self.second <= later.second
        &&& self.third <= later.third
    }

    /// `self` with milestone `index` set to `value`.
    pub open spec fn with(self, index: int, value: u16) -> Milestones {
        if index == 1 {
            Milestones { first: value, ..self }
        } else if index == 2 {
            Milestones { second: value, ..self }
        } else {
            Milestones { third: value, ..self }
        }
    }

    /// All three at zero.
    pub fn zero() -> (r: Milestones)
        ensures
            r.total() == 0,
            r.first == 0 && r.second == 0 && r.third == 0,
    {
        Milestones { first: 0, second: 0, third: 0 }
    }

    /// Reads milestone `index`.
    pub fn get(&self, index: u8) -> (r: u16)
        requires
            valid_index(index as int),
        ensures
            r == self.at(index as int),
    {
        if index == 1 {
            self.first
        } else if index == 2 {
            self.second
        } else {
            self.third
        }
    }

    /// Sets milestone `index` to `value`.
    pub fn set(&mut self, index: u8, value: u16)
        requires
            valid_index(index as int),
        ensures
            *final(self) == old(self).with(index as int, value),
    {
        if index == 1 {
            self.first = value;
        } else if index == 2 {
            self.second = value;
        } else {
            self.third = value;
        }
    }

    /// Sum of the three percentages.
    pub fn sum(&self) -> (r: u32)
        ensures
            r == self.total(),
    {
        self.first as u32 + self.second as u32 + self.third as u32
    }

    /// Whether all three are at 10000.
    pub fn all_complete(&self) -> (r: bool)
        ensures
            r == self.complete(),
    {
        self.first == BPS_MAX && self.second == BPS_MAX && self.third == BPS_MAX
    }
}

/// Raising one milestone to a higher value keeps every other one and does
/// not lower any.
pub proof fn lemma_with_raises(m: Milestones, index: int, value: u16)
    requires
        valid_index(index),
        value > m.at(index),
    ensures
        m.below(m.with(index, value)),
        m.with(index, value).at(index) == value,
        m.with(index, value).total() == m.total() + (value - m.at(index)),
{
}

} // verus!
