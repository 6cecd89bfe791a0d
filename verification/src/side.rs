//! The two labels by which the slots of a pair are addressed.

use vstd::prelude::*;
use vstd::std_specs::convert::FromSpecImpl;
use vstd::std_specs::convert::TryFromSpecImpl;

verus! {

/// One of the two slots of a pair: `L` is slot 0, `R` is slot 1.
#[derive(Copy, Clone, Debug, PartialEq, Eq, Structural)]
pub enum Side {
    L,
    R,
}

/// The integer that was offered as an ordinal and is neither 0 nor 1.
#[derive(Copy, Clone, Debug, PartialEq, Eq, Structural)]
pub struct InvalidOrdinal {
    pub value: usize,
}

impl Side {
    /// The other side.
    pub open spec fn opposite(self) -> Side {
        match self {
            Side::L => Side::R,
            Side::R => Side::L,
        }
    }

    /// The position of the slot: 0 for `L`, 1 for `R`.
    pub open spec fn ordinal(self) -> int {
        match self {
            Side::L => 0,
            Side::R => 1,
        }
    }

    /// The side at a position, if the position is one of the two.
    pub open spec fn of_ordinal(i: int) -> Option<Side> {
        if i == 0 {
            Some(Side::L)
        } else if i == 1 {
            Some(Side::R)
        } else {
            None
        }
    }

    /// What the checked conversion gives for an integer: its side, or the
    /// integer itself as an error.
    pub open spec fn checked(i: usize) -> Result<Side, InvalidOrdinal> {
        match Side::of_ordinal(i as int) {
            Some(side) => Ok(side),
            None => Err(InvalidOrdinal { value: i }),
        }
    }

    /// Returns the opposite side.
    pub fn swap(self) -> (other: Side)
        ensures
            other == self.opposite(),
    {
        match self {
            Side::L => Side::R,
            Side::R => Side::L,
        }
    }

    /// Converts an ordinal to its side.
    ///
    /// Only 0 and 1 are ordinals. A caller that cannot show this of `i` uses
    /// `Side::try_from`, which rejects every other integer with an error.
    pub fn from(i: usize) -> (side: Side)
        requires
            i == 0 || i == 1,
        ensures
            Side::of_ordinal(i as int) == Some(side),
            side.ordinal() == i,
    {
        match i {
            0 => Side::L,
            1 => Side::R,
            _ => vstd::pervasive::unreached(),
        }
    }

    /// Swapping twice gives the side back.
    pub proof fn lemma_swap_involutive(self)
        ensures
            self.opposite().opposite() == self,
            self.opposite() != self,
    {
    }

    /// A side is found again from its ordinal.
    pub proof fn lemma_ordinal_round_trip(self)
        ensures
            Side::of_ordinal(self.ordinal()) == Some(self),
            self.ordinal() == 0 || self.ordinal() == 1,
    {
    }

    /// Exactly the integers 0 and 1 stand for a side, and each for one side only.
    pub proof fn lemma_of_ordinal(i: int)
        ensures
            Side::of_ordinal(i) is Some <==> (i == 0 || i == 1),
            Side::of_ordinal(i) matches Some(side) ==> side.ordinal() == i,
    {
    }
}

impl TryFromSpecImpl<usize> for Side {
    open spec fn obeys_try_from_spec() -> bool {
        true
    }

    open spec fn try_from_spec(i: usize) -> Result<Self, InvalidOrdinal> {
        Side::checked(i)
    }
}

impl TryFrom<usize> for Side {
    type Error = InvalidOrdinal;

    /// Converts an ordinal to its side, and rejects any integer but 0 and 1
    /// with an error that holds the integer.
    fn try_from(i: usize) -> (r: Result<Self, InvalidOrdinal>)
        ensures
            r == Side::checked(i),
            r is Ok <==> (i == 0 || i == 1),
    {
        match i {
            0 => Ok(Side::L),
            1 => Ok(Side::R),
            _ => Err(InvalidOrdinal { value: i }),
        }
    }
}

impl FromSpecImpl<Side> for usize {
    open spec fn obeys_from_spec() -> bool {
        true
    }

    open spec fn from_spec(side: Side) -> usize {
        side.ordinal() as usize
    }
}

impl From<Side> for usize {
    /// The ordinal of a side.
    fn from(side: Side) -> (i: usize)
        ensures
            i == side.ordinal(),
    {
        match side {
            Side::L => 0,
            Side::R => 1,
        }
    }
}

} // verus!
