//! What it is to have two slots, one on each side.

use vstd::prelude::*;
use crate::side::Side;

verus! {

/// A value with a left and a right slot of one type, each of which can be
/// read and written on its own, and which can be exchanged in place.
///
/// An implementation says what its two slots hold (`left`, `right`) and
/// gives the four accessors and `swap`; the accessors by side follow.
pub trait Paired {
    type Item;

    /// What the left slot holds.
    spec fn left(&self) -> Self::Item;

    /// What the right slot holds.
    spec fn right(&self) -> Self::Item;

    /// Borrows the left slot.
    fn get_left(&self) -> (item: &Self::Item)
        ensures
            *item == self.left(),
    ;

    /// Borrows the right slot.
    fn get_right(&self) -> (item: &Self::Item)
        ensures
            *item == self.right(),
    ;

    /// Borrows the left slot for writing. What is written through the
    /// borrow is what the left slot holds afterwards; the right slot keeps
    /// its value.
    fn get_left_mut(&mut self) -> (item: &mut Self::Item)
        ensures
            *item == old(self).left(),
            final(self).left() == *final(item),
            final(self).right() == old(self).right(),
    ;

    /// Borrows the right slot for writing. What is written through the
    /// borrow is what the right slot holds afterwards; the left slot keeps
    /// its value.
    fn get_right_mut(&mut self) -> (item: &mut Self::Item)
        ensures
            *item == old(self).right(),
            final(self).right() == *final(item),
            final(self).left() == old(self).left(),
    ;

    /// Borrows the slot on the given side.
    fn get(&self, s: Side) -> (item: &Self::Item)
        ensures
            *item == (match s {
                Side::L => self.left(),
                Side::R => self.right(),
            }),
    {
        match s {
            Side::L => self.get_left(),
            Side::R => self.get_right(),
        }
    }

    /// Borrows the slot on the given side for writing. The slot on the
    /// other side keeps its value.
    fn get_mut(&mut self, s: Side) -> (item: &mut Self::Item)
        ensures
            match s {
                Side::L => {
                    &&& *item == old(self).left()
                    &&& final(self).left() == *final(item)
                    &&& final(self).right() == old(self).right()
                },
                Side::R => {
                    &&& *item == old(self).right()
                    &&& final(self).right() == *final(item)
                    &&& final(self).left() == old(self).left()
                },
            },
    {
        match s {
            Side::L => self.get_left_mut(),
            Side::R => self.get_right_mut(),
        }
    }

    /// Exchanges what the two slots hold.
    fn swap(&mut self)
        ensures
            final(self).left() == old(self).right(),
            final(self).right() == old(self).left(),
    ;
}

} // verus!
