//! Which of two optional slots hold a value.

use vstd::prelude::*;
use vstd::std_specs::cmp::PartialEqSpec;
use vstd::std_specs::cmp::PartialEqSpecImpl;
use vstd::std_specs::convert::FromSpecImpl;
use crate::pair::Pair;
use crate::side::Side;

verus! {

/// What two optional slots hold, with the absent values left out: both
/// values, the one value and its side, or nothing.
#[derive(Copy, Debug)]
pub enum Case<T> {
    /// Both slots hold a value.
    Both(Pair<T>),
    /// Only the slot on the given side holds a value.
    One(Side, T),
    /// Neither slot holds a value.
    Neither,
}

impl<T> Case<T> {
    /// The case that two optional slots make.
    pub open spec fn of_slots(left: Option<T>, right: Option<T>) -> Case<T> {
        match (left, right) {
            (Some(l), Some(r)) => Case::Both(Pair::of(l, r)),
            (Some(l), None) => Case::One(Side::L, l),
            (None, Some(r)) => Case::One(Side::R, r),
            (None, None) => Case::Neither,
        }
    }

    /// The two optional slots that make this case: the left one, then the
    /// right one.
    pub open spec fn slots(self) -> (Option<T>, Option<T>) {
        match self {
            Case::Both(pair) => (Some(pair@.0), Some(pair@.1)),
            Case::One(Side::L, value) => (Some(value), None),
            Case::One(Side::R, value) => (None, Some(value)),
            Case::Neither => (None, None),
        }
    }

    /// Two optional slots are found again from the case they make.
    pub proof fn lemma_slots_of_slots(left: Option<T>, right: Option<T>)
        ensures
            Case::of_slots(left, right).slots() == (left, right),
    {
        broadcast use crate::pair::group_pair_model;
    }

    /// A case is found again from the two optional slots that make it.
    pub proof fn lemma_of_slots_slots(self)
        ensures
            Case::of_slots(self.slots().0, self.slots().1) == self,
    {
        broadcast use crate::pair::group_pair_model;
    }

    /// The variant follows from which of the two slots hold a value.
    pub proof fn lemma_variant(left: Option<T>, right: Option<T>)
        ensures
            Case::of_slots(left, right) is Both <==> left is Some && right is Some,
            Case::of_slots(left, right) is One <==> (left is Some) != (right is Some),
            Case::of_slots(left, right) is Neither <==> left is None && right is None,
            Case::of_slots(left, right) matches Case::One(side, _) ==> (side == Side::L <==> left
                is Some),
    {
    }
}

impl<T> Case<T> {
    /// Makes the case of a left and a right optional slot.
    fn from_slots(left: Option<T>, right: Option<T>) -> (case: Case<T>)
        ensures
            case == Case::of_slots(left, right),
    {
        match (left, right) {
            (Some(l), Some(r)) => {
                let pair = Pair::new(l, r);
                proof {
                    broadcast use crate::pair::group_pair_model;
                }
                Case::Both(pair)
            },
            (Some(l), None) => Case::One(Side::L, l),
            (None, Some(r)) => Case::One(Side::R, r),
            (None, None) => Case::Neither,
        }
    }

    /// Takes the case apart into its left and its right optional slot.
    fn into_slots(self) -> (slots: (Option<T>, Option<T>))
        ensures
            slots == self.slots(),
    {
        match self {
            Case::Both(pair) => {
                let array: [T; 2] = pair.into();
                let (l, r) = <(T, T)>::from(array);
                (Some(l), Some(r))
            },
            Case::One(side, value) => match side {
                Side::L => (Some(value), None),
                Side::R => (None, Some(value)),
            },
            Case::Neither => (None, None),
        }
    }
}

impl<T> FromSpecImpl<[Option<T>; 2]> for Case<T> {
    open spec fn obeys_from_spec() -> bool {
        true
    }

    open spec fn from_spec(array: [Option<T>; 2]) -> Case<T> {
        Case::of_slots(array@[0], array@[1])
    }
}

impl<T> From<[Option<T>; 2]> for Case<T> {
    /// The case that an array of a left and a right optional slot makes.
    fn from(array: [Option<T>; 2]) -> (case: Case<T>)
        ensures
            case == Case::of_slots(array@[0], array@[1]),
    {
        let (left, right) = <(Option<T>, Option<T>)>::from(array);
        Case::from_slots(left, right)
    }
}

impl<T> FromSpecImpl<Case<T>> for [Option<T>; 2] {
    open spec fn obeys_from_spec() -> bool {
        true
    }

    open spec fn from_spec(case: Case<T>) -> [Option<T>; 2] {
        [case.slots().0, case.slots().1]
    }
}

impl<T> From<Case<T>> for [Option<T>; 2] {
    /// The array of the left and the right optional slot that make a case.
    fn from(case: Case<T>) -> (array: [Option<T>; 2])
        ensures
            array@ == seq![case.slots().0, case.slots().1],
    {
        let (left, right) = case.into_slots();
        let array = [left, right];
        proof {
            assert(array =~= [case.slots().0, case.slots().1]);
        }
        array
    }
}

impl<T> FromSpecImpl<Pair<Option<T>>> for Case<T> {
    open spec fn obeys_from_spec() -> bool {
        true
    }

    open spec fn from_spec(pair: Pair<Option<T>>) -> Case<T> {
        Case::of_slots(pair@.0, pair@.1)
    }
}

impl<T> From<Pair<Option<T>>> for Case<T> {
    /// The case that a pair of optional values makes.
    fn from(pair: Pair<Option<T>>) -> (case: Case<T>)
        ensures
            case == Case::of_slots(pair@.0, pair@.1),
    {
        let array: [Option<T>; 2] = pair.into();
        array.into()
    }
}

impl<T> FromSpecImpl<Case<T>> for Pair<Option<T>> {
    open spec fn obeys_from_spec() -> bool {
        true
    }

    open spec fn from_spec(case: Case<T>) -> Pair<Option<T>> {
        Pair::of(case.slots().0, case.slots().1)
    }
}

impl<T> From<Case<T>> for Pair<Option<T>> {
    /// The pair of optional values that make a case.
    fn from(case: Case<T>) -> (pair: Pair<Option<T>>)
        ensures
            pair@ == case.slots(),
    {
        let array: [Option<T>; 2] = case.into();
        array.into()
    }
}

impl<T: Clone> Clone for Case<T> {
    /// The same variant, and on the same side, with each value cloned.
    fn clone(&self) -> (copy: Case<T>)
        ensures
            match *self {
                Case::Both(pair) => copy matches Case::Both(c) && cloned(pair@.0, c@.0) && cloned(
                    pair@.1,
                    c@.1,
                ),
                Case::One(side, value) => copy matches Case::One(s, v) && s == side && cloned(
                    value,
                    v,
                ),
                Case::Neither => copy is Neither,
            },
    {
        match self {
            Case::Both(pair) => Case::Both(pair.clone()),
            Case::One(side, value) => Case::One(*side, value.clone()),
            Case::Neither => Case::Neither,
        }
    }
}

impl<T: PartialEq> PartialEqSpecImpl for Case<T> {
    open spec fn obeys_eq_spec() -> bool {
        T::obeys_eq_spec()
    }

    /// Two cases are equal when they are of the same variant, on the same
    /// side, and hold equal values.
    open spec fn eq_spec(&self, other: &Case<T>) -> bool {
        match (*self, *other) {
            (Case::Both(p), Case::Both(q)) => PartialEqSpec::eq_spec(&p, &q),
            (Case::One(s, v), Case::One(t, w)) => s == t && v.eq_spec(&w),
            (Case::Neither, Case::Neither) => true,
            _ => false,
        }
    }
}

impl<T: PartialEq> PartialEq for Case<T> {
    /// Compares the variants, then the sides, then the values.
    fn eq(&self, other: &Case<T>) -> (equal: bool) {
        match (self, other) {
            (Case::Both(p), Case::Both(q)) => p == q,
            (Case::One(s, v), Case::One(t, w)) => *s == *t && v == w,
            (Case::Neither, Case::Neither) => true,
            _ => false,
        }
    }
}

impl<T: Eq> Eq for Case<T> {
}

} // verus!
