//! The two-slot container.

use vstd::prelude::*;
use vstd::std_specs::cmp::PartialEqSpec;
use vstd::std_specs::cmp::PartialEqSpecImpl;
use vstd::std_specs::convert::FromSpecImpl;
use vstd::std_specs::iter::IteratorSpec;
use crate::paired::Paired;
use crate::side::Side;

verus! {

/// Exactly two values of one type: the left one and the right one.
#[derive(Copy, Debug)]
pub struct Pair<T>([T; 2]);

impl<T> View for Pair<T> {
    type V = (T, T);

    /// The left value, then the right value.
    closed spec fn view(&self) -> (T, T) {
        (self.0[0], self.0[1])
    }
}

impl<T> Pair<T> {
    /// The pair of two given values.
    pub closed spec fn of(left: T, right: T) -> Pair<T> {
        Pair([left, right])
    }

    /// What the slot on a side holds; in specifications also written
    /// `pair[side]`.
    pub open spec fn spec_index(self, side: Side) -> T {
        match side {
            Side::L => self@.0,
            Side::R => self@.1,
        }
    }

    /// The pair with its two values exchanged.
    pub open spec fn swapped(self) -> Pair<T> {
        Pair::of(self@.1, self@.0)
    }

    /// `Pair::of` puts its first argument left and its second right.
    pub broadcast proof fn lemma_view_of(left: T, right: T)
        ensures
            (#[trigger] Pair::of(left, right))@ == (left, right),
    {
    }

    /// A pair is no more than its two values: pairs with the same view are
    /// the same pair.
    pub broadcast proof fn lemma_view_injective(p: Pair<T>, q: Pair<T>)
        requires
            #[trigger] p@ == #[trigger] q@,
        ensures
            p == q,
    {
        assert(p.0 =~= q.0);
    }

    /// Exchanging the two values twice gives the pair back.
    pub proof fn lemma_swap_involutive(self)
        ensures
            self.swapped().swapped() == self,
            self.swapped()@ == (self@.1, self@.0),
    {
        broadcast use group_pair_model;
    }

    /// Mapping by a function that has one result for each argument, `g` of
    /// the argument, gives the pair of `g` of the left value and `g` of the
    /// right value.
    pub proof fn lemma_map_of_function<U, F: Fn(T) -> U>(
        self,
        f: F,
        g: spec_fn(T) -> U,
        mapped: Pair<U>,
    )
        requires
            forall|x: T, y: U| call_ensures(f, (x,), y) ==> y == g(x),
            call_ensures(f, (self@.0,), mapped@.0),
            call_ensures(f, (self@.1,), mapped@.1),
        ensures
            mapped == Pair::of(g(self@.0), g(self@.1)),
    {
        broadcast use group_pair_model;
    }

    /// Makes a pair of a left and a right value.
    pub fn new(left: T, right: T) -> (p: Self)
        ensures
            p@ == (left, right),
    {
        Pair([left, right])
    }

    /// Takes the pair apart into its left and its right value.
    fn into_slots(self) -> (slots: (T, T))
        ensures
            slots == self@,
    {
        <(T, T)>::from(self.0)
    }

    /// Iterates over the borrowed values: the left one, then the right one,
    /// then nothing more.
    pub fn iter(&self) -> (it: core::slice::Iter<'_, T>)
        ensures
            it.remaining() == seq![&self@.0, &self@.1],
            it.decrease() is Some,
            it.initial_value_relation(&it),
    {
        let it = self.0.iter();
        proof {
            broadcast use vstd::std_specs::slice::axiom_spec_slice_iter;
            assert(it.remaining() =~= seq![&self@.0, &self@.1]);
        }
        it
    }

    /// Iterates over the values borrowed for writing: the left one, then
    /// the right one, then nothing more. What is written through the first
    /// borrow is the left value afterwards, and what is written through the
    /// second is the right value.
    pub fn iter_mut(&mut self) -> (it: std::vec::IntoIter<&mut T>)
        ensures
            it.remaining().len() == 2,
            *it.remaining()[0] == old(self)@.0,
            *it.remaining()[1] == old(self)@.1,
            final(self)@ == (*final(it.remaining()[0]), *final(it.remaining()[1])),
            it.decrease() is Some,
            it.initial_value_relation(&it),
    {
        let (l, r) = <(&mut T, &mut T)>::from(self.0.each_mut());
        let mut refs: Vec<&mut T> = Vec::new();
        refs.push(l);
        refs.push(r);
        refs.into_iter()
    }

    /// Applies `f` to the left value and then to the right value, and
    /// pairs the results.
    pub fn map<U, F>(self, f: F) -> (mapped: Pair<U>) where F: Fn(T) -> U
        requires
            call_requires(f, (self@.0,)),
            call_requires(f, (self@.1,)),
        ensures
            call_ensures(f, (self@.0,), mapped@.0),
            call_ensures(f, (self@.1,), mapped@.1),
    {
        let (l, r) = self.into_slots();
        let left = f(l);
        let right = f(r);
        Pair([left, right])
    }

    /// Pairs each value with the value of `other` on the same side.
    pub fn zip<U>(self, other: Pair<U>) -> (zipped: Pair<(T, U)>)
        ensures
            zipped@ == ((self@.0, other@.0), (self@.1, other@.1)),
    {
        let (l1, r1) = self.into_slots();
        let (l2, r2) = other.into_slots();
        Pair([(l1, l2), (r1, r2)])
    }

    /// Pairs each value with a borrow of the value of `other` on the same
    /// side.
    pub fn compare<'a, U>(self, other: &'a Pair<U>) -> (compared: Pair<(T, &'a U)>)
        ensures
            compared@ == ((self@.0, &other@.0), (self@.1, &other@.1)),
    {
        let (l1, r1) = self.into_slots();
        Pair([(l1, other.get_left()), (r1, other.get_right())])
    }

    /// Combines each value with the value of `other` on the same side by
    /// `f`: the left ones first, then the right ones.
    pub fn merge<U, V, F>(self, other: Pair<U>, f: F) -> (merged: Pair<V>) where F: Fn(T, U) -> V
        requires
            call_requires(f, (self@.0, other@.0)),
            call_requires(f, (self@.1, other@.1)),
        ensures
            call_ensures(f, (self@.0, other@.0), merged@.0),
            call_ensures(f, (self@.1, other@.1), merged@.1),
    {
        self.zip(other).map(
            |both: (T, U)| -> (v: V)
                requires
                    call_requires(f, (both.0, both.1)),
                ensures
                    call_ensures(f, (both.0, both.1), v),
                {
                    f(both.0, both.1)
                }
        )
    }

    /// Combines each value with a borrow of the value of `other` on the
    /// same side by `f`: the left ones first, then the right ones.
    pub fn apply<U, V, F>(self, other: &Pair<U>, f: F) -> (applied: Pair<V>) where F: Fn(T, &U) -> V
        requires
            call_requires(f, (self@.0, &other@.0)),
            call_requires(f, (self@.1, &other@.1)),
        ensures
            call_ensures(f, (self@.0, &other@.0), applied@.0),
            call_ensures(f, (self@.1, &other@.1), applied@.1),
    {
        self.compare(other).map(
            |both: (T, &U)| -> (v: V)
                requires
                    call_requires(f, (both.0, both.1)),
                ensures
                    call_ensures(f, (both.0, both.1), v),
                {
                    f(both.0, both.1)
                }
        )
    }
}

pub broadcast group group_pair_model {
    Pair::lemma_view_of,
    Pair::lemma_view_injective,
}

impl<T> Paired for Pair<T> {
    type Item = T;

    open spec fn left(&self) -> T {
        self@.0
    }

    open spec fn right(&self) -> T {
        self@.1
    }

    /// Borrows the left value.
    fn get_left(&self) -> (item: &T)
        ensures
            *item == self@.0,
    {
        &self.0[0]
    }

    /// Borrows the right value.
    fn get_right(&self) -> (item: &T)
        ensures
            *item == self@.1,
    {
        &self.0[1]
    }

    /// Borrows the left value for writing; the right value stays.
    fn get_left_mut(&mut self) -> (item: &mut T)
        ensures
            *item == old(self)@.0,
            final(self)@ == (*final(item), old(self)@.1),
    {
        &mut self.0[0]
    }

    /// Borrows the right value for writing; the left value stays.
    fn get_right_mut(&mut self) -> (item: &mut T)
        ensures
            *item == old(self)@.1,
            final(self)@ == (old(self)@.0, *final(item)),
    {
        &mut self.0[1]
    }

    /// Exchanges the left and the right value in place.
    fn swap(&mut self)
        ensures
            final(self)@ == (old(self)@.1, old(self)@.0),
            *final(self) == old(self).swapped(),
    {
        let (l, r) = <(&mut T, &mut T)>::from(self.0.each_mut());
        core::mem::swap(l, r);
        proof {
            broadcast use group_pair_model;
        }
    }
}

impl<T> vstd::std_specs::core::IndexSpecImpl<Side> for Pair<T> {
    /// Every side is a valid index.
    open spec fn index_req(&self, index: &Side) -> bool {
        true
    }
}

impl<T> core::ops::Index<Side> for Pair<T> {
    type Output = T;

    /// Borrows the slot on the given side.
    fn index(&self, index: Side) -> (item: &T)
        ensures
            *item == self[index],
    {
        self.get(index)
    }
}

impl<T> core::ops::IndexMut<Side> for Pair<T> {
    /// Borrows the slot on the given side for writing. The slot on the
    /// other side keeps its value.
    fn index_mut(&mut self, index: Side) -> (item: &mut T)
        ensures
            *item == old(self)[index],
            final(self)[index] == *final(item),
            final(self)[index.opposite()] == old(self)[index.opposite()],
    {
        self.get_mut(index)
    }
}

impl<T> IntoIterator for Pair<T> {
    type Item = T;

    type IntoIter = std::vec::IntoIter<T>;

    /// Iterates over the values: the left one, then the right one, then
    /// nothing more.
    fn into_iter(self) -> (it: std::vec::IntoIter<T>)
        ensures
            it.remaining() == seq![self@.0, self@.1],
            it.decrease() is Some,
            it.initial_value_relation(&it),
    {
        let (l, r) = self.into_slots();
        let mut values: Vec<T> = Vec::new();
        values.push(l);
        values.push(r);
        let it = values.into_iter();
        proof {
            broadcast use vstd::std_specs::vec::axiom_spec_into_iter;
            assert(it.remaining() =~= seq![self@.0, self@.1]);
        }
        it
    }
}

impl<T> AsRef<[T; 2]> for Pair<T> {
    /// Borrows the two values as an array: the left one first.
    fn as_ref(&self) -> (array: &[T; 2])
        ensures
            array@ == seq![self@.0, self@.1],
    {
        &self.0
    }
}

impl<T> AsMut<[T; 2]> for Pair<T> {
    /// Borrows the two values for writing, as an array: the left one first.
    /// What the array holds when the borrow ends is what the pair holds.
    fn as_mut(&mut self) -> (array: &mut [T; 2])
        ensures
            array@ == seq![old(self)@.0, old(self)@.1],
            final(self)@ == (final(array)@[0], final(array)@[1]),
    {
        &mut self.0
    }
}

impl<T> FromSpecImpl<[T; 2]> for Pair<T> {
    open spec fn obeys_from_spec() -> bool {
        true
    }

    open spec fn from_spec(array: [T; 2]) -> Pair<T> {
        Pair::of(array@[0], array@[1])
    }
}

impl<T> From<[T; 2]> for Pair<T> {
    /// The pair of an array's first and second item.
    fn from(array: [T; 2]) -> (p: Pair<T>)
        ensures
            p@ == (array@[0], array@[1]),
    {
        let p = Pair(array);
        proof {
            Pair::lemma_view_injective(p, Pair::of(array@[0], array@[1]));
        }
        p
    }
}

impl<T> FromSpecImpl<Pair<T>> for [T; 2] {
    open spec fn obeys_from_spec() -> bool {
        true
    }

    open spec fn from_spec(p: Pair<T>) -> [T; 2] {
        [p@.0, p@.1]
    }
}

impl<T> From<Pair<T>> for [T; 2] {
    /// The array of a pair's left and right value, in that order.
    fn from(p: Pair<T>) -> (array: [T; 2])
        ensures
            array@ == seq![p@.0, p@.1],
    {
        let array = p.0;
        proof {
            assert(array =~= [p@.0, p@.1]);
        }
        array
    }
}

impl<T> FromSpecImpl<Pair<T>> for Pair<Option<T>> {
    open spec fn obeys_from_spec() -> bool {
        true
    }

    open spec fn from_spec(p: Pair<T>) -> Pair<Option<T>> {
        Pair::of(Some(p@.0), Some(p@.1))
    }
}

impl<T> From<Pair<T>> for Pair<Option<T>> {
    /// The pair in which both values are present.
    fn from(p: Pair<T>) -> (present: Pair<Option<T>>)
        ensures
            present@ == (Some(p@.0), Some(p@.1)),
    {
        let (l, r) = p.into_slots();
        let present = Pair([Some(l), Some(r)]);
        proof {
            Pair::lemma_view_injective(present, Pair::of(Some(p@.0), Some(p@.1)));
        }
        present
    }
}

impl<T> Pair<Option<T>> {
    /// How many of the two values are present.
    pub open spec fn present(self) -> nat {
        (if self@.0 is Some { 1nat } else { 0nat }) + (if self@.1 is Some { 1nat } else { 0nat })
    }

    /// What `map_some` makes of one slot under `f`: nothing of nothing, and
    /// of a value a result of `f` on it.
    pub open spec fn maps_to<U, F: Fn(T) -> U>(f: F, slot: Option<T>, out: Option<U>) -> bool {
        match slot {
            Some(v) => out matches Some(u) && call_ensures(f, (v,), u),
            None => out is None,
        }
    }

    /// Whether the left and the right value are both present.
    pub fn both(&self) -> (b: bool)
        ensures
            b <==> self@.0 is Some && self@.1 is Some,
            b <==> self.present() == 2,
    {
        self.get_left().is_some() && self.get_right().is_some()
    }

    /// Whether neither value is present.
    pub fn none(&self) -> (b: bool)
        ensures
            b <==> self@.0 is None && self@.1 is None,
            b <==> self.present() == 0,
    {
        self.get_left().is_none() && self.get_right().is_none()
    }

    /// Whether at least one value is present.
    pub fn any(&self) -> (b: bool)
        ensures
            b <==> self@.0 is Some || self@.1 is Some,
            b <==> self.present() >= 1,
    {
        self.get_left().is_some() || self.get_right().is_some()
    }

    /// Whether exactly one value is present.
    pub fn one(&self) -> (b: bool)
        ensures
            b <==> (self@.0 is Some) != (self@.1 is Some),
            b <==> self.present() == 1,
    {
        if self.get_left().is_some() {
            self.get_right().is_none()
        } else {
            self.get_right().is_some()
        }
    }

    /// Applies `f` to each value that is present, the left one first, and
    /// leaves an absent value absent.
    pub fn map_some<U, F>(self, f: F) -> (mapped: Pair<Option<U>>) where F: Fn(T) -> U
        requires
            self@.0 matches Some(l) ==> call_requires(f, (l,)),
            self@.1 matches Some(r) ==> call_requires(f, (r,)),
        ensures
            Self::maps_to(f, self@.0, mapped@.0),
            Self::maps_to(f, self@.1, mapped@.1),
    {
        self.map(
            |slot: Option<T>| -> (out: Option<U>)
                requires
                    slot matches Some(v) ==> call_requires(f, (v,)),
                ensures
                    Self::maps_to(f, slot, out),
                {
                    slot.map(
                        |v: T| -> (u: U)
                            requires
                                call_requires(f, (v,)),
                            ensures
                                call_ensures(f, (v,), u),
                            {
                                f(v)
                            }
                    )
                }
        )
    }
}

impl<T: Clone> Clone for Pair<T> {
    /// The pair of a clone of the left value and a clone of the right one.
    fn clone(&self) -> (copy: Pair<T>)
        ensures
            cloned(self@.0, copy@.0),
            cloned(self@.1, copy@.1),
    {
        Pair(self.0.clone())
    }
}

impl<T: Default> Default for Pair<T> {
    /// The pair of two default values.
    fn default() -> (p: Pair<T>)
        ensures
            call_ensures(T::default, (), p@.0),
            call_ensures(T::default, (), p@.1),
    {
        let left = T::default();
        let right = T::default();
        Pair([left, right])
    }
}

impl<T: PartialEq> PartialEqSpecImpl for Pair<T> {
    open spec fn obeys_eq_spec() -> bool {
        T::obeys_eq_spec()
    }

    /// Two pairs are equal when their left values are and their right
    /// values are.
    open spec fn eq_spec(&self, other: &Pair<T>) -> bool {
        self@.0.eq_spec(&other@.0) && self@.1.eq_spec(&other@.1)
    }
}

impl<T: PartialEq> PartialEq for Pair<T> {
    /// Compares the left values, then the right values.
    fn eq(&self, other: &Pair<T>) -> (equal: bool) {
        self.0[0] == other.0[0] && self.0[1] == other.0[1]
    }
}

impl<T: Eq> Eq for Pair<T> {
}

} // verus!
