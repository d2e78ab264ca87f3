//! Comparing and copying schema values by what they stand for.

use std::ops::Range;
use vstd::prelude::*;

verus! {

/// A value with a mathematical model. Two values with the same model are the
/// same content, whatever memory holds them.
pub trait Content: Sized {
    /// What a value stands for in contracts.
    type Model;

    spec fn model(&self) -> Self::Model;

    /// Whether `self` and `other` are the same content.
    fn same(&self, other: &Self) -> (r: bool)
        ensures
            r == (self.model() == other.model()),
    ;

    /// A copy of `self` with the same content.
    fn duplicate(&self) -> (r: Self)
        ensures
            r.model() == self.model(),
    ;
}

/// The models of the items of `s`, in order.
pub open spec fn models<T: Content>(s: Seq<T>) -> Seq<T::Model> {
    s.map_values(|t: T| t.model())
}

/// The model of an optional value.
pub open spec fn model_of<T: Content>(o: Option<T>) -> Option<T::Model> {
    match o {
        Some(t) => Some(t.model()),
        None => None,
    }
}

impl Content for bool {
    type Model = bool;

    open spec fn model(&self) -> bool {
        *self
    }

    fn same(&self, other: &Self) -> (r: bool) {
        *self == *other
    }

    fn duplicate(&self) -> (r: Self) {
        *self
    }
}

impl Content for u32 {
    type Model = u32;

    open spec fn model(&self) -> u32 {
        *self
    }

    fn same(&self, other: &Self) -> (r: bool) {
        *self == *other
    }

    fn duplicate(&self) -> (r: Self) {
        *self
    }
}

impl Content for usize {
    type Model = usize;

    open spec fn model(&self) -> usize {
        *self
    }

    fn same(&self, other: &Self) -> (r: bool) {
        *self == *other
    }

    fn duplicate(&self) -> (r: Self) {
        *self
    }
}

impl Content for String {
    type Model = Seq<char>;

    open spec fn model(&self) -> Seq<char> {
        self@
    }

    fn same(&self, other: &Self) -> (r: bool) {
        *self == *other
    }

    fn duplicate(&self) -> (r: Self) {
        self.clone()
    }
}

impl Content for Range<usize> {
    type Model = (usize, usize);

    open spec fn model(&self) -> (usize, usize) {
        (self.start, self.end)
    }

    fn same(&self, other: &Self) -> (r: bool) {
        self.start == other.start && self.end == other.end
    }

    fn duplicate(&self) -> (r: Self) {
        Range { start: self.start, end: self.end }
    }
}

impl<T: Content> Content for Box<T> {
    type Model = T::Model;

    open spec fn model(&self) -> T::Model {
        (**self).model()
    }

    fn same(&self, other: &Self) -> (r: bool) {
        (**self).same(&**other)
    }

    fn duplicate(&self) -> (r: Self) {
        Box::new((**self).duplicate())
    }
}

impl<T: Content> Content for Option<T> {
    type Model = Option<T::Model>;

    open spec fn model(&self) -> Option<T::Model> {
        model_of(*self)
    }

    fn same(&self, other: &Self) -> (r: bool) {
        match (self, other) {
            (Some(x), Some(y)) => x.same(y),
            (None, None) => true,
            _ => false,
        }
    }

    fn duplicate(&self) -> (r: Self) {
        match self {
            Some(x) => Some(x.duplicate()),
            None => None,
        }
    }
}

impl<T: Content> Content for Vec<T> {
    type Model = Seq<T::Model>;

    open spec fn model(&self) -> Seq<T::Model> {
        models(self@)
    }

    fn same(&self, other: &Self) -> (r: bool) {
        if self.len() != other.len() {
            assert(models(self@).len() != models(other@).len());
            return false;
        }
        let mut i: usize = 0;
        while i < self.len()
            invariant
                i <= self.len(),
                self.len() == other.len(),
                forall|j: int| 0 <= j < i ==> self@[j].model() == other@[j].model(),
            decreases self.len() - i,
        {
            if !self[i].same(&other[i]) {
                assert(models(self@)[i as int] != models(other@)[i as int]);
                return false;
            }
            i += 1;
        }
        assert(models(self@) =~= models(other@));
        true
    }

    fn duplicate(&self) -> (r: Self) {
        let mut r: Vec<T> = Vec::with_capacity(self.len());
        let mut i: usize = 0;
        while i < self.len()
            invariant
                i <= self.len(),
                r.len() == i,
                forall|j: int| 0 <= j < i ==> r@[j].model() == self@[j].model(),
            decreases self.len() - i,
        {
            r.push(self[i].duplicate());
            i += 1;
        }
        assert(models(r@) =~= models(self@));
        r
    }
}

} // verus!
