//! Generic wrappers shared by all wire models.

use crate::json::JsonObject;
use vstd::prelude::*;

verus! {

/// Forward-compatible wrapper for tagged enums: a strongly typed `Known`
/// value, or the raw object of a shape that is not recognised.
#[derive(Debug, PartialEq)]
pub enum ForwardCompatible<T> {
    Known(T),
    Raw(JsonObject),
}

impl<T> ForwardCompatible<T> {
    /// Whether this is a known variant.
    pub fn is_known(&self) -> (r: bool)
        ensures
            r == (self is Known),
    {
        match self {
            ForwardCompatible::Known(_) => true,
            ForwardCompatible::Raw(_) => false,
        }
    }

    /// Whether this fell back to raw JSON.
    pub fn is_raw(&self) -> (r: bool)
        ensures
            r == (self is Raw),
    {
        match self {
            ForwardCompatible::Known(_) => false,
            ForwardCompatible::Raw(_) => true,
        }
    }

    /// The known value, if any.
    pub fn as_known(&self) -> (r: Option<&T>)
        ensures
            match self {
                ForwardCompatible::Known(t) => r == Some(t),
                ForwardCompatible::Raw(_) => r is None,
            },
    {
        match self {
            ForwardCompatible::Known(t) => Some(t),
            ForwardCompatible::Raw(_) => None,
        }
    }

    /// The raw object, if any.
    pub fn as_raw(&self) -> (r: Option<&JsonObject>)
        ensures
            match self {
                ForwardCompatible::Known(_) => r is None,
                ForwardCompatible::Raw(o) => r == Some(o),
            },
    {
        match self {
            ForwardCompatible::Known(_) => None,
            ForwardCompatible::Raw(o) => Some(o),
        }
    }

    /// Consumes self and returns the known value, if any.
    pub fn into_known(self) -> (r: Option<T>)
        ensures
            match self {
                ForwardCompatible::Known(t) => r == Some(t),
                ForwardCompatible::Raw(_) => r is None,
            },
    {
        match self {
            ForwardCompatible::Known(t) => Some(t),
            ForwardCompatible::Raw(_) => None,
        }
    }
}

/// A value that can be a single item or an array (`"stop": "END"` or
/// `"stop": ["END", "STOP"]`).
#[derive(Debug, PartialEq)]
pub enum OneOrMany<T> {
    One(T),
    Many(Vec<T>),
}

impl<T> OneOrMany<T> {
    /// The elements, in order.
    pub open spec fn elements(&self) -> Seq<T> {
        match self {
            OneOrMany::One(v) => seq![*v],
            OneOrMany::Many(v) => v@,
        }
    }

    /// Normalizes into a `Vec`, consuming self.
    pub fn into_vec(self) -> (r: Vec<T>)
        ensures
            r@ == self.elements(),
    {
        match self {
            OneOrMany::One(v) => {
                let mut r = Vec::new();
                r.push(v);
                assert(r@ =~= seq![v]);
                r
            },
            OneOrMany::Many(v) => v,
        }
    }

    /// The number of elements.
    pub fn len(&self) -> (r: usize)
        ensures
            r == self.elements().len(),
    {
        match self {
            OneOrMany::One(_) => 1,
            OneOrMany::Many(v) => v.len(),
        }
    }

    /// Whether there are no elements.
    pub fn is_empty(&self) -> (r: bool)
        ensures
            r == (self.elements().len() == 0),
    {
        match self {
            OneOrMany::One(_) => false,
            OneOrMany::Many(v) => v.len() == 0,
        }
    }
}

impl OneOrMany<String> {
    /// Copies the elements into a `Vec` without consuming self.
    pub fn to_vec(&self) -> (r: Vec<String>)
        ensures
            r@.len() == self.elements().len(),
            forall|i: int| 0 <= i < r@.len() ==> #[trigger] r@[i]@ == self.elements()[i]@,
    {
        match self {
            OneOrMany::One(v) => {
                let mut r = Vec::new();
                r.push(v.clone());
                r
            },
            OneOrMany::Many(v) => {
                let mut r: Vec<String> = Vec::new();
                let mut i: usize = 0;
                while i < v.len()
                    invariant
                        i <= v.len(),
                        r@.len() == i,
                        forall|k: int| 0 <= k < i ==> #[trigger] r@[k]@ == v@[k]@,
                    decreases v.len() - i,
                {
                    r.push(v[i].clone());
                    i = i + 1;
                }
                r
            },
        }
    }
}

} // verus!
