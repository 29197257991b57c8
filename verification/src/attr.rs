//! A typed cell that holds the value of one attribute, or nothing.

use vstd::prelude::*;
use crate::transform::Transform;

verus! {

/// A cell for a value of type `T`.
pub struct Attr<T> {
    val: Option<T>,
}

/// An empty cell.
pub fn attr<T>() -> (a: Box<Attr<T>>)
    ensures
        a.value() is None,
{
    Box::new(Attr { val: None })
}

impl<T> Attr<T> {
    /// What the cell holds.
    pub closed spec fn value(&self) -> Option<T> {
        self.val
    }

    /// The cell that holds what `val` turns into.
    pub fn new<F: Transform<T>>(val: F) -> (a: Attr<T>)
        ensures
            val.transforms(a.value()),
    {
        Attr { val: val.transform() }
    }

    /// Puts what `val` turns into in the cell, in place of what it held.
    pub fn set<F: Transform<T>>(&mut self, val: F)
        ensures
            val.transforms(final(self).value()),
    {
        self.val = val.transform();
    }

    /// What the cell holds.
    pub fn get(&self) -> (r: Option<&T>)
        ensures
            r == (match self.value() {
                Some(v) => Some(&v),
                None => None,
            }),
    {
        self.val.as_ref()
    }
}

} // verus!
