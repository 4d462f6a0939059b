//! A hash set that always holds at least one item.

use vstd::prelude::*;

verus! {

/// A non-empty hash set.
///
/// The first item is held in the structure itself. The items after it are
/// held in a [`std::collections::HashSet`]; see that type for memory and
/// performance characteristics.
///
/// In contracts a set stands for the set `s@` of its items, the first
/// one included.
#[derive(Debug)]
pub struct HashSet<T> {
    first: T,
    dynamic: std::collections::HashSet<T>,
}

impl<T> View for HashSet<T> {
    type V = Set<T>;

    closed spec fn view(&self) -> Set<T> {
        self.dynamic@.insert(self.first)
    }
}

impl<T> HashSet<T> {
    /// The first item does not occur again in the growable portion, so every
    /// item of the set is held once.
    pub closed spec fn well_formed(&self) -> bool {
        !self.dynamic@.contains(self.first)
    }

    /// Constructs a set of a single item. The growable portion starts empty.
    pub fn new(first: T) -> (s: Self)
        ensures
            s.well_formed(),
            s@ == Set::<T>::empty().insert(first),
    {
        Self { first, dynamic: std::collections::HashSet::new() }
    }
}

impl<T: Clone> Clone for HashSet<T> {
    fn clone(&self) -> Self {
        Self { first: self.first.clone(), dynamic: clone_dynamic(&self.dynamic) }
    }
}

/// `Clone::clone` of `std::collections::HashSet`. Nothing is claimed of the
/// set that it returns.
#[verifier::external_body]
fn clone_dynamic<T: Clone>(dynamic: &std::collections::HashSet<T>) -> std::collections::HashSet<T> {
    dynamic.clone()
}

} // verus!
