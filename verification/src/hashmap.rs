//! A hash map that always holds at least one pair.

use vstd::prelude::*;

verus! {

/// A non-empty hash map.
///
/// The first key-value pair is held in the structure itself. The pairs after
/// it are held in a [`std::collections::HashMap`]; see that type for memory
/// and performance characteristics.
///
/// In contracts a map stands for the mapping `m@` from its keys to
/// their values, the first pair included.
#[derive(Debug)]
pub struct HashMap<K, V> {
    first: (K, V),
    dynamic: std::collections::HashMap<K, V>,
}

impl<K, V> View for HashMap<K, V> {
    type V = Map<K, V>;

    closed spec fn view(&self) -> Map<K, V> {
        self.dynamic@.insert(self.first.0, self.first.1)
    }
}

impl<K, V> HashMap<K, V> {
    /// The key of the first pair does not occur again in the growable
    /// portion, so every key of the map is held once.
    pub closed spec fn well_formed(&self) -> bool {
        !self.dynamic@.contains_key(self.first.0)
    }

    /// Constructs a map of a single pair. The growable portion starts empty.
    pub fn new(key: K, value: V) -> (m: Self)
        ensures
            m.well_formed(),
            m@ == Map::<K, V>::empty().insert(key, value),
    {
        Self { first: (key, value), dynamic: std::collections::HashMap::new() }
    }
}

impl<K: Clone, V: Clone> Clone for HashMap<K, V> {
    fn clone(&self) -> Self {
        Self { first: (self.first.0.clone(), self.first.1.clone()), dynamic: self.dynamic.clone() }
    }
}

} // verus!
