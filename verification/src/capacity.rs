//! Pre-allocation sizes for collections that hold part of their entries statically.

use crate::text::{decimal, push_decimal};
use vstd::math::{max, min};
use vstd::prelude::*;
use vstd::std_specs::convert::{FromSpecImpl, IntoSpec};
use vstd::string::StringExecFns;

verus! {

/// The capacity of a data structure that keeps `N` entries outside its
/// growable portion.
///
/// A capacity can be read in two ways:
///
/// - `total`: the size of the whole structure, the `N` statically held
///   entries included;
/// - `dynamic`: the size of the growable portion alone.
///
/// The two always differ by exactly `N`.
///
/// | Constructor                | Total | Dynamic |
/// | -------------------------- | ----- | ------- |
/// | `Capacity::<1>::default()`     | 1     | 0       |
/// | `Capacity::<1>::new_total(10)` | 10    | 9       |
/// | `Capacity::<1>::new_dynamic(1)`| 2     | 1       |
///
/// A capacity is a hint for pre-allocation and never a limit on the number of
/// entries, so the constructors clamp their argument instead of rejecting it.
#[derive(Copy, Clone, Eq, Ord, PartialOrd, Hash, Debug)]
pub struct Capacity<const N: usize> {
    total: usize,
    dynamic: usize,
}

impl<const N: usize> Capacity<N> {
    /// The total and the dynamic capacity differ by the static size.
    #[verifier::type_invariant]
    spec fn well_formed(self) -> bool {
        self.total == self.dynamic + N
    }

    /// The total capacity, for use in contracts.
    pub closed spec fn spec_total(&self) -> usize {
        self.total
    }

    /// The capacity of the growable portion, for use in contracts.
    pub closed spec fn spec_dynamic(&self) -> usize {
        self.dynamic
    }

    /// The capacity that `new_total` builds.
    pub closed spec fn spec_new_total(capacity: usize) -> Self {
        Capacity {
            total: max(capacity as int, N as int) as usize,
            dynamic: (max(capacity as int, N as int) - N) as usize,
        }
    }

    /// The capacity that `new_dynamic` builds.
    pub closed spec fn spec_new_dynamic(capacity: usize) -> Self {
        Capacity {
            total: (min(capacity as int, usize::MAX - N) + N) as usize,
            dynamic: min(capacity as int, usize::MAX - N) as usize,
        }
    }

    /// Creates a capacity from a total size. A total below `N` is raised to `N`.
    pub fn new_total(capacity: usize) -> (c: Self)
        ensures
            c == Self::spec_new_total(capacity),
            c.total() == max(capacity as int, N as int),
            c.dynamic() == c.total() - N,
    {
        let total: usize = if capacity >= N { capacity } else { N };
        let dynamic: usize = total - N;
        Self { total, dynamic }
    }

    /// Creates a capacity from the size of the growable portion. A size that
    /// would overflow once `N` is added is lowered to `usize::MAX - N`.
    pub fn new_dynamic(capacity: usize) -> (c: Self)
        ensures
            c == Self::spec_new_dynamic(capacity),
            c.dynamic() == min(capacity as int, usize::MAX - N),
            c.total() == c.dynamic() + N,
    {
        let limit: usize = usize::MAX - N;
        let dynamic: usize = if capacity <= limit { capacity } else { limit };
        let total: usize = dynamic + N;
        Self { total, dynamic }
    }

    /// The total capacity.
    #[verifier::when_used_as_spec(spec_total)]
    pub fn total(&self) -> (total: usize)
        ensures
            total == self.spec_total(),
            total == self.spec_dynamic() + N,
    {
        proof {
            use_type_invariant(self);
        }
        self.total
    }

    /// The capacity of the growable portion.
    #[verifier::when_used_as_spec(spec_dynamic)]
    pub fn dynamic(&self) -> (dynamic: usize)
        ensures
            dynamic == self.spec_dynamic(),
            dynamic == self.spec_total() - N,
    {
        proof {
            use_type_invariant(self);
        }
        self.dynamic
    }

    /// A capacity made from a total is the larger of that total and `N`, and
    /// its dynamic part is what is left of it beyond `N`.
    pub proof fn lemma_new_total(capacity: usize)
        ensures
            Self::spec_new_total(capacity).total() == max(capacity as int, N as int),
            Self::spec_new_total(capacity).dynamic() == Self::spec_new_total(capacity).total() - N,
    {
    }

    /// A capacity made from a dynamic size is the smaller of that size and
    /// `usize::MAX - N`, and its total is `N` more.
    pub proof fn lemma_new_dynamic(capacity: usize)
        ensures
            Self::spec_new_dynamic(capacity).dynamic() == min(capacity as int, usize::MAX - N),
            Self::spec_new_dynamic(capacity).total() == Self::spec_new_dynamic(capacity).dynamic()
                + N,
    {
    }

    /// The text that `to_string` gives.
    pub open spec fn spec_to_string(&self) -> Seq<char> {
        "capacity(static_size: "@ + decimal(self.total() as nat) + ", dynamic_size: "@ + decimal(
            self.dynamic() as nat,
        ) + ")"@
    }

    /// The capacity as text: its total and its dynamic size, in base ten.
    pub fn to_string(&self) -> (text: String)
        ensures
            text@ == self.spec_to_string(),
    {
        let mut text = String::from_str("capacity(static_size: ");
        push_decimal(&mut text, self.total);
        text.append(", dynamic_size: ");
        push_decimal(&mut text, self.dynamic);
        text.append(")");
        text
    }

    /// The number of entries held outside the growable portion.
    pub fn sizeof_n() -> (n: usize)
        ensures
            n == N,
    {
        N
    }
}

impl<const N: usize> PartialEq for Capacity<N> {
    /// Two capacities are equal when their totals and their dynamic parts are.
    fn eq(&self, other: &Self) -> (equal: bool) {
        self.total == other.total && self.dynamic == other.dynamic
    }
}

impl<const N: usize> vstd::std_specs::cmp::PartialEqSpecImpl for Capacity<N> {
    open spec fn obeys_eq_spec() -> bool {
        true
    }

    open spec fn eq_spec(&self, other: &Self) -> bool {
        self.total() == other.total() && self.dynamic() == other.dynamic()
    }
}

impl<const N: usize> Default for Capacity<N> {
    /// The smallest capacity there is: the static entries and no room in the
    /// growable portion.
    fn default() -> (c: Self)
        ensures
            c == Self::spec_new_total(N),
            c.total() == N,
            c.dynamic() == 0,
    {
        Self::new_total(N)
    }
}

impl<I: Into<usize>, const N: usize> FromSpecImpl<I> for Capacity<N> {
    open spec fn obeys_from_spec() -> bool {
        I::obeys_into_spec()
    }

    open spec fn from_spec(total_capacity: I) -> Self {
        Self::spec_new_total(total_capacity.into_spec())
    }
}

impl<I: Into<usize>, const N: usize> From<I> for Capacity<N> {
    /// Reads the number as a total capacity, the more cautious of the two
    /// readings.
    fn from(total_capacity: I) -> (c: Self)
        ensures
            exists|total: usize|
                call_ensures(I::into, (total_capacity,), total) && c == #[trigger] Self::spec_new_total(
                    total,
                ),
            c.total() == c.dynamic() + N,
            c.total() >= N,
    {
        Self::new_total(total_capacity.into())
    }
}

} // verus!
