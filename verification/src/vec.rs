//! A vector that always holds at least one item.

use crate::error::TryFromError;
use std::collections::VecDeque;
use vstd::layout::size_of;
use vstd::prelude::*;
use vstd::std_specs::convert::{FromSpecImpl, TryFromSpecImpl};
use vstd::std_specs::iter::IteratorSpec;

verus! {

/// `Vec` keeps a single item outside its growable portion.
type Capacity = crate::capacity::Capacity<1>;

/// A non-empty vector of items.
///
/// The first item is held in the structure itself. The items after it are
/// held, in order, in a [`std::vec::Vec`]; see that type for memory and
/// performance characteristics.
///
/// In contracts a vector stands for the sequence of its items, `v@`:
/// the first item at index 0, followed by the growable portion.
#[derive(PartialEq, Eq, Debug)]
pub struct Vec<T> {
    first: T,
    dynamic: std::vec::Vec<T>,
}

impl<T> View for Vec<T> {
    type V = Seq<T>;

    closed spec fn view(&self) -> Seq<T> {
        seq![self.first] + self.dynamic@
    }
}

/// What `Vec::pop` gives on a vector of the items `s`: the items that stay,
/// if any does, and the item removed.
pub open spec fn spec_pop<T>(s: Seq<T>) -> (Option<Seq<T>>, T) {
    (
        if s.len() > 1 {
            Some(s.drop_last())
        } else {
            None
        },
        s.last(),
    )
}

/// How many times `Vec::pop` returns a vector when it is called on a vector
/// of the items `s` and then on each vector it returns.
pub open spec fn pops_before_none<T>(s: Seq<T>) -> nat
    decreases s.len(),
{
    match spec_pop(s).0 {
        Some(rest) => 1 + pops_before_none(rest),
        None => 0,
    }
}

/// The item that comes with `None` when `Vec::pop` is called on a vector of
/// the items `s` and then on each vector it returns.
pub open spec fn item_with_none<T>(s: Seq<T>) -> T
    decreases s.len(),
{
    match spec_pop(s).0 {
        Some(rest) => item_with_none(rest),
        None => spec_pop(s).1,
    }
}

/// What converting a plain collection of the items `s` gives: the items of
/// the non-empty vector, or the reason why there is none.
pub open spec fn spec_try_from<T>(s: Seq<T>) -> Result<Seq<T>, TryFromError> {
    if s.len() == 0 {
        Err(TryFromError::SourceEmpty)
    } else {
        Ok(s)
    }
}

impl<T> Vec<T> {
    /// The length of a vector, its first item included, fits in `usize`.
    #[verifier::type_invariant]
    spec fn well_formed(self) -> bool {
        self.dynamic@.len() < usize::MAX
    }

    /// The item at index `i`, so that `v[i]` can be written in contracts.
    pub open spec fn spec_index(&self, i: int) -> T
        recommends
            0 <= i < self@.len(),
    {
        self@[i]
    }

    /// Constructs a vector of a single item.
    ///
    /// The growable portion does not allocate until more items are pushed.
    pub fn new(first: T) -> (v: Self)
        ensures
            v@ == seq![first],
    {
        Self { first, dynamic: std::vec::Vec::new() }
    }

    /// Constructs a vector of a single item whose growable portion has room
    /// for at least `capacity.dynamic()` more items.
    ///
    /// The allocator refuses a growable portion of more than `isize::MAX`
    /// bytes, so such a capacity is not accepted.
    pub fn with_capacity(first: T, capacity: Capacity) -> (v: Self)
        requires
            capacity.dynamic() * size_of::<T>() <= isize::MAX,
        ensures
            v@ == seq![first],
    {
        let dynamic = std::vec::Vec::with_capacity(capacity.dynamic());
        Self { first, dynamic }
    }

    /// The number of items the vector can hold without reallocating.
    ///
    /// This is the room that the growable portion really has, which may be
    /// more than was asked for, read as a dynamic capacity.
    pub fn capacity(&self) -> (c: Capacity)
        ensures
            exists|room: usize|
                self@.len() - 1 <= room && c == #[trigger] Capacity::spec_new_dynamic(room),
            c.total() == c.dynamic() + 1,
            c.total() >= self@.len(),
    {
        proof {
            use_type_invariant(self);
        }
        Capacity::new_dynamic(allocated(&self.dynamic))
    }

    /// The number of items in the vector, the first one included.
    pub fn len(&self) -> (n: usize)
        ensures
            n == self@.len(),
            n >= 1,
    {
        proof {
            use_type_invariant(self);
        }
        self.dynamic.len() + 1
    }

    /// Whether the vector holds no item, which it never does.
    pub fn is_empty(&self) -> (b: bool)
        ensures
            b == false,
            b == (self@.len() == 0),
    {
        false
    }

    /// Makes room in the growable portion for at least `additional` more
    /// items. The vector may reserve more than that to avoid frequent
    /// reallocations. Does nothing if there is room enough already.
    ///
    /// How much room there is afterwards is the allocator's to decide and is
    /// read with `capacity`; of the vector itself this changes nothing, so the
    /// contract says that its items stay as they are.
    pub fn reserve(&mut self, additional: usize)
        requires
            old(self)@.len() - 1 + additional <= usize::MAX,
            (old(self)@.len() - 1 + additional) * size_of::<T>() <= isize::MAX,
        ensures
            final(self)@ == old(self)@,
    {
        proof {
            use_type_invariant(&*self);
        }
        let mut dynamic = std::vec::Vec::new();
        std::mem::swap(&mut dynamic, &mut self.dynamic);
        dynamic.reserve(additional);
        self.dynamic = dynamic;
    }

    /// Makes room in the growable portion for at least `additional` more
    /// items, without deliberately reserving more than that. Does nothing if
    /// there is room enough already.
    ///
    /// As with `reserve`, the room is the allocator's to decide, and the
    /// contract says that the items stay as they are.
    pub fn reserve_exact(&mut self, additional: usize)
        requires
            old(self)@.len() - 1 + additional <= usize::MAX,
            (old(self)@.len() - 1 + additional) * size_of::<T>() <= isize::MAX,
        ensures
            final(self)@ == old(self)@,
    {
        proof {
            use_type_invariant(&*self);
        }
        let mut dynamic = std::vec::Vec::new();
        std::mem::swap(&mut dynamic, &mut self.dynamic);
        reserve_exactly(&mut dynamic, additional);
        self.dynamic = dynamic;
    }

    /// Removes the last item and returns it.
    ///
    /// Popping the only item would leave the vector empty, so this takes the
    /// vector by value and gives it back only while an item is left in it.
    pub fn pop(self) -> (r: (Option<Self>, T))
        ensures
            r.1 == spec_pop(self@).1,
            match r.0 {
                Some(rest) => spec_pop(self@).0 == Some(rest@),
                None => spec_pop(self@).0 is None,
            },
    {
        proof {
            use_type_invariant(&self);
        }
        let Self { first, mut dynamic } = self;
        if let Some(item) = dynamic.pop() {
            (Some(Self { first, dynamic }), item)
        } else {
            (None, first)
        }
    }

    /// Appends an item to the back of the vector.
    pub fn push(&mut self, item: T)
        requires
            old(self)@.len() < usize::MAX,
        ensures
            final(self)@ == old(self)@.push(item),
            final(self)@.len() == old(self)@.len() + 1,
            final(self)@[old(self)@.len() as int] == item,
    {
        let mut dynamic = std::vec::Vec::new();
        std::mem::swap(&mut dynamic, &mut self.dynamic);
        dynamic.push(item);
        self.dynamic = dynamic;
    }

    /// Appends every item that `iter` produces, in the order in which it
    /// produces them.
    pub fn extend<I: Iterator<Item = T>>(&mut self, iter: I)
        requires
            iter.obeys_prophetic_iter_laws(),
            iter.decrease() is Some,
            old(self)@.len() + iter.remaining().len() <= usize::MAX,
        ensures
            final(self)@ == old(self)@ + iter.remaining(),
    {
        let ghost items = iter.remaining();
        let mut iter = iter;
        loop
            invariant
                iter.obeys_prophetic_iter_laws(),
                iter.decrease() is Some,
                old(self)@.len() + items.len() <= usize::MAX,
                self@.len() + iter.remaining().len() == old(self)@.len() + items.len(),
                self@ + iter.remaining() == old(self)@ + items,
            ensures
                self@ == old(self)@ + items,
            decreases iter.decrease()->0,
        {
            match iter.next() {
                Some(item) => {
                    self.push(item);
                },
                None => {
                    break ;
                },
            }
        }
    }

    /// The item at `index`, for writing.
    pub fn index_mut(&mut self, index: usize) -> (item: &mut T)
        requires
            index < old(self)@.len(),
        ensures
            *item == old(self)@[index as int],
            final(self)@ == old(self)@.update(index as int, *final(item)),
    {
        proof {
            use_type_invariant(&*self);
        }
        if index == 0 {
            reborrow(&mut self.first)
        } else {
            &mut self.dynamic[index - 1]
        }
    }

    /// A vector is never empty: its sequence of items has a first item.
    pub proof fn lemma_never_empty(self)
        ensures
            self@.len() >= 1,
    {
    }

    /// Popping a vector of `n` items again and again gives a vector back
    /// `n - 1` times, and then `None` together with the item that was first.
    pub proof fn lemma_pop_until_none(self)
        ensures
            pops_before_none(self@) == self@.len() - 1,
            item_with_none(self@) == self@[0],
    {
        lemma_pops(self@);
    }

    /// Converting a vector to a plain collection and back succeeds and
    /// gives the same items in the same order.
    pub proof fn lemma_round_trip(self)
        ensures
            spec_try_from(self@) == Ok::<Seq<T>, TryFromError>(self@),
    {
    }
}

proof fn lemma_pops<T>(s: Seq<T>)
    requires
        s.len() >= 1,
    ensures
        pops_before_none(s) == s.len() - 1,
        item_with_none(s) == s[0],
    decreases s.len(),
{
    if s.len() > 1 {
        lemma_pops(s.drop_last());
    }
}

impl<T: Clone> Clone for Vec<T> {
    /// A vector of as many items, each the clone of the item in its place.
    fn clone(&self) -> (v: Self)
        ensures
            v@.len() == self@.len(),
            forall|i: int| 0 <= i < self@.len() ==> cloned::<T>(#[trigger] self@[i], v@[i]),
    {
        proof {
            use_type_invariant(self);
        }
        let v = Self { first: self.first.clone(), dynamic: self.dynamic.clone() };
        assert forall|i: int| 0 <= i < self@.len() implies cloned::<T>(
            #[trigger] self@[i],
            v@[i],
        ) by {
            if i > 0 {
                assert(self@[i] == self.dynamic@[i - 1]);
                assert(v@[i] == v.dynamic@[i - 1]);
            }
        }
        v
    }
}

impl<T> vstd::std_specs::core::IndexSpecImpl<usize> for Vec<T> {
    open spec fn index_req(&self, index: &usize) -> bool {
        *index < self@.len()
    }
}

impl<T> std::ops::Index<usize> for Vec<T> {
    type Output = T;

    /// The item at `index`: the first item at 0, the growable portion after it.
    fn index(&self, index: usize) -> (item: &T)
        ensures
            *item == self@[index as int],
    {
        if index == 0 {
            &self.first
        } else {
            &self.dynamic[index - 1]
        }
    }
}

/// A vector is known by its items alone, and two vectors of the same items
/// need not be the same value. So `try_from` promises the items of its
/// result, in its own contract, and not the value named here.
impl<T> TryFromSpecImpl<std::vec::Vec<T>> for Vec<T> {
    open spec fn obeys_try_from_spec() -> bool {
        false
    }

    open spec fn try_from_spec(v: std::vec::Vec<T>) -> Result<Self, TryFromError> {
        match spec_try_from(v@) {
            Ok(items) => Ok(choose|r: Self| r@ == items),
            Err(e) => Err(e),
        }
    }
}

impl<T> TryFrom<std::vec::Vec<T>> for Vec<T> {
    type Error = TryFromError;

    /// Moves the first item of `sv` into the vector's own slot and the items
    /// after it, in order, into the growable portion. Fails on an empty `sv`.
    fn try_from(sv: std::vec::Vec<T>) -> (r: Result<Self, TryFromError>)
        ensures
            match r {
                Ok(v) => spec_try_from(sv@) == Ok::<Seq<T>, TryFromError>(v@),
                Err(e) => spec_try_from(sv@) == Err::<Seq<T>, TryFromError>(e),
            },
    {
        let mut dynamic = sv;
        if dynamic.len() == 0 {
            Err(TryFromError::SourceEmpty)
        } else {
            let first = dynamic.remove(0);
            let v = Self { first, dynamic };
            assert(v@ =~= sv@);
            Ok(v)
        }
    }
}

/// As for a plain vector: `try_from` promises the items of its result, in
/// its own contract, and not the value named here.
impl<T> TryFromSpecImpl<VecDeque<T>> for Vec<T> {
    open spec fn obeys_try_from_spec() -> bool {
        false
    }

    open spec fn try_from_spec(v: VecDeque<T>) -> Result<Self, TryFromError> {
        match spec_try_from(v@) {
            Ok(items) => Ok(choose|r: Self| r@ == items),
            Err(e) => Err(e),
        }
    }
}

impl<T> TryFrom<VecDeque<T>> for Vec<T> {
    type Error = TryFromError;

    /// Moves the front item of `sv` into the vector's own slot and the items
    /// after it, in order, into the growable portion. Fails on an empty `sv`.
    fn try_from(sv: VecDeque<T>) -> (r: Result<Self, TryFromError>)
        ensures
            match r {
                Ok(v) => spec_try_from(sv@) == Ok::<Seq<T>, TryFromError>(v@),
                Err(e) => spec_try_from(sv@) == Err::<Seq<T>, TryFromError>(e),
            },
    {
        proof {
            vstd::std_specs::vecdeque::axiom_spec_len(&sv);
        }
        let mut rest = sv;
        match rest.pop_front() {
            Some(first) => {
                let mut dynamic = std::vec::Vec::new();
                loop
                    invariant
                        0 < sv@.len() <= usize::MAX,
                        dynamic@ + rest@ == sv@.subrange(1, sv@.len() as int),
                    ensures
                        dynamic@ == sv@.subrange(1, sv@.len() as int),
                    decreases rest@.len(),
                {
                    match rest.pop_front() {
                        Some(item) => {
                            dynamic.push(item);
                        },
                        None => {
                            break ;
                        },
                    }
                }
                let v = Self { first, dynamic };
                assert(v@ =~= sv@);
                Ok(v)
            },
            None => Err(TryFromError::SourceEmpty),
        }
    }
}

/// `from` promises the items of its result, in its own contract, and not
/// the value named here: a plain vector is not determined by its items.
impl<T> FromSpecImpl<Vec<T>> for std::vec::Vec<T> {
    open spec fn obeys_from_spec() -> bool {
        false
    }

    open spec fn from_spec(v: Vec<T>) -> std::vec::Vec<T> {
        choose|r: std::vec::Vec<T>| r@ == v@
    }
}

impl<T> From<Vec<T>> for std::vec::Vec<T> {
    /// A plain vector of the same items in the same order, allocated for
    /// exactly that many.
    fn from(sv: Vec<T>) -> (v: std::vec::Vec<T>)
        ensures
            v@ == sv@,
    {
        let n = sv.len();
        let Vec { first, mut dynamic } = sv;
        let mut v = std::vec::Vec::with_capacity(n);
        v.push(first);
        v.append(&mut dynamic);
        v
    }
}

/// `from` promises the items of its result, in its own contract, and not
/// the value named here: a queue is not determined by its items.
impl<T> FromSpecImpl<Vec<T>> for VecDeque<T> {
    open spec fn obeys_from_spec() -> bool {
        false
    }

    open spec fn from_spec(v: Vec<T>) -> VecDeque<T> {
        choose|r: VecDeque<T>| r@ == v@
    }
}

impl<T> From<Vec<T>> for VecDeque<T> {
    /// A double-ended queue of the same items in the same order, allocated
    /// for exactly that many.
    fn from(sv: Vec<T>) -> (v: VecDeque<T>)
        ensures
            v@ == sv@,
    {
        let n = sv.len();
        let Vec { first, dynamic } = sv;
        let mut v = VecDeque::with_capacity(n);
        v.push_back(first);
        for item in it: dynamic
            invariant
                v@ == seq![first] + it.seq().take(it.index()),
        {
            v.push_back(item);
        }
        v
    }
}

/// Hands a mutable borrow on, so that a field can be lent out of a vector.
fn reborrow<T>(slot: &mut T) -> (r: &mut T)
    ensures
        *r == *old(slot),
        *final(slot) == *final(r),
    no_unwind
{
    slot
}

/// `std::vec::Vec::capacity`: the number of items that `v` can hold without
/// reallocating. All that is claimed of it is that the items `v` holds now
/// are among them.
#[verifier::external_body]
fn allocated<T>(v: &std::vec::Vec<T>) -> (room: usize)
    ensures
        v@.len() <= room,
{
    v.capacity()
}

/// `std::vec::Vec::reserve_exact`: makes room in `v` for at least
/// `additional` more items and leaves the items of `v` as they are. It panics
/// when the number of items to make room for does not fit in `usize` or
/// takes more than `isize::MAX` bytes, which the precondition rules out.
#[verifier::external_body]
fn reserve_exactly<T>(v: &mut std::vec::Vec<T>, additional: usize)
    requires
        old(v)@.len() + additional <= usize::MAX,
        (old(v)@.len() + additional) * size_of::<T>() <= isize::MAX,
    ensures
        final(v)@ == old(v)@,
{
    v.reserve_exact(additional)
}

} // verus!
