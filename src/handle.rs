use vstd::prelude::*;

use core::cmp::Ordering;
use core::marker::PhantomData;

verus! {

/// An opaque index into a `Reservoir<T>`.
///
/// The element type `T` is a tag only: no value of `T` is held, and equality,
/// ordering and hashing look at the index alone. The total order (`Ord`) is
/// derived: it compares the index first and then the tag, whose values are
/// all equal, and it asks of `T` to be ordered too.
#[derive(Debug, Ord)]
pub struct Handle<T>(usize, PhantomData<T>);

impl<T> View for Handle<T> {
    type V = nat;

    /// The position that the handle names.
    closed spec fn view(&self) -> nat {
        self.0 as nat
    }
}

impl<T> Handle<T> {
    /// The handle that names position `index`.
    pub(crate) fn at(index: usize) -> (h: Self)
        ensures
            h@ == index as nat,
    {
        Handle(index, PhantomData)
    }

    /// The position that the handle names, for the store that issued it.
    pub(crate) fn index(&self) -> (i: usize)
        ensures
            i as nat == self@,
    {
        self.0
    }
}

impl<T> Clone for Handle<T> {
    fn clone(&self) -> (h: Self)
        ensures
            h@ == self@,
    {
        Handle(self.0, PhantomData)
    }
}

impl<T> Copy for Handle<T> {
}

impl<T> PartialEq for Handle<T> {
    fn eq(&self, other: &Self) -> (r: bool)
        ensures
            r == (self@ == other@),
    {
        self.0 == other.0
    }
}

impl<T> vstd::std_specs::cmp::PartialEqSpecImpl for Handle<T> {
    open spec fn obeys_eq_spec() -> bool {
        true
    }

    open spec fn eq_spec(&self, other: &Self) -> bool {
        self@ == other@
    }
}

impl<T> Eq for Handle<T> {
}

impl<T> PartialOrd for Handle<T> {
    fn partial_cmp(&self, other: &Self) -> (r: Option<Ordering>)
        ensures
            r == Some(order_of(self@, other@)),
    {
        self.0.partial_cmp(&other.0)
    }
}

impl<T> vstd::std_specs::cmp::PartialOrdSpecImpl for Handle<T> {
    open spec fn obeys_partial_cmp_spec() -> bool {
        true
    }

    open spec fn partial_cmp_spec(&self, other: &Self) -> Option<Ordering> {
        Some(order_of(self@, other@))
    }
}

/// A handle hashes as its index does, so that equal handles hash alike.
impl<T> core::hash::Hash for Handle<T> {
    fn hash<H: core::hash::Hasher>(&self, state: &mut H) {
        self.0.hash(state)
    }
}

/// Relies on std's `Hash` impl for `usize`, which feeds the integer to the
/// hasher: it is called on any index and any hasher, and nothing is claimed
/// of the hasher's state afterwards.
pub assume_specification<H: core::hash::Hasher>[ <usize as core::hash::Hash>::hash::<H> ](
    data: &usize,
    state: &mut H,
);

/// How two positions compare.
pub open spec fn order_of(a: nat, b: nat) -> Ordering {
    if a < b {
        Ordering::Less
    } else if a == b {
        Ordering::Equal
    } else {
        Ordering::Greater
    }
}

} // verus!
