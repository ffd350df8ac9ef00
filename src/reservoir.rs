use vstd::prelude::*;

use crate::handle::Handle;

verus! {

/// An append-only store that owns its values and hands out a `Handle` for each.
///
/// Its model is the sequence of stored values, in the order of insertion: the
/// value inserted `i`-th sits at position `i` for as long as the store lives.
pub struct Reservoir<T>(Vec<T>);

impl<T> View for Reservoir<T> {
    type V = Seq<T>;

    closed spec fn view(&self) -> Seq<T> {
        self.0@
    }
}

impl<T> Reservoir<T> {
    /// A capacity hint for a few dozen values.
    pub const SMALL_CAPACITY: usize = 64;

    /// A capacity hint for a few hundred values; the one `default` takes.
    pub const MEDIUM_CAPACITY: usize = 256;

    /// A capacity hint for about a thousand values.
    pub const LARGE_CAPACITY: usize = 1024;

    /// Whether `h` names a value of this store.
    pub open spec fn holds(&self, h: Handle<T>) -> bool {
        h@ < self@.len()
    }

    /// An empty store with room set aside for `capacity` values. The capacity
    /// is a hint only: the store grows past it as needed.
    pub fn new(capacity: usize) -> (r: Self)
        ensures
            r@ == Seq::<T>::empty(),
    {
        Reservoir(Vec::with_capacity(capacity))
    }

    /// The value that `handle` names.
    pub fn get(&self, handle: Handle<T>) -> (r: &T)
        requires
            self.holds(handle),
        ensures
            *r == self@[handle@ as int],
    {
        &self.0[handle.index()]
    }

    /// Write access to the value that `handle` names. Whatever the caller
    /// leaves behind the reference becomes the value at that position; the
    /// other positions keep theirs.
    pub fn get_mut(&mut self, handle: Handle<T>) -> (r: &mut T)
        requires
            old(self).holds(handle),
        ensures
            *r == old(self)@[handle@ as int],
            final(self)@ == old(self)@.update(handle@ as int, *final(r)),
    {
        &mut self.0[handle.index()]
    }

    /// Appends `data` as the last value and returns the handle that names it,
    /// which is the number of values held before the call.
    pub fn insert(&mut self, data: T) -> (h: Handle<T>)
        ensures
            final(self)@ == old(self)@.push(data),
            h@ == old(self)@.len(),
            final(self).holds(h),
    {
        self.0.push(data);
        Handle::at(self.0.len() - 1)
    }
}

impl<T: Clone> Clone for Reservoir<T> {
    /// A store of its own that holds a clone of each value, at the same
    /// position, so that every handle names the clone of what it named here.
    fn clone(&self) -> (r: Self)
        ensures
            r@.len() == self@.len(),
            forall|i: int| 0 <= i < self@.len() ==> cloned::<T>(#[trigger] self@[i], r@[i]),
    {
        Reservoir(self.0.clone())
    }
}

impl<T> Default for Reservoir<T> {
    /// An empty store with the medium capacity hint: the same store as
    /// `Reservoir::new(Reservoir::<T>::MEDIUM_CAPACITY)`.
    fn default() -> (r: Self)
        ensures
            r@ == Seq::<T>::empty(),
    {
        Reservoir::new(Self::MEDIUM_CAPACITY)
    }
}

} // verus!
