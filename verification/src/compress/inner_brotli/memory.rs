//! Memory cells for brotli coders that bring their own allocator.

use vstd::prelude::*;

verus! {

/// A memory cell: a vector that hands out slices.
#[derive(Debug)]
pub struct WrapBox<T>(pub Vec<T>);

impl<T> Default for WrapBox<T> {
    fn default() -> (r: Self)
        ensures
            r.0@ == Seq::<T>::empty(),
    {
        WrapBox(Vec::new())
    }
}

impl<T> WrapBox<T> {
    /// The items of the cell.
    pub fn slice(&self) -> (r: &[T])
        ensures
            r@ == self.0@,
    {
        self.0.as_slice()
    }

    /// The items of the cell, to be written through.
    pub fn slice_mut(&mut self) -> (r: &mut [T])
        ensures
            r@ == old(self).0@,
            final(self).0@ == final(r)@,
    {
        self.0.as_mut_slice()
    }
}

/// An allocator on the heap.
#[derive(Debug, Clone, Copy)]
pub struct DefaultAlloc;

impl Default for DefaultAlloc {
    fn default() -> (r: Self) {
        DefaultAlloc
    }
}

/// Whether `items` are `len` clones of a default value.
pub open spec fn is_default_filled<T: Clone + Default>(items: Seq<T>, len: nat) -> bool {
    &&& items.len() == len
    &&& exists|fill: T|
        #[trigger] call_ensures(T::default, (), fill) && forall|i: int|
            0 <= i < len ==> cloned(fill, #[trigger] items[i])
}

impl DefaultAlloc {
    /// A cell of `len` default values.
    pub fn alloc_cell<T: Clone + Default>(&mut self, len: usize) -> (r: WrapBox<T>)
        ensures
            is_default_filled(r.0@, len as nat),
    {
        let fill: T = T::default();
        WrapBox(vec![fill; len])
    }

    /// Gives a cell back.
    pub fn free_cell<T>(&mut self, _data: WrapBox<T>) {
    }
}

} // verus!
