use std::marker::PhantomData;
use vstd::prelude::*;

verus! {

/// A stable, typed index into an [`Assets`] table.
///
/// A handle does not own the asset: it only names the slot that `push`
/// assigned. Slots are dense and never reused.
#[derive(Debug, PartialEq, Eq)]
pub struct Handle<T> {
    pub idx: usize,
    pub marker: PhantomData<T>,
}

impl<T> Handle<T> {
    /// The handle of slot `idx`.
    pub fn new(idx: usize) -> (h: Self)
        ensures
            h.idx == idx,
    {
        Handle { idx, marker: PhantomData }
    }
}

impl<T> Clone for Handle<T> {
    fn clone(&self) -> (h: Self)
        ensures
            h.idx == self.idx,
    {
        Handle { idx: self.idx, marker: PhantomData }
    }
}

impl<T> Copy for Handle<T> {
}

/// An append-only table of assets of one type.
pub struct Assets<T> {
    items: Vec<T>,
}

impl<T> View for Assets<T> {
    type V = Seq<T>;

    closed spec fn view(&self) -> Seq<T> {
        self.items@
    }
}

impl<T> Assets<T> {
    /// An empty table.
    pub fn new() -> (a: Self)
        ensures
            a@ == Seq::<T>::empty(),
    {
        Assets { items: Vec::new() }
    }

    /// Number of assets stored so far.
    pub fn len(&self) -> (n: usize)
        ensures
            n == self@.len(),
    {
        self.items.len()
    }

    /// Appends `item` and returns the handle of its slot, which is the
    /// number of assets that were stored before.
    pub fn push(&mut self, item: T) -> (h: Handle<T>)
        ensures
            h.idx == old(self)@.len(),
            final(self)@ == old(self)@.push(item),
    {
        let idx = self.items.len();
        self.items.push(item);
        Handle { idx, marker: PhantomData }
    }

    /// The asset in the slot of `handle`, or `None` if no such slot exists.
    pub fn get(&self, handle: Handle<T>) -> (r: Option<&T>)
        ensures
            handle.idx < self@.len() ==> r == Some(&self@[handle.idx as int]),
            handle.idx >= self@.len() ==> r.is_none(),
    {
        if handle.idx < self.items.len() {
            Some(&self.items[handle.idx])
        } else {
            None
        }
    }
}

} // verus!
