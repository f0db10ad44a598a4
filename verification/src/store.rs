use vstd::prelude::*;

verus! {

/// An arena-style asset registry: assets live in insertion order and are
/// referenced by lightweight handles (indices into the arena). Nothing is
/// ever removed, so a handle stays valid for the registry's whole life.
pub struct Store<T> {
    pub entries: Vec<T>,
}

impl<T> Store<T> {
    /// An empty registry.
    pub fn new() -> (s: Store<T>)
        ensures
            s.entries@ == Seq::<T>::empty(),
    {
        Store { entries: Vec::new() }
    }

    /// Registers `item` and returns its handle.
    pub fn add(&mut self, item: T) -> (handle: usize)
        ensures
            final(self).entries@ == old(self).entries@.push(item),
            handle == old(self).entries@.len(),
    {
        let handle = self.entries.len();
        self.entries.push(item);
        handle
    }

    /// Resolves a handle to the asset it references.
    pub fn get(&self, handle: usize) -> (item: &T)
        requires
            handle < self.entries@.len(),
        ensures
            *item == self.entries@[handle as int],
    {
        &self.entries[handle]
    }

    /// Replaces the asset behind `handle` wholesale: one assignment of the
    /// complete new value, atomic from the caller's point of view.
    pub fn replace(&mut self, handle: usize, item: T)
        requires
            handle < old(self).entries@.len(),
        ensures
            final(self).entries@ == old(self).entries@.update(handle as int, item),
    {
        self.entries[handle] = item;
    }

    /// Number of assets registered so far.
    pub fn len(&self) -> (n: usize)
        ensures
            n == self.entries@.len(),
    {
        self.entries.len()
    }
}

} // verus!
