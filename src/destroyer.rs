use vstd::prelude::*;

verus! {

/// A destruction strategy: the one operation that releases a value of type `T`.
///
/// `destroyed` is the strategy's model, the values it has released so far, in
/// the order in which it released them.
pub trait Destroyer<T>: Sized {
    spec fn destroyed(&self) -> Seq<T>;

    /// Releases `value`; the model records exactly that one value.
    fn destroy(&mut self, value: Box<T>)
        ensures
            final(self).destroyed() == old(self).destroyed().push(*value),
    ;
}

/// The default strategy: the value is freed by ordinary heap deallocation.
pub struct DefaultDelete<T> {
    log: Ghost<Seq<T>>,
}

impl<T> DefaultDelete<T> {
    /// A fresh strategy that has destroyed nothing yet.
    pub fn new() -> (d: Self)
        ensures
            d.destroyed() == Seq::<T>::empty(),
    {
        DefaultDelete { log: Ghost(Seq::empty()) }
    }
}

impl<T> Default for DefaultDelete<T> {
    fn default() -> (d: Self)
        ensures
            d.destroyed() == Seq::<T>::empty(),
    {
        Self::new()
    }
}

impl<T> Destroyer<T> for DefaultDelete<T> {
    closed spec fn destroyed(&self) -> Seq<T> {
        self.log@
    }

    fn destroy(&mut self, value: Box<T>) {
        self.log = Ghost(self.log@.push(*value));
        // `value` goes out of scope here, which frees its allocation.
    }
}

} // verus!
