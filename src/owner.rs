use vstd::prelude::*;

use crate::destroyer::{DefaultDelete, Destroyer};

verus! {

/// The values that an owner holding `held` still has to destroy: the held
/// value if there is one, nothing otherwise.
pub open spec fn held_seq<T>(held: Option<Box<T>>) -> Seq<T> {
    match held {
        Some(b) => seq![*b],
        None => Seq::empty(),
    }
}

/// An owner of at most one boxed value, released through the strategy `D`.
///
/// Exclusivity comes from `Box`: a box has exactly one owner, so no two
/// `UniquePtr`s can hold the same allocation. When an owner goes out of scope
/// without `dispose`, Rust frees the held box as the default strategy would;
/// a custom strategy sees the held value through `reset` and `dispose`.
pub struct UniquePtr<T, D = DefaultDelete<T>> {
    slot: Option<Box<T>>,
    deleter: D,
}

impl<T, D> UniquePtr<T, D> {
    /// The value currently owned, if any.
    pub closed spec fn held(&self) -> Option<Box<T>> {
        self.slot
    }

    /// The installed destruction strategy.
    pub closed spec fn strategy(&self) -> D {
        self.deleter
    }
}

impl<T> UniquePtr<T, DefaultDelete<T>> {
    /// An owner that holds nothing.
    pub fn new() -> (p: Self)
        ensures
            p.held() is None,
            p.strategy().destroyed() == Seq::<T>::empty(),
    {
        UniquePtr { slot: None, deleter: DefaultDelete::new() }
    }

    /// Adopts `ptr` under the default strategy.
    pub fn with_ptr(ptr: Box<T>) -> (p: Self)
        ensures
            p.held() == Some(ptr),
            p.strategy().destroyed() == Seq::<T>::empty(),
    {
        UniquePtr { slot: Some(ptr), deleter: DefaultDelete::new() }
    }

    /// Gives up ownership without destroying anything and hands back the held
    /// box, if any; the caller becomes responsible for it.
    pub fn into_raw(self) -> (r: Option<Box<T>>)
        ensures
            r == self.held(),
    {
        self.slot
    }

    /// Takes ownership of `ptr` (or of nothing) under the default strategy.
    pub fn from_raw(ptr: Option<Box<T>>) -> (p: Self)
        ensures
            p.held() == ptr,
            p.strategy().destroyed() == Seq::<T>::empty(),
    {
        UniquePtr { slot: ptr, deleter: DefaultDelete::new() }
    }
}

impl<T, D: Destroyer<T>> UniquePtr<T, D> {
    /// Everything the installed strategy will have destroyed once this owner
    /// is disposed of: what it destroyed already, then the held value, if any.
    pub open spec fn destroyed_at_exit(&self) -> Seq<T> {
        self.strategy().destroyed() + held_seq(self.held())
    }

    /// Adopts `ptr` under the strategy `deleter`.
    pub fn with_ptr_and_deleter(ptr: Box<T>, deleter: D) -> (p: Self)
        ensures
            p.held() == Some(ptr),
            p.strategy() == deleter,
    {
        UniquePtr { slot: Some(ptr), deleter }
    }

    /// Destroys the held value, if any, through the installed strategy.
    fn destroy_held(&mut self)
        ensures
            final(self).held() is None,
            final(self).strategy().destroyed() == old(self).destroyed_at_exit(),
    {
        match self.slot.take() {
            Some(value) => {
                self.deleter.destroy(value);
            },
            None => {
                assert(held_seq(old(self).held()) =~= Seq::<T>::empty());
            },
        }
    }

    /// Destroys the held value, if any, through the current strategy, then
    /// owns `ptr` instead.
    pub fn reset(&mut self, ptr: Option<Box<T>>)
        ensures
            final(self).held() == ptr,
            final(self).strategy().destroyed() == old(self).destroyed_at_exit(),
    {
        self.destroy_held();
        self.slot = ptr;
    }

    /// Empties the owner and hands back what it held, without destroying it.
    pub fn release(&mut self) -> (r: Option<Box<T>>)
        ensures
            r == old(self).held(),
            final(self).held() is None,
            final(self).strategy() == old(self).strategy(),
    {
        self.slot.take()
    }

    /// Exchanges the held values and the strategies of two owners.
    pub fn swap(&mut self, other: &mut Self)
        ensures
            final(self).held() == old(other).held(),
            final(self).strategy() == old(other).strategy(),
            final(other).held() == old(self).held(),
            final(other).strategy() == old(self).strategy(),
    {
        std::mem::swap(&mut self.slot, &mut other.slot);
        std::mem::swap(&mut self.deleter, &mut other.deleter);
    }

    /// Read access to the held value, if any; ownership stays here.
    pub fn get(&self) -> (r: Option<&T>)
        ensures
            r is Some <==> self.held() is Some,
            r is Some ==> *r.unwrap() == *self.held().unwrap(),
    {
        match &self.slot {
            Some(b) => Some(&**b),
            None => None,
        }
    }

    /// Write access to the held value, if any; ownership stays here, and the
    /// strategy is left as it is.
    pub fn get_mut(&mut self) -> (r: Option<&mut T>)
        ensures
            r is Some <==> old(self).held() is Some,
            r is Some ==> *r.unwrap() == *old(self).held().unwrap() && final(self).held() == Some(
                Box::new(*final(r.unwrap())),
            ),
            r is None ==> final(self).held() is None,
            final(self).strategy() == old(self).strategy(),
    {
        match &mut self.slot {
            Some(b) => Some(&mut **b),
            None => None,
        }
    }

    /// Read access to the installed strategy.
    pub fn get_deleter(&self) -> (r: &D)
        ensures
            *r == self.strategy(),
    {
        &self.deleter
    }

    /// Ends the owner: the held value, if any, is destroyed exactly once
    /// through the installed strategy, which is handed back.
    pub fn dispose(self) -> (d: D)
        ensures
            d.destroyed() == self.destroyed_at_exit(),
    {
        let mut this = self;
        this.destroy_held();
        this.deleter
    }
}

/// Unwraps an owner into the box it held, without running its strategy.
impl<T, D> From<UniquePtr<T, D>> for Option<Box<T>> {
    fn from(ptr: UniquePtr<T, D>) -> (r: Option<Box<T>>)
        ensures
            r == ptr.held(),
    {
        ptr.slot
    }
}

impl<T, D> vstd::std_specs::convert::FromSpecImpl<UniquePtr<T, D>> for Option<Box<T>> {
    open spec fn obeys_from_spec() -> bool {
        true
    }

    open spec fn from_spec(v: UniquePtr<T, D>) -> Self {
        v.held()
    }
}

} // verus!
