//! Trivial "box" data structure: a handle that owns exactly one value of a
//! caller-chosen type in a heap slot of its own.
//!
//! A box is made by [`MyBox::new`], read and written through `Deref` and
//! `DerefMut`, and ended either by [`MyBox::into_inner`], which hands the value
//! back to the caller, or by going out of scope, which runs the value's own
//! cleanup and then frees the slot. Both ways consume the box, so neither can
//! follow the other and the slot is released exactly once.
//!
//! The handle is one pointer wide whatever the value's size. The slot is a
//! `Box`, which asks the allocator for nothing where the value has no size:
//! the pointer of such a box is a placeholder that is never read through.

use vstd::prelude::*;

verus! {

/// Simple heap allocation of a single value.
///
/// Like `Box`, this type stores a single `T` on the heap. Its view, written
/// `b@`, is the value it owns.
#[derive(Debug)]
pub struct MyBox<T>(Box<T>);

impl<T> MyBox<T> {
    /// The value that the box owns.
    pub closed spec fn view(&self) -> T {
        *self.0
    }

    /// Place the given `value` on the heap.
    pub fn new(value: T) -> (made: Self)
        ensures
            made@ == value,
    {
        MyBox(Box::new(value))
    }

    /// Remove the value from the heap and return it, releasing the box.
    ///
    /// The value's own cleanup does not run: the value now belongs to the
    /// caller. The box is consumed, so it can be neither used nor released again.
    pub fn into_inner(self) -> (value: T)
        ensures
            value == self@,
    {
        *self.0
    }
}

impl<T> core::ops::Deref for MyBox<T> {
    type Target = T;

    /// Read access to the owned value.
    fn deref(&self) -> (value: &T)
        ensures
            *value == self@,
    {
        &*self.0
    }
}

impl<T> core::ops::DerefMut for MyBox<T> {
    /// Write access to the owned value.
    ///
    /// The reference starts at the owned value, and whatever it holds when the
    /// borrow ends is what the box owns from then on.
    fn deref_mut(&mut self) -> (access: &mut T)
        ensures
            *access == old(self)@,
            final(self)@ == *final(access),
    {
        &mut *self.0
    }
}

impl<T: Clone> Clone for MyBox<T> {
    /// A new box, with a slot of its own, that owns a clone of the owned value.
    fn clone(&self) -> (copy: Self)
        ensures
            cloned::<T>(self@, copy@),
    {
        let value: &T = core::ops::Deref::deref(self);
        MyBox::new(value.clone())
    }
}

/// Round trip: unwrapping a box gives back the value that the box was made
/// from.
pub proof fn lemma_round_trip<T>(value: T, made: MyBox<T>, unwrapped: T)
    requires
        call_ensures(MyBox::<T>::new, (value,), made),
        call_ensures(MyBox::<T>::into_inner, (made,), unwrapped),
    ensures
        unwrapped == value,
{
}

/// Exclusive mutation: once a write through a box has ended, reading the box
/// gives the value that was written last.
pub proof fn lemma_write_then_read<T>(
    target: &mut MyBox<T>,
    access: &mut T,
    written: T,
    read: &T,
)
    requires
        call_ensures(<MyBox<T> as core::ops::DerefMut>::deref_mut, (target,), access),
        *final(access) == written,
        call_ensures(<MyBox<T> as core::ops::Deref>::deref, (&*final(target),), read),
    ensures
        *read == written,
{
}

/// Deep copy: a clone of a box owns a clone of the value, and a write through
/// the clone changes the clone alone. Reading the source after the write
/// gives what reading it before the clone was made gave.
pub proof fn lemma_clone_is_independent<T: Clone>(
    source: MyBox<T>,
    before: &T,
    copy: &mut MyBox<T>,
    access: &mut T,
    written: T,
    after: &T,
)
    requires
        call_ensures(<MyBox<T> as core::ops::Deref>::deref, (&source,), before),
        call_ensures(<MyBox<T> as Clone>::clone, (&source,), *copy),
        call_ensures(<MyBox<T> as core::ops::DerefMut>::deref_mut, (copy,), access),
        *final(access) == written,
        call_ensures(<MyBox<T> as core::ops::Deref>::deref, (&source,), after),
    ensures
        cloned::<T>(*before, *old(access)),
        final(copy)@ == written,
        *after == *before,
{
}

} // verus!
