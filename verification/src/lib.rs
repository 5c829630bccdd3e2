//! A growable stack whose top element is reached through scoped handles.
//!
//! A [`BBStackBase`] owns a contiguous, growable sequence of elements. Every
//! push hands back a [`BBStackElement`]: a handle standing for the slot it
//! created, tagged with its depth (the store length just before the push).
//! Holding the innermost handle, a caller can read or mutate the current top,
//! read the whole sequence, or push further, nesting one frame deeper. A
//! handle ends in one of two ways: `pop` takes its value out of the store, or
//! `release` discards it; either way the store shrinks back to exactly the
//! length it had before the handle was created, so one reusable buffer can
//! serve recursive or backtracking algorithms in place of per-call
//! allocation.
//!
//! Handles must be retired in reverse order of creation. `release` checks
//! this at run time: on a handle that is not the innermost one it leaves the
//! store untouched and reports the violation instead of silently corrupting
//! the sequence.

use vstd::prelude::*;

pub mod laws;

verus! {

/// The backing store: an owned, contiguous, growable stack of `T`.
///
/// Its abstract value (`self@`) is the sequence of elements currently on the
/// stack, bottom first.
pub struct BBStackBase<T> {
    stack: Vec<T>,
}

impl<T> View for BBStackBase<T> {
    type V = Seq<T>;

    closed spec fn view(&self) -> Seq<T> {
        self.stack@
    }
}

impl<T> BBStackBase<T> {
    /// An empty store. No space is reserved up front.
    pub fn new() -> (store: BBStackBase<T>)
        ensures
            store@ == Seq::<T>::empty(),
    {
        BBStackBase { stack: Vec::new() }
    }

    /// An empty store with room reserved for `cap` elements, so that no
    /// growth is triggered until that many have been pushed.
    pub fn with_capacity(cap: usize) -> (store: BBStackBase<T>)
        ensures
            store@ == Seq::<T>::empty(),
    {
        BBStackBase { stack: Vec::with_capacity(cap) }
    }

    /// How many elements are currently on the stack.
    pub fn len(&self) -> (n: usize)
        ensures
            n == self@.len(),
    {
        self.stack.len()
    }

    /// A read-only view of every element currently on the stack, bottom
    /// first.
    pub fn as_slice(&self) -> (s: &[T])
        ensures
            s@ == self@,
    {
        self.stack.as_slice()
    }

    /// Appends `item` and returns a handle for the slot it now occupies, at
    /// depth equal to the store's length before the push.
    pub fn push(&mut self, item: T) -> (handle: BBStackElement)
        ensures
            final(self)@ == old(self)@.push(item),
            handle@ == old(self)@.len(),
    {
        let depth: usize = self.stack.len();
        self.stack.push(item);
        BBStackElement { el_index: depth }
    }
}

/// A scoped handle: a temporary accessor for one slot of a [`BBStackBase`],
/// created by a push and tagged with the slot's depth (`self@`).
///
/// While a handle is the innermost one — its slot is the store's top — it can
/// read or mutate the top, read the whole sequence, or push the next nested
/// element. It is retired by `pop`, which takes its value out of the store,
/// or by `release`, which discards it; both consume the handle, so a slot can
/// never be removed twice. Handles must be retired innermost first; `release`
/// verifies this against the store's length and refuses to touch the store
/// when the order was violated.
pub struct BBStackElement {
    el_index: usize,
}

impl View for BBStackElement {
    type V = nat;

    closed spec fn view(&self) -> nat {
        self.el_index as nat
    }
}

impl BBStackElement {
    /// The handle is the innermost live one: its slot is `store`'s top.
    pub open spec fn is_top_of<T>(&self, store: &BBStackBase<T>) -> bool {
        self@ + 1 == store@.len()
    }

    /// The depth this handle stands for: the index of its slot, equal to the
    /// store's length at its creation minus one.
    pub fn depth(&self) -> (d: usize)
        ensures
            d == self@,
    {
        self.el_index
    }

    /// Appends `item` to the same store and returns a handle one level
    /// deeper. This is how nesting grows: each handle can spawn the next.
    pub fn push<T>(&self, store: &mut BBStackBase<T>, item: T) -> (handle: BBStackElement)
        requires
            self.is_top_of(old(store)),
        ensures
            final(store)@ == old(store)@.push(item),
            handle@ == old(store)@.len(),
            handle@ == self@ + 1,
    {
        let depth: usize = store.stack.len();
        store.stack.push(item);
        BBStackElement { el_index: depth }
    }

    /// A reference to the element in this handle's slot, the store's top.
    pub fn top<'a, T>(&self, store: &'a BBStackBase<T>) -> (t: &'a T)
        requires
            self.is_top_of(store),
        ensures
            *t == store@.last(),
            *t == store@[self@ as int],
    {
        let i: usize = store.stack.len() - 1;
        &store.stack[i]
    }

    /// A mutable reference to the element in this handle's slot, the store's
    /// top. The store afterwards holds whatever the caller wrote through the
    /// reference, in that slot, with every other element unchanged.
    pub fn top_mut<'a, T>(&self, store: &'a mut BBStackBase<T>) -> (t: &'a mut T)
        requires
            self.is_top_of(old(store)),
        ensures
            *t == old(store)@.last(),
            final(store)@ == old(store)@.update(self@ as int, *final(t)),
            final(store)@.len() == old(store)@.len(),
    {
        let i: usize = store.stack.len() - 1;
        &mut store.stack[i]
    }

    /// Consumes the handle, removes its element from the store and returns it
    /// by value — exactly what `top` would have returned, mutations through
    /// `top_mut` included. The store shrinks by one element, back to this
    /// handle's depth, and the elements below are untouched.
    pub fn pop<T>(self, store: &mut BBStackBase<T>) -> (item: T)
        requires
            self.is_top_of(old(store)),
        ensures
            item == old(store)@.last(),
            final(store)@ == old(store)@.drop_last(),
            final(store)@.len() == self@,
    {
        store.stack.pop().unwrap()
    }

    /// Consumes the handle and discards its element: the end of the handle's
    /// scope when the value is not wanted. Returns whether the handle was the
    /// innermost one. If it was, its slot — the store's top — is removed and
    /// the store shrinks back to this handle's depth. If it was not, the
    /// release is out of LIFO order: a contract violation, reported by the
    /// `false` result, and the store is left exactly as it was rather than
    /// corrupted.
    pub fn release<T>(self, store: &mut BBStackBase<T>) -> (ok: bool)
        ensures
            ok <==> self@ + 1 == old(store)@.len(),
            ok ==> final(store)@ == old(store)@.drop_last() && final(store)@.len() == self@,
            !ok ==> final(store)@ == old(store)@,
    {
        let n: usize = store.stack.len();
        if n >= 1 && self.el_index == n - 1 {
            let _ = store.stack.pop();
            true
        } else {
            false
        }
    }

    /// A read-only view of the entire current sequence, from the bottom of
    /// the store up to and including this handle's slot — ancestor context
    /// for algorithms that need the whole path, not just the top.
    pub fn as_slice<'a, T>(&self, store: &'a BBStackBase<T>) -> (s: &'a [T])
        requires
            self.is_top_of(store),
        ensures
            s@ == store@,
            s@.len() == self@ + 1,
    {
        store.stack.as_slice()
    }
}

} // verus!
