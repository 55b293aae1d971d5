//! A table of live objects addressed by raw integer tokens: the safe stand-in
//! for handing heap pointers across an untyped boundary. A token is the index
//! of a slot; slots are never reused, so a token stays unambiguous for the
//! table's whole life, and a destroyed object leaves an empty slot behind
//! that turns every later access into an absent result.

use vstd::prelude::*;

verus! {

/// Viewing contract over a possibly-dead token: an access yields an absent
/// result instead of reaching into freed memory.
pub trait BorrowRaw<T> {
    spec fn raw_view(&self) -> Seq<Option<T>>;

    fn borrow_raw(&self, tok: usize) -> (r: Option<&T>)
        ensures
            r is Some <==> (tok < self.raw_view().len() && self.raw_view()[tok as int] is Some),
            r is Some ==> Some(*r->0) == self.raw_view()[tok as int],
    ;
}

/// Exclusive access over a possibly-dead token, as a take / restore pair: the
/// object is moved out, worked on, and put back under the same token.
pub trait BorrowRawMut<T>: BorrowRaw<T> {
    fn take_raw(&mut self, tok: usize) -> (r: Option<T>)
        ensures
            tok >= old(self).raw_view().len() ==> r is None && final(self).raw_view() == old(self).raw_view(),
            tok < old(self).raw_view().len() ==> r == old(self).raw_view()[tok as int]
                && final(self).raw_view() == old(self).raw_view().update(tok as int, None::<T>),
    ;

    fn restore_raw(&mut self, tok: usize, value: T)
        requires
            tok < old(self).raw_view().len(),
        ensures
            final(self).raw_view() == old(self).raw_view().update(tok as int, Some(value)),
    ;
}

pub struct Handle<T> {
    slots: Vec<Option<T>>,
}

impl<T> View for Handle<T> {
    type V = Seq<Option<T>>;

    closed spec fn view(&self) -> Seq<Option<T>> {
        self.slots@
    }
}

impl<T> Handle<T> {
    /// A table holding nothing yet.
    pub fn empty() -> (r: Self)
        ensures
            r@.len() == 0,
    {
        Self { slots: Vec::new() }
    }

    /// A table seeded with its first live object; that object's token is 0.
    pub fn new(value: T) -> (r: Self)
        ensures
            r@ == seq![Some(value)],
    {
        let mut slots: Vec<Option<T>> = Vec::new();
        slots.push(Some(value));
        proof {
            assert(slots@ =~= seq![Some(value)]);
        }
        Self { slots }
    }

    /// Hands an object to the table and yields the raw token that stands for
    /// it at the boundary.
    pub fn into_raw(&mut self, value: T) -> (tok: usize)
        ensures
            tok == old(self)@.len(),
            final(self)@ == old(self)@.push(Some(value)),
    {
        let tok = self.slots.len();
        self.slots.push(Some(value));
        tok
    }

    /// Takes the object back from the table, emptying its slot for good; an
    /// unknown or already-emptied token yields nothing and changes nothing.
    pub fn from_raw(&mut self, tok: usize) -> (r: Option<T>)
        ensures
            tok >= old(self)@.len() ==> r is None && final(self)@ == old(self)@,
            tok < old(self)@.len() ==> r == old(self)@[tok as int]
                && final(self)@ == old(self)@.update(tok as int, None::<T>),
    {
        if tok < self.slots.len() {
            self.slots[tok].take()
        } else {
            None
        }
    }

    /// Whether the token names a live object.
    pub fn is_live(&self, tok: usize) -> (b: bool)
        ensures
            b == (tok < self@.len() && self@[tok as int] is Some),
    {
        tok < self.slots.len() && self.slots[tok].is_some()
    }

    /// The number of tokens ever handed out.
    pub fn token_count(&self) -> (n: usize)
        ensures
            n == self@.len(),
    {
        self.slots.len()
    }
}

impl<T> BorrowRaw<T> for Handle<T> {
    open spec fn raw_view(&self) -> Seq<Option<T>> {
        self@
    }

    fn borrow_raw(&self, tok: usize) -> (r: Option<&T>) {
        if tok < self.slots.len() {
            self.slots[tok].as_ref()
        } else {
            None
        }
    }
}

impl<T> BorrowRawMut<T> for Handle<T> {
    fn take_raw(&mut self, tok: usize) -> (r: Option<T>) {
        if tok < self.slots.len() {
            self.slots[tok].take()
        } else {
            None
        }
    }

    fn restore_raw(&mut self, tok: usize, value: T) {
        self.slots[tok] = Some(value);
    }
}

} // verus!
