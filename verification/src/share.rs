//! Key-based sharing of one owned resource with non-owning dependents.
//!
//! A `RootRc` owns a value and carries the identity key under which it was
//! created; a `Weak` holds only a key. A dependent reaches the value by
//! presenting its key together with whatever owner is still around: when the
//! owner is gone, or the keys do not agree, the lookup yields nothing and the
//! dependent degrades to a no-op instead of touching a dead resource.

use vstd::prelude::*;

verus! {

/// The single owner of a shared resource, tagged with its identity key.
pub struct RootRc<T> {
    pub value: T,
    pub key: u64,
}

impl<T> RootRc<T> {
    pub fn new(value: T, key: u64) -> (r: Self)
        ensures
            r.value == value,
            r.key == key,
    {
        Self { value, key }
    }

    /// A non-owning reference to this resource: just its key.
    pub fn weak(&self) -> (w: Weak)
        ensures
            w.key == Some(self.key),
    {
        Weak { key: Some(self.key) }
    }
}

/// A non-owning reference: the key of the resource it once pointed at, or
/// nothing at all. Copying it never copies the resource.
#[derive(Clone, Copy)]
pub struct Weak {
    pub key: Option<u64>,
}

impl Weak {
    pub fn new<T>(root_rc: &RootRc<T>) -> (w: Weak)
        ensures
            w.key == Some(root_rc.key),
    {
        Weak { key: Some(root_rc.key) }
    }

    /// A reference that was never attached to any owner; it never upgrades.
    pub fn empty() -> (w: Weak)
        ensures
            w.key is None,
    {
        Weak { key: None }
    }

    /// Upgrades against a candidate owner: yields the owned value exactly
    /// when an owner is present and carries this reference's key.
    pub fn with_ref<'a, T>(&self, owner: Option<&'a RootRc<T>>) -> (r: Option<&'a T>)
        ensures
            r is Some <==> (self.key is Some && owner is Some && self.key->0 == owner->0.key),
            r is Some ==> *r->0 == owner->0.value,
    {
        match owner {
            Some(root) => match self.key {
                Some(k) => if k == root.key {
                    Some(&root.value)
                } else {
                    None
                },
                None => None,
            },
            None => None,
        }
    }
}

} // verus!
