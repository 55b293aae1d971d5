//! The string list: an append-only list of UTF-8 byte strings, handed across
//! the boundary by token.

use vstd::prelude::*;

use crate::handle::Handle;

verus! {

/// Every element of a string list is valid UTF-8.
pub open spec fn slist_wf(l: curl_slist) -> bool {
    forall|i: int|
        0 <= i < l.elements@.len() ==> vstd::utf8::valid_utf8(#[trigger] l.elements@[i]@)
}

#[allow(non_camel_case_types)]
pub struct curl_slist {
    pub elements: Vec<Vec<u8>>,
}

impl curl_slist {
    pub fn new() -> (r: Self)
        ensures
            r.elements@.len() == 0,
            slist_wf(r),
    {
        Self { elements: Vec::new() }
    }

    /// Appends one value; the list only ever grows.
    pub fn append(&mut self, value: Vec<u8>)
        requires
            vstd::utf8::valid_utf8(value@),
            slist_wf(*old(self)),
        ensures
            final(self).elements@ == old(self).elements@.push(value),
            slist_wf(*final(self)),
    {
        self.elements.push(value);
    }

    /// Hands the list to the table and yields the token that stands for it
    /// at the boundary.
    pub fn into_raw(self, table: &mut Handle<curl_slist>) -> (tok: usize)
        ensures
            tok == old(table)@.len(),
            final(table)@ == old(table)@.push(Some(self)),
    {
        table.into_raw(self)
    }
}

} // verus!
