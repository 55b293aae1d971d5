//! Bounded write-back of human-readable error text into a caller-registered
//! memory region of fixed capacity. Every write is zero-terminated and never
//! exceeds `CURL_ERROR_SIZE - 1` payload bytes; truncation is byte-based and
//! silent. With no region registered, writing degrades to a no-op that still
//! hands the result code back unchanged.

use vstd::prelude::*;

use crate::codes::CURL_ERROR_SIZE;

verus! {

/// The region contents after writing `msg` into `region`: the message,
/// truncated to leave room for one terminating zero byte, then the zero byte,
/// then whatever the region held beyond the terminator.
pub open spec fn written_bytes(region: Seq<u8>, msg: Seq<u8>) -> Seq<u8> {
    let n = if msg.len() < region.len() - 1 {
        msg.len() as int
    } else {
        region.len() - 1
    };
    msg.take(n) + seq![0u8] + region.skip(n + 1)
}

pub struct ErrorBuffer {
    target: Option<Vec<u8>>,
}

impl ErrorBuffer {
    /// The registered region, if any, as a byte sequence.
    pub closed spec fn spec_target(&self) -> Option<Seq<u8>> {
        match self.target {
            Some(region) => Some(region@),
            None => None,
        }
    }

    /// Whether a caller region is registered.
    pub open spec fn registered(&self) -> bool {
        self.spec_target() is Some
    }

    /// A registered region always has the fixed protocol capacity.
    pub open spec fn wf(&self) -> bool {
        self.spec_target() is Some ==> self.spec_target()->0.len() == CURL_ERROR_SIZE
    }

    pub fn new() -> (r: Self)
        ensures
            !r.registered(),
            r.wf(),
    {
        Self { target: None }
    }

    /// Registers (or, with `None`, clears) the caller's error region. The
    /// region is the caller-owned buffer of the fixed protocol capacity.
    pub fn set_buffer(&mut self, region: Option<Vec<u8>>)
        requires
            region is Some ==> region->0@.len() == CURL_ERROR_SIZE,
        ensures
            final(self).wf(),
            final(self).spec_target() == match region {
                Some(r) => Some(r@),
                None => None::<Seq<u8>>,
            },
    {
        self.target = region;
    }

    /// A read-back view of the registered region, for the region's owner.
    pub fn buffer_bytes(&self) -> (r: Option<&Vec<u8>>)
        ensures
            r is Some <==> self.registered(),
            r is Some ==> r->0@ == self.spec_target()->0,
    {
        self.target.as_ref()
    }

    /// Writes `message` into the registered region, truncating byte-wise so
    /// that the write never passes the region's capacity and always ends with
    /// a zero byte; with no region registered this changes nothing. Either
    /// way the result code is handed back unchanged.
    pub fn set_error(&mut self, code: u32, message: &[u8]) -> (r: u32)
        requires
            old(self).wf(),
        ensures
            r == code,
            final(self).wf(),
            !old(self).registered() ==> *final(self) == *old(self),
            old(self).registered() ==> final(self).spec_target() == Some(
                written_bytes(old(self).spec_target()->0, message@),
            ),
    {
        match &mut self.target {
            None => code,
            Some(region) => {
                let ghost orig: Seq<u8> = region@;
                let cap = region.len();
                let n = if message.len() < cap - 1 {
                    message.len()
                } else {
                    cap - 1
                };
                let mut i: usize = 0;
                while i < n
                    invariant
                        i <= n,
                        n < cap,
                        n <= message@.len(),
                        region@.len() == cap,
                        orig.len() == cap,
                        forall|j: int| 0 <= j < i ==> region@[j] == message@[j],
                        forall|j: int| i <= j < cap ==> region@[j] == orig[j],
                    decreases n - i,
                {
                    let b = message[i];
                    region[i] = b;
                    i += 1;
                }
                region[n] = 0;
                proof {
                    assert(region@ =~= written_bytes(orig, message@));
                }
                code
            },
        }
    }
}

/// Law: a write into the fixed-capacity region never passes the capacity.
/// A message longer than `CURL_ERROR_SIZE - 1` bytes is cut to exactly
/// `CURL_ERROR_SIZE - 1` payload bytes followed by the zero terminator; a
/// shorter message is written whole, terminated, and leaves the bytes beyond
/// the terminator as they were. The region's length does not change.
pub proof fn lemma_set_error_truncates(region: Seq<u8>, msg: Seq<u8>)
    requires
        region.len() == CURL_ERROR_SIZE,
    ensures
        written_bytes(region, msg).len() == CURL_ERROR_SIZE,
        msg.len() >= CURL_ERROR_SIZE - 1 ==> written_bytes(region, msg) == msg.take(
            CURL_ERROR_SIZE - 1,
        ) + seq![0u8],
        msg.len() < CURL_ERROR_SIZE - 1 ==> written_bytes(region, msg) == msg + seq![0u8]
            + region.skip(msg.len() as int + 1),
{
    if msg.len() >= CURL_ERROR_SIZE - 1 {
        assert(written_bytes(region, msg) =~= msg.take(CURL_ERROR_SIZE - 1) + seq![0u8]);
    } else {
        assert(written_bytes(region, msg) =~= msg + seq![0u8] + region.skip(msg.len() as int + 1));
    }
}

} // verus!
