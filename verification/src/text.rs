//! Byte-text helpers: UTF-8 validity at the untyped boundary, ASCII
//! case-insensitive comparison of header names, ASCII whitespace trimming of
//! header values, and the scan for a zero terminator in a byte payload.

use vstd::prelude::*;

verus! {

/// Relies on core::str::from_utf8: it accepts a byte slice exactly when the
/// bytes are valid UTF-8, which vstd's `valid_utf8` states in full.
#[verifier::external_body]
pub fn utf8_is_valid(bytes: &[u8]) -> (r: bool)
    ensures
        r == vstd::utf8::valid_utf8(bytes@),
{
    core::str::from_utf8(bytes).is_ok()
}

/// A possibly-absent byte vector, as its byte sequence.
pub open spec fn opt_bytes(o: Option<Vec<u8>>) -> Option<Seq<u8>> {
    match o {
        Some(v) => Some(v@),
        None => None,
    }
}

/// An owned copy of a byte vector.
pub fn clone_bytes(v: &Vec<u8>) -> (r: Vec<u8>)
    ensures
        r@ == v@,
{
    let mut out: Vec<u8> = Vec::new();
    let mut i: usize = 0;
    while i < v.len()
        invariant
            i <= v@.len(),
            out@ == v@.take(i as int),
        decreases v@.len() - i,
    {
        out.push(v[i]);
        i += 1;
        proof {
            assert(out@ =~= v@.take(i as int));
        }
    }
    proof {
        assert(out@ =~= v@);
    }
    out
}

/// An ASCII letter folded to lower case; every other byte unchanged.
pub open spec fn ascii_lower(b: u8) -> u8 {
    if 65 <= b <= 90 {
        (b + 32) as u8
    } else {
        b
    }
}

pub open spec fn lower_seq(s: Seq<u8>) -> Seq<u8> {
    s.map_values(|b: u8| ascii_lower(b))
}

/// Whether two byte strings agree up to ASCII letter case.
pub fn ascii_ci_equal(a: &[u8], b: &[u8]) -> (r: bool)
    ensures
        r == (lower_seq(a@) == lower_seq(b@)),
{
    if a.len() != b.len() {
        proof {
            assert(lower_seq(a@).len() != lower_seq(b@).len());
        }
        return false;
    }
    let mut i: usize = 0;
    while i < a.len()
        invariant
            i <= a@.len(),
            a@.len() == b@.len(),
            forall|j: int| 0 <= j < i ==> ascii_lower(a@[j]) == ascii_lower(b@[j]),
        decreases a@.len() - i,
    {
        let x = a[i];
        let y = b[i];
        let xl = if 65 <= x && x <= 90 {
            x + 32
        } else {
            x
        };
        let yl = if 65 <= y && y <= 90 {
            y + 32
        } else {
            y
        };
        if xl != yl {
            proof {
                assert(lower_seq(a@)[i as int] != lower_seq(b@)[i as int]);
            }
            return false;
        }
        i += 1;
    }
    proof {
        assert(lower_seq(a@) =~= lower_seq(b@));
    }
    true
}

/// ASCII whitespace, as the usual trim understands it.
pub open spec fn is_ascii_ws(b: u8) -> bool {
    b == 32 || (9 <= b <= 13)
}

fn is_ws_byte(b: u8) -> (r: bool)
    ensures
        r == is_ascii_ws(b),
{
    b == 32 || (9 <= b && b <= 13)
}

/// The sequence with its leading ASCII whitespace removed.
pub open spec fn skip_ws_front(s: Seq<u8>) -> Seq<u8>
    decreases s.len(),
{
    if s.len() > 0 && is_ascii_ws(s[0]) {
        skip_ws_front(s.drop_first())
    } else {
        s
    }
}

/// The sequence with its trailing ASCII whitespace removed.
pub open spec fn skip_ws_back(s: Seq<u8>) -> Seq<u8>
    decreases s.len(),
{
    if s.len() > 0 && is_ascii_ws(s.last()) {
        skip_ws_back(s.drop_last())
    } else {
        s
    }
}

/// The sequence with ASCII whitespace removed from both ends.
pub open spec fn ascii_trim(s: Seq<u8>) -> Seq<u8> {
    skip_ws_back(skip_ws_front(s))
}

proof fn lemma_skip_ws_front_is(s: Seq<u8>, lo: int)
    requires
        0 <= lo <= s.len(),
        forall|j: int| 0 <= j < lo ==> is_ascii_ws(s[j]),
        lo < s.len() ==> !is_ascii_ws(s[lo]),
    ensures
        skip_ws_front(s) == s.skip(lo),
    decreases lo,
{
    if lo == 0 {
        assert(s.skip(0) =~= s);
    } else {
        lemma_skip_ws_front_is(s.drop_first(), lo - 1);
        assert(s.drop_first().skip(lo - 1) =~= s.skip(lo));
    }
}

proof fn lemma_skip_ws_back_is(s: Seq<u8>, hi: int)
    requires
        0 <= hi <= s.len(),
        forall|j: int| hi <= j < s.len() ==> is_ascii_ws(s[j]),
        hi > 0 ==> !is_ascii_ws(s[hi - 1]),
    ensures
        skip_ws_back(s) == s.take(hi),
    decreases s.len() - hi,
{
    if hi == s.len() {
        assert(s.take(hi) =~= s);
    } else {
        lemma_skip_ws_back_is(s.drop_last(), hi);
        assert(s.drop_last().take(hi) =~= s.take(hi));
    }
}

/// A copy of `v` with ASCII whitespace removed from both ends.
pub fn trim_ascii(v: &Vec<u8>) -> (r: Vec<u8>)
    ensures
        r@ == ascii_trim(v@),
{
    let mut lo: usize = 0;
    while lo < v.len() && is_ws_byte(v[lo])
        invariant
            lo <= v@.len(),
            forall|j: int| 0 <= j < lo ==> is_ascii_ws(v@[j]),
        decreases v@.len() - lo,
    {
        lo += 1;
    }
    let mut hi: usize = v.len();
    while hi > lo && is_ws_byte(v[hi - 1])
        invariant
            lo <= hi <= v@.len(),
            forall|j: int| 0 <= j < lo ==> is_ascii_ws(v@[j]),
            forall|j: int| hi <= j < v@.len() ==> is_ascii_ws(v@[j]),
        decreases hi,
    {
        hi -= 1;
    }
    let mut out: Vec<u8> = Vec::new();
    let mut i: usize = lo;
    while i < hi
        invariant
            lo <= i <= hi <= v@.len(),
            out@ == v@.subrange(lo as int, i as int),
        decreases hi - i,
    {
        out.push(v[i]);
        i += 1;
        proof {
            assert(out@ =~= v@.subrange(lo as int, i as int));
        }
    }
    proof {
        if hi == lo {
            if lo == v@.len() {
                lemma_skip_ws_front_is(v@, lo as int);
                assert(v@.skip(lo as int).len() == 0);
                lemma_skip_ws_back_is(v@.skip(lo as int), 0);
                assert(out@ =~= ascii_trim(v@));
            } else {
                // everything from lo on is whitespace, and everything before
                // lo is whitespace, so the first non-whitespace byte does not
                // exist before hi and the trim is empty
                lemma_skip_ws_front_is(v@, v@.len() as int);
                assert(v@.skip(v@.len() as int).len() == 0);
                lemma_skip_ws_back_is(v@.skip(v@.len() as int), 0);
                assert(out@ =~= ascii_trim(v@));
            }
        } else {
            lemma_skip_ws_front_is(v@, lo as int);
            lemma_skip_ws_back_is(v@.skip(lo as int), hi - lo);
            assert(v@.skip(lo as int).take(hi - lo) =~= v@.subrange(lo as int, hi as int));
            assert(out@ =~= ascii_trim(v@));
        }
    }
    out
}

/// How many bytes stand before the first zero terminator; the whole length
/// when no terminator is present.
pub open spec fn terminated_len(s: Seq<u8>) -> int
    decreases s.len(),
{
    if s.len() == 0 {
        0
    } else if s[0] == 0 {
        0
    } else {
        1 + terminated_len(s.drop_first())
    }
}

proof fn lemma_terminated_len_is(s: Seq<u8>, n: int)
    requires
        0 <= n <= s.len(),
        forall|j: int| 0 <= j < n ==> s[j] != 0,
        n < s.len() ==> s[n] == 0,
    ensures
        terminated_len(s) == n,
    decreases n,
{
    if n > 0 {
        lemma_terminated_len_is(s.drop_first(), n - 1);
    }
}

/// The index of the first zero byte, or the length when there is none.
pub fn scan_terminator(v: &Vec<u8>) -> (n: usize)
    ensures
        n == terminated_len(v@),
        n <= v@.len(),
{
    let mut i: usize = 0;
    while i < v.len() && v[i] != 0
        invariant
            i <= v@.len(),
            forall|j: int| 0 <= j < i ==> v@[j] != 0,
        decreases v@.len() - i,
    {
        i += 1;
    }
    proof {
        lemma_terminated_len_is(v@, i as int);
    }
    i
}

} // verus!
