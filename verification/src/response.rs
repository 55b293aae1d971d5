//! The plain-value picture of what the HTTP client capability handed back:
//! either a transport failure with its error text, or a response with status,
//! final URL, declared length, header fields and body chunks. Header lines
//! are synthesized here in the exact wire form, and the file-modification
//! header is found and parsed here.

use vstd::prelude::*;

use crate::text::ascii_ci_equal;
use crate::text::ascii_trim;
use crate::text::clone_bytes;
use crate::text::lower_seq;
use crate::text::trim_ascii;

verus! {

/// One response header field, as the client capability exposes it.
pub struct HeaderField {
    pub name: Vec<u8>,
    pub value: Vec<u8>,
}

/// A completed HTTP exchange, as plain values.
pub struct ResponseData {
    /// The HTTP status code.
    pub status: u16,
    /// The resolved URL after any redirects were followed.
    pub final_url: Vec<u8>,
    /// The download size the peer declared, if it declared one.
    pub content_length: Option<u64>,
    /// The response header fields, in wire order.
    pub headers: Vec<HeaderField>,
    /// The response body, as the chunks in which it was read.
    pub body: Vec<Vec<u8>>,
}

/// What one send attempt came to: a transport-level failure (DNS, connection,
/// timeout) with its error text, or a completed exchange.
pub enum ExchangeOutcome {
    Failed(Vec<u8>),
    Completed(ResponseData),
}

/// The exact wire form of one forwarded header line:
/// `<Field-Name>: <value>\r\n`.
pub open spec fn header_line_of(name: Seq<u8>, value: Seq<u8>) -> Seq<u8> {
    name + seq![58u8, 32u8] + value + seq![13u8, 10u8]
}

/// Synthesizes the forwarded line for one header field.
pub fn synthesize_header_line(field: &HeaderField) -> (r: Vec<u8>)
    ensures
        r@ == header_line_of(field.name@, field.value@),
{
    let mut line = clone_bytes(&field.name);
    line.push(58);
    line.push(32);
    let mut i: usize = 0;
    while i < field.value.len()
        invariant
            i <= field.value@.len(),
            line@ == field.name@ + seq![58u8, 32u8] + field.value@.take(i as int),
        decreases field.value@.len() - i,
    {
        line.push(field.value[i]);
        i += 1;
        proof {
            assert(line@ =~= field.name@ + seq![58u8, 32u8] + field.value@.take(i as int));
        }
    }
    line.push(13);
    line.push(10);
    proof {
        assert(line@ =~= header_line_of(field.name@, field.value@));
    }
    line
}

/// The timestamp that parsing a byte string as an RFC-2822 date comes to.
/// The result is a function of the bytes alone.
pub uninterp spec fn rfc2822_timestamp(s: Seq<u8>) -> Option<i64>;

/// Relies on chrono's DateTime::parse_from_rfc2822 and DateTime::timestamp:
/// parsing accepts or rejects on the characters alone, and the timestamp is
/// computed from the parsed date alone, so the result depends on nothing but
/// the bytes. Bytes that are not valid UTF-8 cannot parse and yield nothing.
#[verifier::external_body]
fn parse_rfc2822_timestamp(bytes: &Vec<u8>) -> (r: Option<i64>)
    ensures
        r == rfc2822_timestamp(bytes@),
{
    match core::str::from_utf8(bytes.as_slice()) {
        Ok(s) => match chrono::DateTime::parse_from_rfc2822(s) {
            Ok(d) => Some(d.timestamp()),
            Err(_) => None,
        },
        Err(_) => None,
    }
}

/// The lower-cased name of the file-modification header, byte for byte:
/// `last-modified`.
pub open spec fn last_modified_name() -> Seq<u8> {
    seq![108u8, 97u8, 115u8, 116u8, 45u8, 109u8, 111u8, 100u8, 105u8, 102u8, 105u8, 101u8, 100u8]
}

/// Whether this header field is the file-modification header, compared
/// without regard to ASCII letter case.
pub open spec fn is_last_modified(h: HeaderField) -> bool {
    lower_seq(h.name@) == lower_seq(last_modified_name())
}

/// The parsed file-modification time of a response: the first
/// file-modification header, its value trimmed of ASCII whitespace and read
/// as an RFC-2822 date; nothing when the header is absent or unparsable.
pub open spec fn file_time_of(headers: Seq<HeaderField>) -> Option<i64>
    decreases headers.len(),
{
    if headers.len() == 0 {
        None
    } else if is_last_modified(headers[0]) {
        rfc2822_timestamp(ascii_trim(headers[0].value@))
    } else {
        file_time_of(headers.drop_first())
    }
}

proof fn lemma_file_time_skip(headers: Seq<HeaderField>, i: int)
    requires
        0 <= i <= headers.len(),
        forall|j: int| 0 <= j < i ==> !is_last_modified(headers[j]),
    ensures
        file_time_of(headers) == file_time_of(headers.skip(i)),
    decreases i,
{
    if i > 0 {
        lemma_file_time_skip(headers, i - 1);
        assert(headers.skip(i - 1).len() > 0);
        assert(headers.skip(i - 1)[0] == headers[i - 1]);
        assert(!is_last_modified(headers.skip(i - 1)[0]));
        assert(headers.skip(i - 1).drop_first() =~= headers.skip(i));
        assert(file_time_of(headers.skip(i - 1)) == file_time_of(headers.skip(i - 1).drop_first()));
    } else {
        assert(headers.skip(0) =~= headers);
    }
}

/// Finds the file-modification header and parses its value; absent or
/// unparsable values yield nothing rather than failing.
pub fn response_file_time(headers: &Vec<HeaderField>) -> (r: Option<i64>)
    ensures
        r == file_time_of(headers@),
{
    let lm: [u8; 13] = [108, 97, 115, 116, 45, 109, 111, 100, 105, 102, 105, 101, 100];
    proof {
        assert(lm@ =~= last_modified_name());
    }
    let mut i: usize = 0;
    while i < headers.len()
        invariant
            i <= headers@.len(),
            lm@ == last_modified_name(),
            forall|j: int| 0 <= j < i ==> !is_last_modified(headers@[j]),
        decreases headers@.len() - i,
    {
        if ascii_ci_equal(headers[i].name.as_slice(), lm.as_slice()) {
            let trimmed = trim_ascii(&headers[i].value);
            let r = parse_rfc2822_timestamp(&trimmed);
            proof {
                lemma_file_time_skip(headers@, i as int);
                assert(headers@.skip(i as int)[0] == headers@[i as int]);
            }
            return r;
        }
        i += 1;
    }
    proof {
        lemma_file_time_skip(headers@, headers@.len() as int);
        assert(headers@.skip(headers@.len() as int).len() == 0);
    }
    None
}

} // verus!
