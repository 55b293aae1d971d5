//! The typed configuration record of a transfer handle, and the dispatch that
//! decodes one tagged option argument per option identifier and applies it.
//!
//! Every option argument arrives as a tagged value carrying exactly the
//! payload shape its option identifier implies: a possibly-null byte string, a
//! long integer, a function token, an opaque-data token, or an error-buffer
//! region. A function or data token is a caller-chosen number standing for a
//! callback at the boundary; 0 stands for the null / default one.

use vstd::prelude::*;

use crate::codes::CURLE_BAD_FUNCTION_ARGUMENT;
use crate::codes::CURLE_OK;
use crate::codes::CURLE_UNKNOWN_OPTION;
use crate::codes::CURLE_URL_MALFORMAT;
use crate::codes::CURLOPT_CONNECTTIMEOUT;
use crate::codes::CURLOPT_CONNECTTIMEOUT_MS;
use crate::codes::CURLOPT_ERRORBUFFER;
use crate::codes::CURLOPT_FILETIME;
use crate::codes::CURLOPT_FOLLOWLOCATION;
use crate::codes::CURLOPT_HEADERDATA;
use crate::codes::CURLOPT_HEADERFUNCTION;
use crate::codes::CURLOPT_NOPROGRESS;
use crate::codes::CURLOPT_POSTFIELDS;
use crate::codes::CURLOPT_URL;
use crate::codes::CURLOPT_WRITEDATA;
use crate::codes::CURLOPT_WRITEFUNCTION;
use crate::codes::CURLOPT_XFERINFODATA;
use crate::codes::CURLOPT_XFERINFOFUNCTION;
use crate::codes::CURL_ERROR_SIZE;
use crate::error::written_bytes;
use crate::error::ErrorBuffer;
use crate::text::utf8_is_valid;

verus! {

/// The seconds-granularity connect timeout restored by a zero value.
pub const DEFAULT_CONNECT_TIMEOUT_SECS: u64 = 300;

/// The HTTP method of the next transfer.
#[derive(Clone, Copy, PartialEq, Eq, Structural, Debug)]
pub enum Method {
    Get,
    Post,
}

/// The header-callback state. A header callback that was never touched is
/// distinct from one the caller explicitly set to the null function pointer:
/// only for the former may the body-write callback stand in (when header user
/// data is registered); the latter disables header forwarding outright, even
/// with user data registered.
#[derive(Clone, Copy, PartialEq, Eq, Structural, Debug)]
pub enum HeaderCallback {
    /// Never set by the caller; the fallback may apply.
    Unset,
    /// Explicitly set to the null function pointer: forwarding is off.
    Null,
    /// Explicitly set to this function token.
    Func(u64),
}

/// A connect timeout at the granularity under which it was configured.
#[derive(Clone, Copy, PartialEq, Eq, Structural, Debug)]
pub enum Timeout {
    Seconds(u64),
    Millis(u64),
}

/// One tagged option argument: exactly the payload shape the option
/// identifier implies.
pub enum OptArg {
    /// A possibly-null zero-terminated string argument, as its bytes without
    /// the terminator; `None` is the null pointer.
    Str(Option<Vec<u8>>),
    /// A long integer argument.
    Long(i64),
    /// A function token; 0 stands for the null function pointer.
    Func(u64),
    /// An opaque user-data token; 0 stands for the null pointer.
    Data(u64),
    /// The caller's error-buffer region, of the fixed protocol capacity, or
    /// `None` to unregister it.
    Buf(Option<Vec<u8>>),
}

/// The configuration record one handle owns.
pub struct Options {
    /// The target URL; always valid UTF-8 once set.
    pub url: Option<Vec<u8>>,
    pub follow_location: bool,
    pub post_fields: Option<Vec<u8>>,
    pub method: Method,
    pub connect_timeout: Option<Timeout>,
    pub file_time: bool,
    pub no_progress: bool,
    pub write_function: u64,
    pub write_data: u64,
    pub header_function: HeaderCallback,
    pub header_data: u64,
    pub xfer_info_function: u64,
    pub xfer_info_data: u64,
}

/// The factory defaults every new or reset handle starts from.
pub open spec fn default_options() -> Options {
    Options {
        url: None,
        follow_location: false,
        post_fields: None,
        method: Method::Get,
        connect_timeout: Some(Timeout::Seconds(DEFAULT_CONNECT_TIMEOUT_SECS as u64)),
        file_time: false,
        no_progress: true,
        write_function: 0,
        write_data: 0,
        header_function: HeaderCallback::Unset,
        header_data: 0,
        xfer_info_function: 0,
        xfer_info_data: 0,
    }
}

/// A configured URL is always valid UTF-8.
pub open spec fn options_wf(s: Options) -> bool {
    s.url is Some ==> vstd::utf8::valid_utf8(s.url->0@)
}

impl Options {
    pub fn new() -> (r: Self)
        ensures
            r == default_options(),
    {
        Self {
            url: None,
            follow_location: false,
            post_fields: None,
            method: Method::Get,
            connect_timeout: Some(Timeout::Seconds(DEFAULT_CONNECT_TIMEOUT_SECS)),
            file_time: false,
            no_progress: true,
            write_function: 0,
            write_data: 0,
            header_function: HeaderCallback::Unset,
            header_data: 0,
            xfer_info_function: 0,
            xfer_info_data: 0,
        }
    }
}

/// A long read as an unsigned value, as the underlying long-to-unsigned
/// conversion does: a negative value wraps to its two's-complement reading.
pub open spec fn long_as_u64(v: i64) -> u64 {
    if v >= 0 {
        v as u64
    } else {
        (v + 0x10000000000000000) as u64
    }
}

fn to_u64_wrapping(v: i64) -> (r: u64)
    ensures
        r == long_as_u64(v),
{
    if v >= 0 {
        v as u64
    } else {
        ((v as i128) + 0x10000000000000000i128) as u64
    }
}

/// Whether the option setter recognizes this option identifier.
pub open spec fn recognized_option(option: u64) -> bool {
    ||| option == CURLOPT_URL
    ||| option == CURLOPT_FOLLOWLOCATION
    ||| option == CURLOPT_POSTFIELDS
    ||| option == CURLOPT_ERRORBUFFER
    ||| option == CURLOPT_CONNECTTIMEOUT
    ||| option == CURLOPT_CONNECTTIMEOUT_MS
    ||| option == CURLOPT_FILETIME
    ||| option == CURLOPT_NOPROGRESS
    ||| option == CURLOPT_WRITEFUNCTION
    ||| option == CURLOPT_WRITEDATA
    ||| option == CURLOPT_HEADERFUNCTION
    ||| option == CURLOPT_HEADERDATA
    ||| option == CURLOPT_XFERINFOFUNCTION
    ||| option == CURLOPT_XFERINFODATA
}

/// The store and result code after one option application. An unknown
/// identifier, and a recognized identifier whose argument cannot be decoded,
/// leave the store unchanged.
pub open spec fn setopt_spec(s: Options, option: u64, arg: OptArg) -> (Options, u32) {
    if option == CURLOPT_URL {
        match arg {
            OptArg::Str(None) => (Options { url: None, ..s }, CURLE_OK),
            OptArg::Str(Some(b)) => if vstd::utf8::valid_utf8(b@) {
                (Options { url: Some(b), ..s }, CURLE_OK)
            } else {
                (s, CURLE_URL_MALFORMAT)
            },
            _ => (s, CURLE_BAD_FUNCTION_ARGUMENT),
        }
    } else if option == CURLOPT_FOLLOWLOCATION {
        match arg {
            OptArg::Long(v) => (Options { follow_location: v == 1, ..s }, CURLE_OK),
            _ => (s, CURLE_BAD_FUNCTION_ARGUMENT),
        }
    } else if option == CURLOPT_POSTFIELDS {
        match arg {
            OptArg::Str(b) => (
                Options { method: Method::Post, post_fields: b, ..s },
                CURLE_OK,
            ),
            _ => (s, CURLE_BAD_FUNCTION_ARGUMENT),
        }
    } else if option == CURLOPT_ERRORBUFFER {
        match arg {
            OptArg::Buf(_) => (s, CURLE_OK),
            _ => (s, CURLE_BAD_FUNCTION_ARGUMENT),
        }
    } else if option == CURLOPT_CONNECTTIMEOUT {
        match arg {
            OptArg::Long(v) => (
                Options {
                    connect_timeout: Some(
                        if v == 0 {
                            Timeout::Seconds(DEFAULT_CONNECT_TIMEOUT_SECS as u64)
                        } else {
                            Timeout::Seconds(long_as_u64(v))
                        },
                    ),
                    ..s
                },
                CURLE_OK,
            ),
            _ => (s, CURLE_BAD_FUNCTION_ARGUMENT),
        }
    } else if option == CURLOPT_CONNECTTIMEOUT_MS {
        match arg {
            OptArg::Long(v) => (
                Options {
                    connect_timeout: if v == 0 {
                        None
                    } else {
                        Some(Timeout::Millis(long_as_u64(v)))
                    },
                    ..s
                },
                CURLE_OK,
            ),
            _ => (s, CURLE_BAD_FUNCTION_ARGUMENT),
        }
    } else if option == CURLOPT_FILETIME {
        match arg {
            OptArg::Long(v) => (Options { file_time: v == 1, ..s }, CURLE_OK),
            _ => (s, CURLE_BAD_FUNCTION_ARGUMENT),
        }
    } else if option == CURLOPT_NOPROGRESS {
        match arg {
            OptArg::Long(v) => (Options { no_progress: v == 1, ..s }, CURLE_OK),
            _ => (s, CURLE_BAD_FUNCTION_ARGUMENT),
        }
    } else if option == CURLOPT_WRITEFUNCTION {
        match arg {
            OptArg::Func(t) => (Options { write_function: t, ..s }, CURLE_OK),
            _ => (s, CURLE_BAD_FUNCTION_ARGUMENT),
        }
    } else if option == CURLOPT_WRITEDATA {
        match arg {
            OptArg::Data(t) => (Options { write_data: t, ..s }, CURLE_OK),
            _ => (s, CURLE_BAD_FUNCTION_ARGUMENT),
        }
    } else if option == CURLOPT_HEADERFUNCTION {
        match arg {
            OptArg::Func(t) => (
                Options {
                    header_function: if t == 0 {
                        HeaderCallback::Null
                    } else {
                        HeaderCallback::Func(t)
                    },
                    ..s
                },
                CURLE_OK,
            ),
            _ => (s, CURLE_BAD_FUNCTION_ARGUMENT),
        }
    } else if option == CURLOPT_HEADERDATA {
        match arg {
            OptArg::Data(t) => (Options { header_data: t, ..s }, CURLE_OK),
            _ => (s, CURLE_BAD_FUNCTION_ARGUMENT),
        }
    } else if option == CURLOPT_XFERINFOFUNCTION {
        match arg {
            OptArg::Func(t) => (Options { xfer_info_function: t, ..s }, CURLE_OK),
            _ => (s, CURLE_BAD_FUNCTION_ARGUMENT),
        }
    } else if option == CURLOPT_XFERINFODATA {
        match arg {
            OptArg::Data(t) => (Options { xfer_info_data: t, ..s }, CURLE_OK),
            _ => (s, CURLE_BAD_FUNCTION_ARGUMENT),
        }
    } else {
        (s, CURLE_UNKNOWN_OPTION)
    }
}

/// Whether `post` is `pre` after a diagnostic message was written into the
/// registered error region; with no region registered, the two are the same.
pub open spec fn noted_error(pre: ErrorBuffer, post: ErrorBuffer) -> bool {
    if !pre.registered() {
        post == pre
    } else {
        exists|m: Seq<u8>|
            post.spec_target() == Some(#[trigger] written_bytes(pre.spec_target()->0, m))
    }
}

/// Decodes one tagged option argument and applies it to the store, or fails:
/// the store and the result code follow `setopt_spec` exactly. Registering an
/// error region goes to `errbuf`; a decode failure for a recognized option
/// leaves the store alone and notes a message in `errbuf`; an unknown option
/// identifier leaves both alone.
pub fn apply_option(store: &mut Options, errbuf: &mut ErrorBuffer, option: u64, arg: OptArg) -> (r:
    u32)
    requires
        old(errbuf).wf(),
        options_wf(*old(store)),
        arg matches OptArg::Buf(Some(region)) ==> region@.len() == CURL_ERROR_SIZE,
    ensures
        (*final(store), r) == setopt_spec(*old(store), option, arg),
        options_wf(*final(store)),
        final(errbuf).wf(),
        option == CURLOPT_ERRORBUFFER ==> (match arg {
            OptArg::Buf(Some(v)) => final(errbuf).spec_target() == Some(v@),
            OptArg::Buf(None) => final(errbuf).spec_target() is None,
            _ => true,
        }),
        r == CURLE_URL_MALFORMAT || r == CURLE_BAD_FUNCTION_ARGUMENT
            ==> noted_error(*old(errbuf), *final(errbuf)),
        r == CURLE_UNKNOWN_OPTION ==> *final(errbuf) == *old(errbuf),
        r == CURLE_OK && option != CURLOPT_ERRORBUFFER ==> *final(errbuf) == *old(errbuf),
{
    if option == CURLOPT_URL {
        match arg {
            OptArg::Str(None) => {
                store.url = None;
                CURLE_OK
            },
            OptArg::Str(Some(b)) => {
                if utf8_is_valid(b.as_slice()) {
                    store.url = Some(b);
                    CURLE_OK
                } else {
                    note_decode_error(errbuf, CURLE_URL_MALFORMAT, "URL is not valid UTF-8")
                }
            },
            _ => wrong_shape(errbuf),
        }
    } else if option == CURLOPT_FOLLOWLOCATION {
        match arg {
            OptArg::Long(v) => {
                store.follow_location = v == 1;
                CURLE_OK
            },
            _ => wrong_shape(errbuf),
        }
    } else if option == CURLOPT_POSTFIELDS {
        match arg {
            OptArg::Str(b) => {
                store.method = Method::Post;
                store.post_fields = b;
                CURLE_OK
            },
            _ => wrong_shape(errbuf),
        }
    } else if option == CURLOPT_ERRORBUFFER {
        match arg {
            OptArg::Buf(region) => {
                errbuf.set_buffer(region);
                CURLE_OK
            },
            _ => wrong_shape(errbuf),
        }
    } else if option == CURLOPT_CONNECTTIMEOUT {
        match arg {
            OptArg::Long(v) => {
                store.connect_timeout = Some(
                    if v == 0 {
                        Timeout::Seconds(DEFAULT_CONNECT_TIMEOUT_SECS)
                    } else {
                        Timeout::Seconds(to_u64_wrapping(v))
                    },
                );
                CURLE_OK
            },
            _ => wrong_shape(errbuf),
        }
    } else if option == CURLOPT_CONNECTTIMEOUT_MS {
        match arg {
            OptArg::Long(v) => {
                store.connect_timeout = if v == 0 {
                    None
                } else {
                    Some(Timeout::Millis(to_u64_wrapping(v)))
                };
                CURLE_OK
            },
            _ => wrong_shape(errbuf),
        }
    } else if option == CURLOPT_FILETIME {
        match arg {
            OptArg::Long(v) => {
                store.file_time = v == 1;
                CURLE_OK
            },
            _ => wrong_shape(errbuf),
        }
    } else if option == CURLOPT_NOPROGRESS {
        match arg {
            OptArg::Long(v) => {
                store.no_progress = v == 1;
                CURLE_OK
            },
            _ => wrong_shape(errbuf),
        }
    } else if option == CURLOPT_WRITEFUNCTION {
        match arg {
            OptArg::Func(t) => {
                store.write_function = t;
                CURLE_OK
            },
            _ => wrong_shape(errbuf),
        }
    } else if option == CURLOPT_WRITEDATA {
        match arg {
            OptArg::Data(t) => {
                store.write_data = t;
                CURLE_OK
            },
            _ => wrong_shape(errbuf),
        }
    } else if option == CURLOPT_HEADERFUNCTION {
        match arg {
            OptArg::Func(t) => {
                store.header_function = if t == 0 {
                    HeaderCallback::Null
                } else {
                    HeaderCallback::Func(t)
                };
                CURLE_OK
            },
            _ => wrong_shape(errbuf),
        }
    } else if option == CURLOPT_HEADERDATA {
        match arg {
            OptArg::Data(t) => {
                store.header_data = t;
                CURLE_OK
            },
            _ => wrong_shape(errbuf),
        }
    } else if option == CURLOPT_XFERINFOFUNCTION {
        match arg {
            OptArg::Func(t) => {
                store.xfer_info_function = t;
                CURLE_OK
            },
            _ => wrong_shape(errbuf),
        }
    } else if option == CURLOPT_XFERINFODATA {
        match arg {
            OptArg::Data(t) => {
                store.xfer_info_data = t;
                CURLE_OK
            },
            _ => wrong_shape(errbuf),
        }
    } else {
        CURLE_UNKNOWN_OPTION
    }
}

/// Notes a decode-failure message in the error buffer and hands the failure
/// code back.
fn note_decode_error(errbuf: &mut ErrorBuffer, code: u32, message: &str) -> (r: u32)
    requires
        old(errbuf).wf(),
    ensures
        r == code,
        final(errbuf).wf(),
        noted_error(*old(errbuf), *final(errbuf)),
{
    let bytes = message.as_bytes();
    let r = errbuf.set_error(code, bytes);
    proof {
        if old(errbuf).registered() {
            assert(final(errbuf).spec_target() == Some(
                written_bytes(old(errbuf).spec_target()->0, bytes@),
            ));
        }
    }
    r
}

fn wrong_shape(errbuf: &mut ErrorBuffer) -> (r: u32)
    requires
        old(errbuf).wf(),
    ensures
        r == CURLE_BAD_FUNCTION_ARGUMENT,
        final(errbuf).wf(),
        noted_error(*old(errbuf), *final(errbuf)),
{
    note_decode_error(
        errbuf,
        CURLE_BAD_FUNCTION_ARGUMENT,
        "Option argument has the wrong type",
    )
}

/// Law: handing a body payload to the option setter always flips the method
/// to POST, whether the payload is present or null.
pub proof fn lemma_post_body_flips_method(s: Options, body: Option<Vec<u8>>)
    ensures
        setopt_spec(s, CURLOPT_POSTFIELDS, OptArg::Str(body)).0.method == Method::Post,
        setopt_spec(s, CURLOPT_POSTFIELDS, OptArg::Str(body)).0.post_fields == body,
        setopt_spec(s, CURLOPT_POSTFIELDS, OptArg::Str(body)).1 == CURLE_OK,
{
}

/// Law: the method is sticky — no option write other than a body payload
/// changes it; in particular, clearing the body payload after setting one
/// does not revert the method.
pub proof fn lemma_method_sticky(s: Options, option: u64, arg: OptArg)
    requires
        option != CURLOPT_POSTFIELDS,
    ensures
        setopt_spec(s, option, arg).0.method == s.method,
{
}

/// Law: an unrecognized option identifier fails with "unknown option" and
/// leaves the store unchanged, field for field.
pub proof fn lemma_unknown_option_rejected(s: Options, option: u64, arg: OptArg)
    requires
        !recognized_option(option),
    ensures
        setopt_spec(s, option, arg) == (s, CURLE_UNKNOWN_OPTION),
{
}

/// Law: a zero milliseconds timeout disables the connect timeout entirely,
/// while a zero seconds timeout restores the fixed default; the two zero
/// semantics are distinct.
pub proof fn lemma_timeout_zero_semantics(s: Options)
    ensures
        setopt_spec(s, CURLOPT_CONNECTTIMEOUT_MS, OptArg::Long(0)).0.connect_timeout is None,
        setopt_spec(s, CURLOPT_CONNECTTIMEOUT, OptArg::Long(0)).0.connect_timeout == Some(
            Timeout::Seconds(DEFAULT_CONNECT_TIMEOUT_SECS as u64),
        ),
{
}

} // verus!
