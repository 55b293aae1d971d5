//! The boundary surface: every handle, mime builder and string list lives in
//! a token-addressed table owned by one session, and each entry point takes a
//! token where the untyped boundary would take a pointer. A null or stale
//! token yields the "bad function argument" code (or an absent result), never
//! undefined behavior.

use vstd::prelude::*;

use crate::codes::CURLE_BAD_FUNCTION_ARGUMENT;
use crate::codes::CURLE_OK;
use crate::codes::CURL_ERROR_SIZE;
use crate::codes::CURL_ZERO_TERMINATED;
use crate::curl::curl_wf;
use crate::curl::CURL;
use crate::engine::CallbackHost;
use crate::engine::HttpClient;
use crate::handle::BorrowRaw;
use crate::handle::BorrowRawMut;
use crate::handle::Handle;
use crate::info::getinfo_post;
use crate::info::default_infos;
use crate::info::InfoValue;
use crate::mime::curl_mime;
use crate::mime::curl_mimepart;
use crate::options::default_options;
use crate::options::noted_error;
use crate::options::setopt_spec;
use crate::options::OptArg;
use crate::slist::slist_wf;
use crate::slist::curl_slist;
use crate::text::scan_terminator;
use crate::text::utf8_is_valid;

verus! {

/// Names one mime part: the builder's token and the part's index within it.
#[derive(Clone, Copy, PartialEq, Eq, Structural, Debug)]
pub struct PartToken {
    pub mime: usize,
    pub part: usize,
}

/// The session: the tables behind every token the boundary hands out.
pub struct Session {
    pub handles: Handle<CURL>,
    pub mimes: Handle<curl_mime>,
    pub slists: Handle<curl_slist>,
}

/// Every live handle is well-formed and keyed with its own token, so weak
/// sink references resolve to the right owner; every live list holds UTF-8.
pub open spec fn session_wf(s: Session) -> bool {
    &&& (forall|i: int|
        0 <= i < s.handles@.len() ==> match #[trigger] s.handles@[i] {
            Some(c) => curl_wf(c) && c.error_buffer.key == i as u64,
            None => true,
        })
    &&& (forall|i: int|
        0 <= i < s.slists@.len() ==> match #[trigger] s.slists@[i] {
            Some(l) => slist_wf(l),
            None => true,
        })
}

/// Whether a token names a live handle of the session.
pub open spec fn live_handle(s: Session, tok: usize) -> bool {
    tok < s.handles@.len() && s.handles@[tok as int] is Some
}

impl Session {
    pub fn new() -> (s: Session)
        ensures
            session_wf(s),
            s.handles@.len() == 0,
            s.mimes@.len() == 0,
            s.slists@.len() == 0,
    {
        Session { handles: Handle::empty(), mimes: Handle::empty(), slists: Handle::empty() }
    }
}

/// Creates a live handle with factory defaults and yields its token.
pub fn curl_easy_init(s: &mut Session) -> (tok: usize)
    requires
        session_wf(*old(s)),
    ensures
        session_wf(*final(s)),
        tok == old(s).handles@.len(),
        final(s).handles@.len() == old(s).handles@.len() + 1,
        live_handle(*final(s), tok),
        ({
            let c = final(s).handles@[tok as int]->0;
            c.options == default_options() && c.infos == default_infos()
                && !c.error_buffer.value.registered()
        }),
        forall|j: int|
            0 <= j < old(s).handles@.len() ==> final(s).handles@[j] == old(s).handles@[j],
        final(s).mimes@ == old(s).mimes@,
        final(s).slists@ == old(s).slists@,
{
    let key = s.handles.token_count();
    s.handles.into_raw(CURL::init(key as u64))
}

/// Restores a live handle's options and results to factory defaults while
/// keeping its identity and its error-region registration; a stale token does
/// nothing.
pub fn curl_easy_reset(s: &mut Session, tok: usize)
    requires
        session_wf(*old(s)),
    ensures
        session_wf(*final(s)),
        final(s).mimes@ == old(s).mimes@,
        final(s).slists@ == old(s).slists@,
        !live_handle(*old(s), tok) ==> final(s).handles@ == old(s).handles@,
        live_handle(*old(s), tok) ==> ({
            &&& final(s).handles@.len() == old(s).handles@.len()
            &&& live_handle(*final(s), tok)
            &&& ({
                let c0 = old(s).handles@[tok as int]->0;
                let c = final(s).handles@[tok as int]->0;
                c.options == default_options() && c.infos == default_infos() && c.error_buffer
                    == c0.error_buffer
            })
            &&& forall|j: int|
                0 <= j < old(s).handles@.len() && j != tok ==> final(s).handles@[j] == old(s).handles@[j]
        }),
{
    match s.handles.take_raw(tok) {
        Some(mut c) => {
            c.options = crate::options::Options::new();
            c.infos = crate::info::Infos::new();
            s.handles.restore_raw(tok, c);
            proof {
                assert(final(s).handles@ =~= old(s).handles@.update(
                    tok as int,
                    final(s).handles@[tok as int],
                ));
            }
        },
        None => {
            proof {
                if tok < old(s).handles@.len() {
                    assert(final(s).handles@ =~= old(s).handles@);
                }
            }
        },
    }
}

/// Destroys the handle behind the token: the slot empties for good, and with
/// it the error sink, so weak references held by mime objects stop resolving.
pub fn curl_easy_cleanup(s: &mut Session, tok: usize)
    requires
        session_wf(*old(s)),
    ensures
        session_wf(*final(s)),
        final(s).mimes@ == old(s).mimes@,
        final(s).slists@ == old(s).slists@,
        final(s).handles@.len() == old(s).handles@.len(),
        tok < old(s).handles@.len() ==> final(s).handles@ == old(s).handles@.update(
            tok as int,
            None::<CURL>,
        ),
        tok >= old(s).handles@.len() ==> final(s).handles@ == old(s).handles@,
{
    let _ = s.handles.from_raw(tok);
}

/// Decodes and applies one option on the handle behind the token; a stale
/// token yields "bad function argument". Store and code follow `setopt_spec`
/// (see `CURL::setopt` for the error-sink effects).
pub fn curl_easy_setopt(s: &mut Session, tok: usize, option: u64, arg: OptArg) -> (r: u32)
    requires
        session_wf(*old(s)),
        arg matches OptArg::Buf(Some(region)) ==> region@.len() == CURL_ERROR_SIZE,
    ensures
        session_wf(*final(s)),
        final(s).mimes@ == old(s).mimes@,
        final(s).slists@ == old(s).slists@,
        final(s).handles@.len() == old(s).handles@.len(),
        !live_handle(*old(s), tok) ==> r == CURLE_BAD_FUNCTION_ARGUMENT && final(s).handles@ == old(s).handles@,
        live_handle(*old(s), tok) ==> ({
            let c0 = old(s).handles@[tok as int]->0;
            &&& live_handle(*final(s), tok)
            &&& ({
                let c = final(s).handles@[tok as int]->0;
                &&& (c.options, r) == setopt_spec(c0.options, option, arg)
                &&& c.infos == c0.infos
                &&& c.error_buffer.key == c0.error_buffer.key
                &&& (option == crate::codes::CURLOPT_ERRORBUFFER ==> (match arg {
                    OptArg::Buf(Some(v)) => c.error_buffer.value.spec_target() == Some(v@),
                    OptArg::Buf(None) => c.error_buffer.value.spec_target() is None,
                    _ => true,
                }))
                &&& (r == crate::codes::CURLE_URL_MALFORMAT || r == CURLE_BAD_FUNCTION_ARGUMENT
                    ==> noted_error(c0.error_buffer.value, c.error_buffer.value))
                &&& (r == CURLE_OK && option != crate::codes::CURLOPT_ERRORBUFFER
                    ==> c.error_buffer.value == c0.error_buffer.value)
                &&& (r == crate::codes::CURLE_UNKNOWN_OPTION ==> c.error_buffer.value
                    == c0.error_buffer.value)
            })
            &&& forall|j: int|
                0 <= j < old(s).handles@.len() && j != tok ==> final(s).handles@[j] == old(s).handles@[j]
        }),
{
    match s.handles.take_raw(tok) {
        Some(mut c) => {
            let r = c.setopt(option, arg);
            s.handles.restore_raw(tok, c);
            r
        },
        None => {
            proof {
                if tok < old(s).handles@.len() {
                    assert(final(s).handles@ =~= old(s).handles@);
                }
            }
            CURLE_BAD_FUNCTION_ARGUMENT
        },
    }
}

/// Performs one blocking transfer on the handle behind the token; a stale
/// token yields "bad function argument", a handle without a URL succeeds as
/// a no-op, and otherwise the outcome of the exchange decides (see
/// `CURL::perform` and `CURL::apply_outcome`).
pub fn curl_easy_perform<C: HttpClient, H: CallbackHost>(
    s: &mut Session,
    tok: usize,
    client: &mut C,
    host: &mut H,
) -> (r: u32)
    requires
        session_wf(*old(s)),
    ensures
        session_wf(*final(s)),
        final(s).mimes@ == old(s).mimes@,
        final(s).slists@ == old(s).slists@,
        final(s).handles@.len() == old(s).handles@.len(),
        !live_handle(*old(s), tok) ==> r == CURLE_BAD_FUNCTION_ARGUMENT && final(s).handles@ == old(s).handles@,
        live_handle(*old(s), tok) ==> ({
            let c0 = old(s).handles@[tok as int]->0;
            &&& live_handle(*final(s), tok)
            &&& ({
                let c = final(s).handles@[tok as int]->0;
                &&& c.options == c0.options
                &&& c.error_buffer.key == c0.error_buffer.key
                &&& (c0.options.url is None ==> r == CURLE_OK && c == c0)
            })
            &&& (r == CURLE_OK || r == crate::codes::CURLE_WRITE_ERROR || r
                == crate::codes::CURLE_HTTP_RETURNED_ERROR)
            &&& forall|j: int|
                0 <= j < old(s).handles@.len() && j != tok ==> final(s).handles@[j] == old(s).handles@[j]
        }),
{
    match s.handles.take_raw(tok) {
        Some(mut c) => {
            let r = c.perform(client, host);
            s.handles.restore_raw(tok, c);
            r
        },
        None => {
            proof {
                if tok < old(s).handles@.len() {
                    assert(final(s).handles@ =~= old(s).handles@);
                }
            }
            CURLE_BAD_FUNCTION_ARGUMENT
        },
    }
}

/// Reads one result field of the handle behind the token; a stale token
/// yields "bad function argument" (see `getinfo_post` for each identifier).
pub fn curl_easy_getinfo(s: &Session, tok: usize, info: u64) -> (r: Result<InfoValue, u32>)
    ensures
        !live_handle(*s, tok) ==> r == Result::<InfoValue, u32>::Err(CURLE_BAD_FUNCTION_ARGUMENT),
        live_handle(*s, tok) ==> getinfo_post(s.handles@[tok as int]->0.infos, info, r),
{
    match s.handles.borrow_raw(tok) {
        Some(c) => c.infos.getinfo(info),
        None => Err(CURLE_BAD_FUNCTION_ARGUMENT),
    }
}

/// The one-time global set-up of the reference protocol: nothing needs doing
/// here, so it only reports success.
pub fn curl_global_init(_flags: i64) -> (r: u32)
    ensures
        r == CURLE_OK,
{
    CURLE_OK
}

/// Creates a mime builder, spawned from the handle behind the token when it
/// is live: the builder then shares that handle's error sink by key; with no
/// or a stale handle it never reports anywhere.
pub fn curl_mime_init(s: &mut Session, curl: Option<usize>) -> (tok: usize)
    requires
        session_wf(*old(s)),
    ensures
        session_wf(*final(s)),
        final(s).handles@ == old(s).handles@,
        final(s).slists@ == old(s).slists@,
        tok == old(s).mimes@.len(),
        final(s).mimes@.len() == old(s).mimes@.len() + 1,
        ({
            let m = final(s).mimes@[tok as int];
            &&& m is Some
            &&& m->0.parts@.len() == 0
            &&& m->0.error_buffer.key == (match curl {
                Some(t) => if live_handle(*old(s), t) {
                    Some(old(s).handles@[t as int]->0.error_buffer.key)
                } else {
                    None::<u64>
                },
                None => None::<u64>,
            })
        }),
        forall|j: int| 0 <= j < old(s).mimes@.len() ==> final(s).mimes@[j] == old(s).mimes@[j],
{
    let m = match curl {
        Some(t) => curl_mime::new(s.handles.borrow_raw(t)),
        None => curl_mime::new(None),
    };
    s.mimes.into_raw(m)
}

/// Appends a fresh part to the builder behind the token and yields the
/// part's token; a stale builder token yields nothing.
pub fn curl_mime_addpart(s: &mut Session, mime: usize) -> (r: Option<PartToken>)
    requires
        session_wf(*old(s)),
    ensures
        session_wf(*final(s)),
        final(s).handles@ == old(s).handles@,
        final(s).slists@ == old(s).slists@,
        final(s).mimes@.len() == old(s).mimes@.len(),
        ({
            let live = mime < old(s).mimes@.len() && old(s).mimes@[mime as int] is Some;
            &&& (!live ==> r is None && final(s).mimes@ == old(s).mimes@)
            &&& (live ==> ({
                let m0 = old(s).mimes@[mime as int]->0;
                &&& r == Some(PartToken { mime, part: m0.parts@.len() as usize })
                &&& final(s).mimes@[mime as int] is Some
                &&& ({
                    let m = final(s).mimes@[mime as int]->0;
                    &&& m.error_buffer == m0.error_buffer
                    &&& m.parts@.len() == m0.parts@.len() + 1
                    &&& (forall|j: int|
                        0 <= j < m0.parts@.len() ==> m.parts@[j] == m0.parts@[j])
                    &&& m.parts@.last().name is None
                    &&& m.parts@.last().data is None
                    &&& m.parts@.last().mime_type is None
                    &&& m.parts@.last().error_buffer == m0.error_buffer
                })
                &&& (forall|j: int|
                    0 <= j < old(s).mimes@.len() && j != mime ==> final(s).mimes@[j] == old(s).mimes@[j])
            }))
        }),
{
    match s.mimes.take_raw(mime) {
        Some(mut m) => {
            let part = curl_mimepart::new(m.error_buffer);
            let idx = m.parts.len();
            m.add_part(part);
            s.mimes.restore_raw(mime, m);
            Some(PartToken { mime, part: idx })
        },
        None => {
            proof {
                if mime < old(s).mimes@.len() {
                    assert(final(s).mimes@ =~= old(s).mimes@);
                }
            }
            None
        },
    }
}

/// Destroys the builder behind the token together with all its parts; every
/// part token under it goes stale at once.
pub fn curl_mime_free(s: &mut Session, mime: usize)
    requires
        session_wf(*old(s)),
    ensures
        session_wf(*final(s)),
        final(s).handles@ == old(s).handles@,
        final(s).slists@ == old(s).slists@,
        final(s).mimes@.len() == old(s).mimes@.len(),
        mime < old(s).mimes@.len() ==> final(s).mimes@ == old(s).mimes@.update(
            mime as int,
            None::<curl_mime>,
        ),
        mime >= old(s).mimes@.len() ==> final(s).mimes@ == old(s).mimes@,
{
    let _ = s.mimes.from_raw(mime);
}

/// Whether a part token names a live part.
pub open spec fn live_part(s: Session, part: PartToken) -> bool {
    &&& part.mime < s.mimes@.len()
    &&& s.mimes@[part.mime as int] is Some
    &&& part.part < s.mimes@[part.mime as int]->0.parts@.len()
}

/// Sets (or, with `None`, clears) a part's raw payload. The reserved length
/// `CURL_ZERO_TERMINATED` means "compute the length by scanning for the zero
/// terminator"; any other length takes exactly that many leading bytes. A
/// stale token yields "bad function argument".
pub fn curl_mime_data(
    s: &mut Session,
    part: PartToken,
    data: Option<Vec<u8>>,
    datasize: usize,
) -> (r: u32)
    requires
        session_wf(*old(s)),
        (data is Some && datasize != CURL_ZERO_TERMINATED) ==> datasize <= data->0@.len(),
    ensures
        session_wf(*final(s)),
        final(s).handles@ == old(s).handles@,
        final(s).slists@ == old(s).slists@,
        !live_part(*old(s), part) ==> r == CURLE_BAD_FUNCTION_ARGUMENT && final(s).mimes@ == old(s).mimes@,
        live_part(*old(s), part) ==> ({
            let m0 = old(s).mimes@[part.mime as int]->0;
            let p0 = m0.parts@[part.part as int];
            &&& r == CURLE_OK
            &&& live_part(*final(s), part)
            &&& ({
                let p = final(s).mimes@[part.mime as int]->0.parts@[part.part as int];
                &&& p.name == p0.name
                &&& p.mime_type == p0.mime_type
                &&& p.error_buffer == p0.error_buffer
                &&& (match data {
                    None => p.data is None,
                    Some(v) => p.data is Some && p.data->0@ == (if datasize
                        == CURL_ZERO_TERMINATED {
                        v@.take(crate::text::terminated_len(v@))
                    } else {
                        v@.take(datasize as int)
                    }),
                })
            })
        }),
{
    match s.mimes.take_raw(part.mime) {
        Some(mut m) => {
            if part.part < m.parts.len() {
                let new_data = match data {
                    None => None,
                    Some(mut v) => {
                        let n = if datasize == CURL_ZERO_TERMINATED {
                            scan_terminator(&v)
                        } else {
                            datasize
                        };
                        v.truncate(n);
                        Some(v)
                    },
                };
                m.parts[part.part].set_data(new_data);
                s.mimes.restore_raw(part.mime, m);
                CURLE_OK
            } else {
                s.mimes.restore_raw(part.mime, m);
                proof {
                    assert(final(s).mimes@ =~= old(s).mimes@);
                }
                CURLE_BAD_FUNCTION_ARGUMENT
            }
        },
        None => {
            proof {
                if part.mime < old(s).mimes@.len() {
                    assert(final(s).mimes@ =~= old(s).mimes@);
                }
            }
            CURLE_BAD_FUNCTION_ARGUMENT
        },
    }
}

/// Which text field of a part is being set.
#[derive(Clone, Copy, PartialEq, Eq, Structural, Debug)]
pub enum PartText {
    Name,
    Kind,
}

/// Sets (or clears) a part's name or declared content type. Text must be
/// UTF-8: anything else fails with "bad function argument" and leaves the
/// part alone, reporting into the spawning handle's error sink — but only
/// when that handle is still alive; after it was destroyed the report is a
/// silent no-op, and a builder spawned without a handle never reports.
fn set_part_text(s: &mut Session, part: PartToken, value: Option<Vec<u8>>, which: PartText) -> (r:
    u32)
    requires
        session_wf(*old(s)),
    ensures
        session_wf(*final(s)),
        final(s).slists@ == old(s).slists@,
        final(s).handles@.len() == old(s).handles@.len(),
        final(s).mimes@.len() == old(s).mimes@.len(),
        !live_part(*old(s), part) ==> r == CURLE_BAD_FUNCTION_ARGUMENT && final(s).mimes@ == old(s).mimes@ && final(s).handles@ == old(s).handles@,
        live_part(*old(s), part) ==> ({
            let m0 = old(s).mimes@[part.mime as int]->0;
            let p0 = m0.parts@[part.part as int];
            let ok = value is None || vstd::utf8::valid_utf8(value->0@);
            &&& (r == CURLE_OK <==> ok)
            &&& (r != CURLE_OK ==> r == CURLE_BAD_FUNCTION_ARGUMENT)
            &&& live_part(*final(s), part)
            &&& ({
                let p = final(s).mimes@[part.mime as int]->0.parts@[part.part as int];
                &&& p.data == p0.data
                &&& p.error_buffer == p0.error_buffer
                &&& (which == PartText::Name ==> p.mime_type == p0.mime_type && (if ok {
                    p.name == value
                } else {
                    p.name == p0.name
                }))
                &&& (which == PartText::Kind ==> p.name == p0.name && (if ok {
                    p.mime_type == value
                } else {
                    p.mime_type == p0.mime_type
                }))
            })
            &&& (ok ==> final(s).handles@ == old(s).handles@)
            &&& (!ok ==> (match p0.error_buffer.key {
                None => final(s).handles@ == old(s).handles@,
                Some(k) => {
                    let dead = k as int >= old(s).handles@.len() || old(s).handles@[k as int] is None;
                    &&& (dead ==> final(s).handles@ == old(s).handles@)
                    &&& (!dead ==> ({
                        &&& (forall|j: int|
                            0 <= j < old(s).handles@.len() && j != k as int ==> final(s).handles@[j] == old(s).handles@[j])
                        &&& final(s).handles@[k as int] is Some
                        &&& ({
                            let c0 = old(s).handles@[k as int]->0;
                            let c = final(s).handles@[k as int]->0;
                            &&& c.options == c0.options
                            &&& c.infos == c0.infos
                            &&& c.error_buffer.key == c0.error_buffer.key
                            &&& noted_error(c0.error_buffer.value, c.error_buffer.value)
                        })
                    }))
                },
            }))
        }),
{
    match s.mimes.take_raw(part.mime) {
        Some(mut m) => {
            if part.part < m.parts.len() {
                let accepted = match &value {
                    None => true,
                    Some(v) => utf8_is_valid(v.as_slice()),
                };
                let r = if accepted {
                    match which {
                        PartText::Name => m.parts[part.part].set_name(value),
                        PartText::Kind => m.parts[part.part].set_mime_type(value),
                    }
                    CURLE_OK
                } else {
                    report_part_error(s, m.parts[part.part].error_buffer.key);
                    CURLE_BAD_FUNCTION_ARGUMENT
                };
                s.mimes.restore_raw(part.mime, m);
                r
            } else {
                s.mimes.restore_raw(part.mime, m);
                proof {
                    assert(final(s).mimes@ =~= old(s).mimes@);
                }
                CURLE_BAD_FUNCTION_ARGUMENT
            }
        },
        None => {
            proof {
                if part.mime < old(s).mimes@.len() {
                    assert(final(s).mimes@ =~= old(s).mimes@);
                }
            }
            CURLE_BAD_FUNCTION_ARGUMENT
        },
    }
}

/// Writes the decode-failure text through a weak sink key: into the keyed
/// handle's sink when that handle is still alive, and nowhere otherwise.
fn report_part_error(s: &mut Session, key: Option<u64>)
    requires
        session_wf(*old(s)),
    ensures
        session_wf(*final(s)),
        final(s).mimes@ == old(s).mimes@,
        final(s).slists@ == old(s).slists@,
        final(s).handles@.len() == old(s).handles@.len(),
        (match key {
            None => final(s).handles@ == old(s).handles@,
            Some(k) => {
                let dead = k as int >= old(s).handles@.len() || old(s).handles@[k as int] is None;
                &&& (dead ==> final(s).handles@ == old(s).handles@)
                &&& (!dead ==> ({
                    &&& (forall|j: int|
                        0 <= j < old(s).handles@.len() && j != k as int ==> final(s).handles@[j]
                            == old(s).handles@[j])
                    &&& final(s).handles@[k as int] is Some
                    &&& ({
                        let c0 = old(s).handles@[k as int]->0;
                        let c = final(s).handles@[k as int]->0;
                        &&& c.options == c0.options
                        &&& c.infos == c0.infos
                        &&& c.error_buffer.key == c0.error_buffer.key
                        &&& noted_error(c0.error_buffer.value, c.error_buffer.value)
                    })
                }))
            },
        }),
{
    let k = match key {
        None => {
            return ;
        },
        Some(k) => k,
    };
    let count = s.handles.token_count();
    if k >= count as u64 {
        return ;
    }
    match s.handles.take_raw(k as usize) {
        Some(mut c) => {
            let msg = "Mime text is not valid UTF-8".as_bytes();
            let _ = c.error(CURLE_BAD_FUNCTION_ARGUMENT, msg);
            proof {
                if old(s).handles@[k as int]->0.error_buffer.value.registered() {
                    assert(c.error_buffer.value.spec_target() == Some(
                        crate::error::written_bytes(
                            old(s).handles@[k as int]->0.error_buffer.value.spec_target()->0,
                            msg@,
                        ),
                    ));
                }
            }
            s.handles.restore_raw(k as usize, c);
        },
        None => {
            proof {
                if (k as usize) < old(s).handles@.len() {
                    assert(final(s).handles@ =~= old(s).handles@);
                }
            }
        },
    }
}

/// Sets (or clears) a part's name; non-UTF-8 text is rejected and reported
/// through the spawning handle's error sink, when that handle still lives.
pub fn curl_mime_name(s: &mut Session, part: PartToken, name: Option<Vec<u8>>) -> (r: u32)
    requires
        session_wf(*old(s)),
    ensures
        session_wf(*final(s)),
        final(s).slists@ == old(s).slists@,
        final(s).handles@.len() == old(s).handles@.len(),
        final(s).mimes@.len() == old(s).mimes@.len(),
        !live_part(*old(s), part) ==> r == CURLE_BAD_FUNCTION_ARGUMENT && final(s).mimes@ == old(s).mimes@ && final(s).handles@ == old(s).handles@,
        live_part(*old(s), part) ==> ({
            let p0 = old(s).mimes@[part.mime as int]->0.parts@[part.part as int];
            let ok = name is None || vstd::utf8::valid_utf8(name->0@);
            &&& (r == CURLE_OK <==> ok)
            &&& (r != CURLE_OK ==> r == CURLE_BAD_FUNCTION_ARGUMENT)
            &&& live_part(*final(s), part)
            &&& ({
                let p = final(s).mimes@[part.mime as int]->0.parts@[part.part as int];
                &&& p.data == p0.data
                &&& p.mime_type == p0.mime_type
                &&& p.error_buffer == p0.error_buffer
                &&& (if ok {
                    p.name == name
                } else {
                    p.name == p0.name
                })
            })
            &&& (ok ==> final(s).handles@ == old(s).handles@)
            &&& (!ok ==> (match p0.error_buffer.key {
                None => final(s).handles@ == old(s).handles@,
                Some(k) => {
                    let dead = k as int >= old(s).handles@.len() || old(s).handles@[k as int] is None;
                    &&& (dead ==> final(s).handles@ == old(s).handles@)
                    &&& (!dead ==> ({
                        &&& (forall|j: int|
                            0 <= j < old(s).handles@.len() && j != k as int ==> final(s).handles@[j] == old(s).handles@[j])
                        &&& final(s).handles@[k as int] is Some
                        &&& ({
                            let c0 = old(s).handles@[k as int]->0;
                            let c = final(s).handles@[k as int]->0;
                            &&& c.options == c0.options
                            &&& c.infos == c0.infos
                            &&& c.error_buffer.key == c0.error_buffer.key
                            &&& noted_error(c0.error_buffer.value, c.error_buffer.value)
                        })
                    }))
                },
            }))
        }),
{
    set_part_text(s, part, name, PartText::Name)
}

/// Sets (or clears) a part's declared content type; non-UTF-8 text is
/// rejected and reported through the spawning handle's error sink, when that
/// handle still lives.
pub fn curl_mime_type(s: &mut Session, part: PartToken, mime_type: Option<Vec<u8>>) -> (r: u32)
    requires
        session_wf(*old(s)),
    ensures
        session_wf(*final(s)),
        final(s).slists@ == old(s).slists@,
        final(s).handles@.len() == old(s).handles@.len(),
        final(s).mimes@.len() == old(s).mimes@.len(),
        !live_part(*old(s), part) ==> r == CURLE_BAD_FUNCTION_ARGUMENT && final(s).mimes@ == old(s).mimes@ && final(s).handles@ == old(s).handles@,
        live_part(*old(s), part) ==> ({
            let p0 = old(s).mimes@[part.mime as int]->0.parts@[part.part as int];
            let ok = mime_type is None || vstd::utf8::valid_utf8(mime_type->0@);
            &&& (r == CURLE_OK <==> ok)
            &&& (r != CURLE_OK ==> r == CURLE_BAD_FUNCTION_ARGUMENT)
            &&& live_part(*final(s), part)
            &&& ({
                let p = final(s).mimes@[part.mime as int]->0.parts@[part.part as int];
                &&& p.data == p0.data
                &&& p.name == p0.name
                &&& p.error_buffer == p0.error_buffer
                &&& (if ok {
                    p.mime_type == mime_type
                } else {
                    p.mime_type == p0.mime_type
                })
            })
            &&& (ok ==> final(s).handles@ == old(s).handles@)
            &&& (!ok ==> (match p0.error_buffer.key {
                None => final(s).handles@ == old(s).handles@,
                Some(k) => {
                    let dead = k as int >= old(s).handles@.len() || old(s).handles@[k as int] is None;
                    &&& (dead ==> final(s).handles@ == old(s).handles@)
                    &&& (!dead ==> ({
                        &&& (forall|j: int|
                            0 <= j < old(s).handles@.len() && j != k as int ==> final(s).handles@[j] == old(s).handles@[j])
                        &&& final(s).handles@[k as int] is Some
                        &&& ({
                            let c0 = old(s).handles@[k as int]->0;
                            let c = final(s).handles@[k as int]->0;
                            &&& c.options == c0.options
                            &&& c.infos == c0.infos
                            &&& c.error_buffer.key == c0.error_buffer.key
                            &&& noted_error(c0.error_buffer.value, c.error_buffer.value)
                        })
                    }))
                },
            }))
        }),
{
    set_part_text(s, part, mime_type, PartText::Kind)
}

/// Appends a value to a string list, creating the list when none is named:
/// a null value, text that is not UTF-8, or a stale list token yield nothing.
/// The token of the (created or grown) list comes back otherwise.
pub fn curl_slist_append(s: &mut Session, list: Option<usize>, value: Option<Vec<u8>>) -> (r:
    Option<usize>)
    requires
        session_wf(*old(s)),
    ensures
        session_wf(*final(s)),
        final(s).handles@ == old(s).handles@,
        final(s).mimes@ == old(s).mimes@,
        (value is None || !vstd::utf8::valid_utf8(value->0@)) ==> r is None && final(s).slists@
            == old(s).slists@,
        (value is Some && vstd::utf8::valid_utf8(value->0@)) ==> (match list {
            None => {
                &&& r == Some(old(s).slists@.len() as usize)
                &&& final(s).slists@.len() == old(s).slists@.len() + 1
                &&& final(s).slists@.last() matches Some(l) && l.elements@.len() == 1
                    && l.elements@[0] == value->0
                &&& (forall|j: int|
                    0 <= j < old(s).slists@.len() ==> final(s).slists@[j] == old(s).slists@[j])
            },
            Some(tok) => {
                let live = tok < old(s).slists@.len() && old(s).slists@[tok as int] is Some;
                &&& (!live ==> r is None && final(s).slists@ == old(s).slists@)
                &&& (live ==> ({
                    let l0 = old(s).slists@[tok as int]->0;
                    &&& r == Some(tok)
                    &&& final(s).slists@.len() == old(s).slists@.len()
                    &&& final(s).slists@[tok as int] matches Some(l) && l.elements@
                        == l0.elements@.push(value->0)
                    &&& (forall|j: int|
                        0 <= j < old(s).slists@.len() && j != tok ==> final(s).slists@[j] == old(s).slists@[j])
                }))
            },
        }),
{
    let v = match value {
        None => {
            return None;
        },
        Some(v) => v,
    };
    if !utf8_is_valid(v.as_slice()) {
        return None;
    }
    match list {
        None => {
            let mut l = curl_slist::new();
            l.append(v);
            Some(l.into_raw(&mut s.slists))
        },
        Some(tok) => match s.slists.take_raw(tok) {
            Some(mut l) => {
                l.append(v);
                s.slists.restore_raw(tok, l);
                Some(tok)
            },
            None => {
                proof {
                    if tok < old(s).slists@.len() {
                        assert(final(s).slists@ =~= old(s).slists@);
                    }
                }
                None
            },
        },
    }
}

/// Frees the whole string list behind the token; its token goes stale.
pub fn curl_slist_free_all(s: &mut Session, list: usize)
    requires
        session_wf(*old(s)),
    ensures
        session_wf(*final(s)),
        final(s).handles@ == old(s).handles@,
        final(s).mimes@ == old(s).mimes@,
        final(s).slists@.len() == old(s).slists@.len(),
        list < old(s).slists@.len() ==> final(s).slists@ == old(s).slists@.update(
            list as int,
            None::<curl_slist>,
        ),
        list >= old(s).slists@.len() ==> final(s).slists@ == old(s).slists@,
{
    let _ = s.slists.from_raw(list);
}

} // verus!
