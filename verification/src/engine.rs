//! The transfer engine: one blocking transfer as an explicit machine.
//!
//! Planning turns the option store into a request plan; an injected HTTP
//! client capability turns the plan into an exchange outcome; the engine then
//! walks the outcome, handing synthesized header lines and body chunks to the
//! caller's callbacks one at a time. Each callback reply drives one step of
//! the machine: a reply that consumes fewer bytes than it was given ends the
//! transfer at once with "write error"; full consumption carries it through
//! to success. All callbacks run synchronously on the calling thread, and a
//! progress reply is noted but never treated as a cancellation signal.

use vstd::prelude::*;

use crate::codes::CURLE_BAD_FUNCTION_ARGUMENT;
use crate::codes::CURLE_OK;
use crate::codes::CURLE_WRITE_ERROR;
use crate::options::HeaderCallback;
use crate::options::Method;
use crate::options::Options;
use crate::options::Timeout;
use crate::response::header_line_of;
use crate::response::synthesize_header_line;
use crate::response::ExchangeOutcome;
use crate::response::ResponseData;
use crate::text::clone_bytes;
use crate::text::opt_bytes;

verus! {

/// How many redirect hops the client may follow when following is on.
pub const REDIRECT_LIMIT: u32 = 30;

/// Everything the HTTP client capability needs for one send.
pub struct RequestPlan {
    pub method: Method,
    /// The target URL; valid UTF-8.
    pub url: Vec<u8>,
    /// The request body, when one was configured.
    pub body: Option<Vec<u8>>,
    /// Whether to attach the conventional form-encoded content type, which
    /// goes with a configured body unless another type was established.
    pub form_content_type: bool,
    /// Follow up to this many redirect hops; `None` never redirects.
    pub redirect_limit: Option<u32>,
    pub connect_timeout: Option<Timeout>,
}

/// Builds the request plan from the option store, or nothing when no URL is
/// configured (in which case performing is a successful no-op).
pub fn plan_request(opts: &Options) -> (r: Option<RequestPlan>)
    ensures
        r is Some <==> opts.url is Some,
        r is Some ==> ({
            &&& r->0.url@ == opts.url->0@
            &&& r->0.method == opts.method
            &&& opt_bytes(r->0.body) == opt_bytes(opts.post_fields)
            &&& r->0.form_content_type == (opts.post_fields is Some)
            &&& r->0.redirect_limit == (if opts.follow_location {
                Some(REDIRECT_LIMIT as u32)
            } else {
                None::<u32>
            })
            &&& r->0.connect_timeout == opts.connect_timeout
        }),
{
    match &opts.url {
        None => None,
        Some(url) => {
            let body = match &opts.post_fields {
                Some(b) => Some(clone_bytes(b)),
                None => None,
            };
            Some(
                RequestPlan {
                    method: opts.method,
                    url: clone_bytes(url),
                    form_content_type: body.is_some(),
                    body,
                    redirect_limit: if opts.follow_location {
                        Some(REDIRECT_LIMIT)
                    } else {
                        None
                    },
                    connect_timeout: opts.connect_timeout,
                },
            )
        },
    }
}

/// The HTTP client capability: given a plan, it produces an exchange outcome.
/// Nothing is assumed of it; everything the engine guarantees holds whatever
/// outcome comes back.
pub trait HttpClient {
    fn execute(&mut self, plan: &RequestPlan) -> ExchangeOutcome;
}

/// The caller's callbacks, addressed by the function and user-data tokens the
/// option store holds. Nothing is assumed of the replies.
pub trait CallbackHost {
    /// Invokes the write-style callback behind `func` with `data` bytes and
    /// the `userdata` token; yields how many bytes the callback consumed.
    fn call_write(&mut self, func: u64, userdata: u64, data: &Vec<u8>) -> usize;

    /// Invokes the progress callback behind `func`; yields its return value.
    fn call_progress(
        &mut self,
        func: u64,
        userdata: u64,
        dl_total: u64,
        dl_now: u64,
        ul_total: u64,
        ul_now: u64,
    ) -> i32;
}

/// Where header lines are routed: a function token and its user-data token.
#[derive(Clone, Copy, PartialEq, Eq, Structural, Debug)]
pub struct Route {
    pub func: u64,
    pub data: u64,
}

/// The effective header route: the header callback when one is set; the
/// body-write callback as a fallback when the header callback was never set
/// but header user data was registered; and no forwarding at all otherwise —
/// in particular, a header callback explicitly set to the null function
/// pointer disables forwarding even with header user data registered.
pub open spec fn header_route_of(opts: Options) -> Option<Route> {
    match opts.header_function {
        HeaderCallback::Func(f) => Some(Route { func: f, data: opts.header_data }),
        HeaderCallback::Null => None,
        HeaderCallback::Unset => if opts.header_data != 0 {
            Some(Route { func: opts.write_function, data: opts.header_data })
        } else {
            None
        },
    }
}

fn effective_header_route(opts: &Options) -> (r: Option<Route>)
    ensures
        r == header_route_of(*opts),
{
    match opts.header_function {
        HeaderCallback::Func(f) => Some(Route { func: f, data: opts.header_data }),
        HeaderCallback::Null => None,
        HeaderCallback::Unset => if opts.header_data != 0 {
            Some(Route { func: opts.write_function, data: opts.header_data })
        } else {
            None
        },
    }
}

/// Where the machine stands: which callback reply it is waiting for, or the
/// final result code.
#[derive(Clone, Copy, PartialEq, Eq, Structural, Debug)]
pub enum Phase {
    /// Waiting for the begin event.
    Begin,
    /// Header line `i` was handed out; waiting for its consumed count.
    AwaitHeader(usize),
    /// Body chunk `i` was handed out; waiting for its consumed count.
    AwaitChunk(usize),
    /// Progress after chunk `i` was handed out; waiting for its return.
    AwaitProgress(usize),
    /// The transfer ended with this result code.
    Done(u32),
}

/// One callback reply fed into the machine.
#[derive(Clone, Copy, PartialEq, Eq, Structural, Debug)]
pub enum Reply {
    /// Start the machine.
    Begin,
    /// The callback consumed this many bytes.
    Consumed(usize),
    /// The progress callback returned this value (noted, never honored as a
    /// cancellation signal).
    Progress(i32),
}

/// What the machine asks the driver to do next.
#[derive(Clone, Copy, PartialEq, Eq, Structural, Debug)]
pub enum Action {
    /// Hand header line `idx` to the write-style callback behind `func`.
    SendHeader { func: u64, data: u64, idx: usize },
    /// Hand body chunk `idx` to the write-style callback behind `func`.
    SendChunk { func: u64, data: u64, idx: usize },
    /// Report progress: total declared size (0 when unknown) and bytes so
    /// far; upload counters are always 0, uploads are not tracked.
    SendProgress { func: u64, data: u64, dl_total: u64, dl_now: u64 },
    /// The transfer ended with this result code.
    Finished(u32),
}

/// The byte count of a chunk sequence, accumulated with the wrapping
/// addition the running total uses.
pub open spec fn wrap_sum(chunks: Seq<Vec<u8>>) -> u64
    decreases chunks.len(),
{
    if chunks.len() == 0 {
        0u64
    } else {
        vstd::wrapping::u64_specs::wrapping_add(
            wrap_sum(chunks.drop_last()),
            chunks.last()@.len() as u64,
        )
    }
}

proof fn lemma_wrap_sum_step(chunks: Seq<Vec<u8>>, i: int)
    requires
        0 <= i < chunks.len(),
    ensures
        wrap_sum(chunks.take(i + 1)) == vstd::wrapping::u64_specs::wrapping_add(
            wrap_sum(chunks.take(i)),
            chunks[i]@.len() as u64,
        ),
{
    assert(chunks.take(i + 1).drop_last() =~= chunks.take(i));
    assert(chunks.take(i + 1).last() == chunks[i]);
}

/// The machine that streams one completed exchange to the callbacks.
pub struct Engine {
    /// The effective header route; `None` disables header forwarding.
    pub header_route: Option<Route>,
    /// The body-write callback and its user data.
    pub write_func: u64,
    pub write_data: u64,
    /// Whether progress is reported after each chunk.
    pub progress_on: bool,
    pub progress_func: u64,
    pub progress_data: u64,
    /// The declared download size, or 0 when the peer declared none.
    pub dl_total: u64,
    /// The synthesized header lines; empty when forwarding is off.
    pub lines: Vec<Vec<u8>>,
    /// The body chunks.
    pub chunks: Vec<Vec<u8>>,
    pub phase: Phase,
    /// Running total of the body bytes of the chunks accepted so far.
    pub size_download: u64,
}

/// Which reply the machine expects in this phase.
pub open spec fn reply_matches(phase: Phase, r: Reply) -> bool {
    match phase {
        Phase::Begin => r is Begin,
        Phase::AwaitHeader(_) => r is Consumed,
        Phase::AwaitChunk(_) => r is Consumed,
        Phase::AwaitProgress(_) => r is Progress,
        Phase::Done(_) => true,
    }
}

impl Engine {
    /// The machine keeps count of where it stands: indices in range, the
    /// running total equal to the accepted chunks' byte count, forwarding
    /// only with a route, and a final code that is success or write error —
    /// success only with the whole body counted.
    pub open spec fn wf(self) -> bool {
        &&& (match self.phase {
            Phase::Begin => self.size_download == 0,
            Phase::AwaitHeader(i) => i < self.lines@.len() && self.size_download == 0
                && self.header_route is Some,
            Phase::AwaitChunk(i) => i < self.chunks@.len() && self.size_download == wrap_sum(
                self.chunks@.take(i as int),
            ),
            Phase::AwaitProgress(i) => i < self.chunks@.len() && self.progress_on
                && self.size_download == wrap_sum(self.chunks@.take(i as int + 1)),
            Phase::Done(c) => (c == CURLE_OK || c == CURLE_WRITE_ERROR) && (c == CURLE_OK
                ==> self.size_download == wrap_sum(self.chunks@)),
        })
        &&& (self.lines@.len() > 0 ==> self.header_route is Some)
    }

    /// The fixed configuration and payload of the machine, which stepping
    /// never changes.
    pub open spec fn same_config(self, other: Engine) -> bool {
        &&& self.header_route == other.header_route
        &&& self.write_func == other.write_func
        &&& self.write_data == other.write_data
        &&& self.progress_on == other.progress_on
        &&& self.progress_func == other.progress_func
        &&& self.progress_data == other.progress_data
        &&& self.dl_total == other.dl_total
        &&& self.lines == other.lines
        &&& self.chunks == other.chunks
    }

    /// How many steps remain before the machine is done, at most.
    pub open spec fn measure(self) -> int {
        let pc: int = if self.progress_on {
            2
        } else {
            1
        };
        match self.phase {
            Phase::Begin => 1 + self.lines@.len() + pc * self.chunks@.len(),
            Phase::AwaitHeader(i) => (self.lines@.len() - i) + pc * self.chunks@.len(),
            Phase::AwaitChunk(i) => pc * (self.chunks@.len() - i),
            Phase::AwaitProgress(i) => pc * (self.chunks@.len() - i) - 1,
            Phase::Done(_) => 0,
        }
    }
}

/// Entering the body: hand out the first chunk, or finish with success when
/// the body is empty.
pub open spec fn begin_body_spec(e: Engine, sz: u64) -> (Phase, u64, Action) {
    if e.chunks@.len() > 0 {
        (
            Phase::AwaitChunk(0),
            sz,
            Action::SendChunk { func: e.write_func, data: e.write_data, idx: 0 },
        )
    } else {
        (Phase::Done(CURLE_OK), sz, Action::Finished(CURLE_OK))
    }
}

/// After chunk `i` is fully handled: hand out the next chunk, or finish with
/// success after the last one.
pub open spec fn advance_chunk_spec(e: Engine, i: int, sz: u64) -> (Phase, u64, Action) {
    if i + 1 < e.chunks@.len() {
        (
            Phase::AwaitChunk((i + 1) as usize),
            sz,
            Action::SendChunk { func: e.write_func, data: e.write_data, idx: (i + 1) as usize },
        )
    } else {
        (Phase::Done(CURLE_OK), sz, Action::Finished(CURLE_OK))
    }
}

/// The transition relation: the phase, running total and action after one
/// reply. A consumed count unequal to the bytes handed out ends the transfer
/// with "write error" on the spot; the final phase absorbs every reply.
pub open spec fn step_spec(e: Engine, reply: Reply) -> (Phase, u64, Action) {
    match e.phase {
        Phase::Begin => if e.lines@.len() > 0 {
            (
                Phase::AwaitHeader(0),
                0u64,
                Action::SendHeader {
                    func: e.header_route->0.func,
                    data: e.header_route->0.data,
                    idx: 0,
                },
            )
        } else {
            begin_body_spec(e, 0u64)
        },
        Phase::AwaitHeader(i) => match reply {
            Reply::Consumed(n) => if n == e.lines@[i as int]@.len() {
                if i + 1 < e.lines@.len() {
                    (
                        Phase::AwaitHeader((i + 1) as usize),
                        e.size_download,
                        Action::SendHeader {
                            func: e.header_route->0.func,
                            data: e.header_route->0.data,
                            idx: (i + 1) as usize,
                        },
                    )
                } else {
                    begin_body_spec(e, e.size_download)
                }
            } else {
                (
                    Phase::Done(CURLE_WRITE_ERROR),
                    e.size_download,
                    Action::Finished(CURLE_WRITE_ERROR),
                )
            },
            _ => (e.phase, e.size_download, Action::Finished(CURLE_BAD_FUNCTION_ARGUMENT)),
        },
        Phase::AwaitChunk(i) => match reply {
            Reply::Consumed(n) => if n == e.chunks@[i as int]@.len() {
                if e.progress_on {
                    (
                        Phase::AwaitProgress(i),
                        vstd::wrapping::u64_specs::wrapping_add(
                            e.size_download,
                            e.chunks@[i as int]@.len() as u64,
                        ),
                        Action::SendProgress {
                            func: e.progress_func,
                            data: e.progress_data,
                            dl_total: e.dl_total,
                            dl_now: vstd::wrapping::u64_specs::wrapping_add(
                                e.size_download,
                                e.chunks@[i as int]@.len() as u64,
                            ),
                        },
                    )
                } else {
                    advance_chunk_spec(
                        e,
                        i as int,
                        vstd::wrapping::u64_specs::wrapping_add(
                            e.size_download,
                            e.chunks@[i as int]@.len() as u64,
                        ),
                    )
                }
            } else {
                (
                    Phase::Done(CURLE_WRITE_ERROR),
                    e.size_download,
                    Action::Finished(CURLE_WRITE_ERROR),
                )
            },
            _ => (e.phase, e.size_download, Action::Finished(CURLE_BAD_FUNCTION_ARGUMENT)),
        },
        Phase::AwaitProgress(i) => match reply {
            Reply::Progress(_) => advance_chunk_spec(e, i as int, e.size_download),
            _ => (e.phase, e.size_download, Action::Finished(CURLE_BAD_FUNCTION_ARGUMENT)),
        },
        Phase::Done(c) => (Phase::Done(c), e.size_download, Action::Finished(c)),
    }
}

/// Whether `a` is the action the machine in state `e` has outstanding.
pub open spec fn pending(e: Engine, a: Action) -> bool {
    match a {
        Action::SendHeader { func, data, idx } => e.phase == Phase::AwaitHeader(idx)
            && idx < e.lines@.len(),
        Action::SendChunk { func, data, idx } => e.phase == Phase::AwaitChunk(idx) && idx
            < e.chunks@.len(),
        Action::SendProgress { func, data, dl_total, dl_now } => e.phase matches Phase::AwaitProgress(_),
        Action::Finished(c) => e.phase == Phase::Done(c),
    }
}

impl Engine {
    /// Builds the machine for one completed exchange under the given options:
    /// the callback routes and progress setting are taken from the store, the
    /// header lines are synthesized (only when a header route is active), and
    /// the body chunks are taken over as they came.
    pub fn new(opts: &Options, data: ResponseData) -> (e: Engine)
        ensures
            e.wf(),
            e.phase == Phase::Begin,
            e.size_download == 0,
            e.header_route == header_route_of(*opts),
            e.write_func == opts.write_function,
            e.write_data == opts.write_data,
            e.progress_on == !opts.no_progress,
            e.progress_func == opts.xfer_info_function,
            e.progress_data == opts.xfer_info_data,
            e.dl_total == (match data.content_length {
                Some(l) => l,
                None => 0u64,
            }),
            e.chunks == data.body,
            e.header_route is Some ==> e.lines@.len() == data.headers@.len() && (forall|j: int|
                0 <= j < data.headers@.len() ==> e.lines@[j]@ == header_line_of(
                    data.headers@[j].name@,
                    data.headers@[j].value@,
                )),
            e.header_route is None ==> e.lines@.len() == 0,
    {
        let route = effective_header_route(opts);
        let mut lines: Vec<Vec<u8>> = Vec::new();
        if route.is_some() {
            let mut i: usize = 0;
            while i < data.headers.len()
                invariant
                    i <= data.headers@.len(),
                    lines@.len() == i,
                    forall|j: int|
                        0 <= j < i ==> lines@[j]@ == header_line_of(
                            data.headers@[j].name@,
                            data.headers@[j].value@,
                        ),
                decreases data.headers@.len() - i,
            {
                let line = synthesize_header_line(&data.headers[i]);
                lines.push(line);
                i += 1;
            }
        }
        Engine {
            header_route: route,
            write_func: opts.write_function,
            write_data: opts.write_data,
            progress_on: !opts.no_progress,
            progress_func: opts.xfer_info_function,
            progress_data: opts.xfer_info_data,
            dl_total: match data.content_length {
                Some(l) => l,
                None => 0,
            },
            lines,
            chunks: data.body,
            phase: Phase::Begin,
            size_download: 0,
        }
    }

    /// Header line `idx`, for handing to the callback.
    pub fn line(&self, idx: usize) -> (r: &Vec<u8>)
        requires
            idx < self.lines@.len(),
        ensures
            r == self.lines@[idx as int],
    {
        &self.lines[idx]
    }

    /// Body chunk `idx`, for handing to the callback.
    pub fn chunk(&self, idx: usize) -> (r: &Vec<u8>)
        requires
            idx < self.chunks@.len(),
        ensures
            r == self.chunks@[idx as int],
    {
        &self.chunks[idx]
    }

    /// Feeds one reply into the machine and takes the next action out of it.
    /// The transition follows `step_spec` exactly; stepping never touches the
    /// configuration or the payload, and every step from a live phase brings
    /// the machine strictly closer to done.
    pub fn step(&mut self, reply: Reply) -> (a: Action)
        requires
            old(self).wf(),
            reply_matches(old(self).phase, reply),
        ensures
            final(self).wf(),
            old(self).same_config(*final(self)),
            (final(self).phase, final(self).size_download, a) == step_spec(*old(self), reply),
            pending(*final(self), a),
            !(old(self).phase is Done) ==> final(self).measure() < old(self).measure(),
            final(self).measure() >= 0,
    {
        match self.phase {
            Phase::Begin => {
                if self.lines.len() > 0 {
                    let route = match self.header_route {
                        Some(r) => r,
                        None => Route { func: 0, data: 0 },  // unreachable: wf gives a route
                    };
                    self.phase = Phase::AwaitHeader(0);
                    Action::SendHeader { func: route.func, data: route.data, idx: 0 }
                } else {
                    self.enter_body()
                }
            },
            Phase::AwaitHeader(i) => {
                let n = match reply {
                    Reply::Consumed(n) => n,
                    _ => 0,  // unreachable: the reply matches the phase
                };
                if n == self.lines[i].len() {
                    let line_count = self.lines.len();
                    if i < line_count - 1 {
                        let route = match self.header_route {
                            Some(r) => r,
                            None => Route { func: 0, data: 0 },  // unreachable
                        };
                        self.phase = Phase::AwaitHeader(i + 1);
                        Action::SendHeader { func: route.func, data: route.data, idx: i + 1 }
                    } else {
                        self.enter_body()
                    }
                } else {
                    self.phase = Phase::Done(CURLE_WRITE_ERROR);
                    Action::Finished(CURLE_WRITE_ERROR)
                }
            },
            Phase::AwaitChunk(i) => {
                let n = match reply {
                    Reply::Consumed(n) => n,
                    _ => 0,  // unreachable
                };
                if n == self.chunks[i].len() {
                    let sz = self.size_download.wrapping_add(self.chunks[i].len() as u64);
                    proof {
                        lemma_wrap_sum_step(self.chunks@, i as int);
                    }
                    self.size_download = sz;
                    if self.progress_on {
                        self.phase = Phase::AwaitProgress(i);
                        Action::SendProgress {
                            func: self.progress_func,
                            data: self.progress_data,
                            dl_total: self.dl_total,
                            dl_now: sz,
                        }
                    } else {
                        self.advance_chunk(i)
                    }
                } else {
                    self.phase = Phase::Done(CURLE_WRITE_ERROR);
                    Action::Finished(CURLE_WRITE_ERROR)
                }
            },
            Phase::AwaitProgress(i) => self.advance_chunk(i),
            Phase::Done(c) => Action::Finished(c),
        }
    }

    /// Enters the body phase; shared by the begin step and the last header
    /// step.
    fn enter_body(&mut self) -> (a: Action)
        requires
            old(self).wf(),
            old(self).phase is Begin || old(self).phase is AwaitHeader,
        ensures
            final(self).wf(),
            old(self).same_config(*final(self)),
            (final(self).phase, final(self).size_download, a) == begin_body_spec(
                *old(self),
                old(self).size_download,
            ),
            pending(*final(self), a),
            final(self).measure() < old(self).measure(),
            final(self).measure() >= 0,
    {
        if self.chunks.len() > 0 {
            self.phase = Phase::AwaitChunk(0);
            proof {
                assert(self.chunks@.take(0) =~= Seq::<Vec<u8>>::empty());
            }
            Action::SendChunk { func: self.write_func, data: self.write_data, idx: 0 }
        } else {
            self.phase = Phase::Done(CURLE_OK);
            proof {
                assert(self.chunks@.take(0) =~= self.chunks@);
            }
            Action::Finished(CURLE_OK)
        }
    }

    /// Moves past a fully handled chunk; shared by the no-progress path and
    /// the progress-reply step.
    fn advance_chunk(&mut self, i: usize) -> (a: Action)
        requires
            i < old(self).chunks@.len(),
            old(self).size_download == wrap_sum(old(self).chunks@.take(i as int + 1)),
            old(self).lines@.len() > 0 ==> old(self).header_route is Some,
        ensures
            final(self).wf(),
            old(self).same_config(*final(self)),
            (final(self).phase, final(self).size_download, a) == advance_chunk_spec(
                *old(self),
                i as int,
                old(self).size_download,
            ),
            pending(*final(self), a),
            ({
                let pc: int = if old(self).progress_on {
                    2
                } else {
                    1
                };
                final(self).measure() <= pc * (old(self).chunks@.len() - i) - pc
            }),
            final(self).measure() >= 0,
    {
        let chunk_count = self.chunks.len();
        if i < chunk_count - 1 {
            self.phase = Phase::AwaitChunk(i + 1);
            Action::SendChunk { func: self.write_func, data: self.write_data, idx: i + 1 }
        } else {
            self.phase = Phase::Done(CURLE_OK);
            proof {
                assert(self.chunks@.take(i as int + 1) =~= self.chunks@);
            }
            Action::Finished(CURLE_OK)
        }
    }
}

/// Drives the machine to completion against the caller's callbacks: hands
/// each outstanding line or chunk to the write-style callback, reports
/// progress where asked, feeds every reply back in, and stops at the final
/// code. Whatever the callbacks reply, the run ends in the machine's final
/// phase with its code; when the run succeeds, the running total holds the
/// whole body's byte count.
pub fn run_transfer<H: CallbackHost>(engine: &mut Engine, host: &mut H) -> (r: u32)
    requires
        old(engine).wf(),
        old(engine).phase is Begin,
    ensures
        old(engine).same_config(*final(engine)),
        final(engine).phase == Phase::Done(r),
        final(engine).wf(),
        r == CURLE_OK || r == CURLE_WRITE_ERROR,
        r == CURLE_OK ==> final(engine).size_download == wrap_sum(old(engine).chunks@),
        old(engine).lines@.len() == 0 && old(engine).chunks@.len() == 0 ==> r == CURLE_OK,
{
    let mut action = engine.step(Reply::Begin);
    loop
        invariant
            engine.wf(),
            old(engine).same_config(*engine),
            pending(*engine, action),
            old(engine).lines@.len() == 0 && old(engine).chunks@.len() == 0 ==> action
                == Action::Finished(CURLE_OK),
        decreases engine.measure(),
    {
        match action {
            Action::Finished(c) => {
                return c;
            },
            Action::SendHeader { func, data, idx } => {
                let n = {
                    let line = engine.line(idx);
                    host.call_write(func, data, line)
                };
                action = engine.step(Reply::Consumed(n));
            },
            Action::SendChunk { func, data, idx } => {
                let n = {
                    let chunk = engine.chunk(idx);
                    host.call_write(func, data, chunk)
                };
                action = engine.step(Reply::Consumed(n));
            },
            Action::SendProgress { func, data, dl_total, dl_now } => {
                let rc = host.call_progress(func, data, dl_total, dl_now, 0, 0);
                action = engine.step(Reply::Progress(rc));
            },
        }
    }
}

/// Law (header forwarding): a header callback that consumes fewer — or more —
/// bytes than the synthesized line it was given ends the transfer on the spot
/// with "write error": the machine goes straight to its final state, so no
/// body chunk is ever handed to the body-write callback after it, and the
/// downloaded size stays 0.
pub proof fn lemma_header_short_write_fails(e: Engine, i: usize, n: usize)
    requires
        e.wf(),
        e.phase == Phase::AwaitHeader(i),
        n != e.lines@[i as int]@.len(),
    ensures
        step_spec(e, Reply::Consumed(n)) == (
            Phase::Done(CURLE_WRITE_ERROR),
            e.size_download,
            Action::Finished(CURLE_WRITE_ERROR),
        ),
        e.size_download == 0,
{
}

/// Law: the final phase absorbs every further reply — once the machine is
/// done with a code, stepping it again only repeats that code and changes
/// nothing.
pub proof fn lemma_done_absorbing(e: Engine, c: u32, reply: Reply)
    requires
        e.phase == Phase::Done(c),
    ensures
        step_spec(e, reply) == (Phase::Done(c), e.size_download, Action::Finished(c)),
{
}

/// A reply that cooperates with the machine: the begin event where one is
/// expected, exactly the handed-out byte count where a consumed count is
/// expected, and any progress return where one is expected.
pub open spec fn cooperative_reply(e: Engine, r: Reply) -> bool {
    match e.phase {
        Phase::Begin => r is Begin,
        Phase::AwaitHeader(i) => r == Reply::Consumed(e.lines@[i as int].len()),
        Phase::AwaitChunk(i) => r == Reply::Consumed(e.chunks@[i as int].len()),
        Phase::AwaitProgress(_) => r is Progress,
        Phase::Done(_) => true,
    }
}

/// Law (header-callback state): explicitly setting the header callback to
/// the null function pointer disables header forwarding outright, even when
/// header user data is registered; only a header callback that was never set
/// lets the body-write callback stand in, and then only with header user
/// data registered.
pub proof fn lemma_null_header_callback_disables_forwarding(s: Options)
    ensures
        header_route_of(
            crate::options::setopt_spec(
                s,
                crate::codes::CURLOPT_HEADERFUNCTION,
                crate::options::OptArg::Func(0),
            ).0,
        ) is None,
        s.header_function is Unset && s.header_data != 0 ==> header_route_of(s) == Some(
            Route { func: s.write_function, data: s.header_data },
        ),
        s.header_function is Unset && s.header_data == 0 ==> header_route_of(s) is None,
{
}

/// Law (successful transfer): callbacks that always consume what they are
/// given never make a transfer fail. From any live state, a cooperative
/// reply never moves the machine to a failing final state; so a run of
/// cooperative replies, which reaches the final state in finitely many steps,
/// ends with success and the whole body counted.
pub proof fn lemma_cooperative_step_never_fails(e: Engine, r: Reply)
    requires
        e.wf(),
        !(e.phase is Done),
        cooperative_reply(e, r),
    ensures
        (match step_spec(e, r).0 {
            Phase::Done(c) => c == CURLE_OK,
            _ => true,
        }),
        (match step_spec(e, r).2 {
            Action::Finished(c) => c == CURLE_OK,
            _ => true,
        }),
{
}

} // verus!
