//! The transfer handle: one configuration store, one result record, and one
//! shared error sink, performing one blocking transfer at a time.
//!
//! The error sink is owned here and shared by key with dependent mime objects;
//! the caller's error-buffer registration lives in the sink, not in the
//! option store, so resetting the handle restores the parsed configuration
//! while keeping the registration.

use vstd::prelude::*;

use crate::codes::CURLE_HTTP_RETURNED_ERROR;
use crate::codes::CURLE_OK;
use crate::codes::CURLE_WRITE_ERROR;
use crate::engine::header_route_of;
use crate::engine::plan_request;
use crate::engine::run_transfer;
use crate::engine::CallbackHost;
use crate::engine::Engine;
use crate::engine::HttpClient;
use crate::engine::wrap_sum;
use crate::error::written_bytes;
use crate::error::ErrorBuffer;
use crate::info::default_infos;
use crate::info::Infos;
use crate::options::apply_option;
use crate::options::default_options;
use crate::options::noted_error;
use crate::options::options_wf;
use crate::options::setopt_spec;
use crate::options::OptArg;
use crate::options::Options;
use crate::response::file_time_of;
use crate::response::ExchangeOutcome;
use crate::share::RootRc;
use crate::text::clone_bytes;

verus! {

/// One easy transfer handle.
pub struct CURL {
    pub options: Options,
    pub infos: Infos,
    /// The shared error sink, keyed with this handle's identity.
    pub error_buffer: RootRc<ErrorBuffer>,
}

/// A handle's configured URL is valid UTF-8 and its error sink holds a
/// region of the fixed capacity, when one is registered.
pub open spec fn curl_wf(c: CURL) -> bool {
    &&& options_wf(c.options)
    &&& c.error_buffer.value.wf()
}

impl CURL {
    /// A fresh handle under the given identity key: factory-default options,
    /// an empty result record, and no error region registered.
    pub fn init(key: u64) -> (r: CURL)
        ensures
            curl_wf(r),
            r.options == default_options(),
            r.infos == default_infos(),
            r.error_buffer.key == key,
            !r.error_buffer.value.registered(),
    {
        CURL {
            options: Options::new(),
            infos: Infos::new(),
            error_buffer: RootRc::new(ErrorBuffer::new(), key),
        }
    }

    /// Notes an error message in the shared sink and hands the code back
    /// unchanged, so a caller can route any failure through it.
    pub fn error(&mut self, code: u32, message: &[u8]) -> (r: u32)
        requires
            curl_wf(*old(self)),
        ensures
            curl_wf(*final(self)),
            r == code,
            final(self).options == old(self).options,
            final(self).infos == old(self).infos,
            final(self).error_buffer.key == old(self).error_buffer.key,
            !old(self).error_buffer.value.registered() ==> final(self).error_buffer.value == old(self).error_buffer.value,
            old(self).error_buffer.value.registered() ==> final(self).error_buffer.value.spec_target() == Some(
                written_bytes(old(self).error_buffer.value.spec_target()->0, message@),
            ),
    {
        self.error_buffer.value.set_error(code, message)
    }

    /// The shared error sink.
    pub fn error_buffer(&self) -> (r: &RootRc<ErrorBuffer>)
        ensures
            r == &self.error_buffer,
    {
        &self.error_buffer
    }

    /// The last effective URL of the most recent transfer, when one ran.
    pub fn last_effective_url(&self) -> (r: Option<&Vec<u8>>)
        ensures
            r is Some <==> self.infos.last_effective_url is Some,
            r is Some ==> *r->0 == self.infos.last_effective_url->0,
    {
        self.infos.last_effective_url.as_ref()
    }

    /// Decodes and applies one option; the store and code follow
    /// `setopt_spec`, registration and decode-failure text go to the shared
    /// sink, and the result record is untouched.
    pub fn setopt(&mut self, option: u64, arg: OptArg) -> (r: u32)
        requires
            curl_wf(*old(self)),
            arg matches OptArg::Buf(Some(region)) ==> region@.len()
                == crate::codes::CURL_ERROR_SIZE,
        ensures
            curl_wf(*final(self)),
            (final(self).options, r) == setopt_spec(old(self).options, option, arg),
            final(self).infos == old(self).infos,
            final(self).error_buffer.key == old(self).error_buffer.key,
            option == crate::codes::CURLOPT_ERRORBUFFER ==> (match arg {
                OptArg::Buf(Some(v)) => final(self).error_buffer.value.spec_target() == Some(v@),
                OptArg::Buf(None) => final(self).error_buffer.value.spec_target() is None,
                _ => true,
            }),
            r == crate::codes::CURLE_URL_MALFORMAT || r == crate::codes::CURLE_BAD_FUNCTION_ARGUMENT
                ==> noted_error(old(self).error_buffer.value, final(self).error_buffer.value),
            r == CURLE_OK && option != crate::codes::CURLOPT_ERRORBUFFER ==> final(self).error_buffer.value == old(self).error_buffer.value,
            r == crate::codes::CURLE_UNKNOWN_OPTION ==> final(self).error_buffer.value == old(self).error_buffer.value,
    {
        apply_option(&mut self.options, &mut self.error_buffer.value, option, arg)
    }

    /// Applies one exchange outcome: a transport failure keeps the result
    /// record and notes the error text; a completed exchange populates the
    /// record (status, declared length, final URL, and — only when asked for —
    /// the parsed file time), then streams headers and body to the callbacks.
    /// Success means every byte was consumed and counted; "write error" means
    /// some callback consumed the wrong number of bytes.
    pub fn apply_outcome<H: CallbackHost>(&mut self, outcome: ExchangeOutcome, host: &mut H) -> (r:
        u32)
        requires
            curl_wf(*old(self)),
        ensures
            curl_wf(*final(self)),
            final(self).options == old(self).options,
            final(self).error_buffer.key == old(self).error_buffer.key,
            (match outcome {
                ExchangeOutcome::Failed(msg) => {
                    &&& r == CURLE_HTTP_RETURNED_ERROR
                    &&& final(self).infos == old(self).infos
                    &&& (!old(self).error_buffer.value.registered() ==> final(self).error_buffer.value == old(self).error_buffer.value)
                    &&& (old(self).error_buffer.value.registered() ==> final(self).error_buffer.value.spec_target() == Some(
                        written_bytes(old(self).error_buffer.value.spec_target()->0, msg@),
                    ))
                },
                ExchangeOutcome::Completed(data) => {
                    &&& (r == CURLE_OK || r == CURLE_WRITE_ERROR)
                    &&& final(self).infos.response_code == data.status
                    &&& final(self).infos.content_length_download == data.content_length
                    &&& final(self).infos.last_effective_url is Some
                    &&& final(self).infos.last_effective_url->0@ == data.final_url@
                    &&& final(self).infos.file_time == (if old(self).options.file_time {
                        file_time_of(data.headers@)
                    } else {
                        old(self).infos.file_time
                    })
                    &&& (r == CURLE_OK ==> final(self).infos.size_download == wrap_sum(data.body@))
                    &&& (r == CURLE_OK ==> final(self).error_buffer.value == old(self).error_buffer.value)
                    &&& (r == CURLE_WRITE_ERROR ==> noted_error(
                        old(self).error_buffer.value,
                        final(self).error_buffer.value,
                    ))
                    &&& (data.body@.len() == 0 && (data.headers@.len() == 0 || header_route_of(
                        old(self).options,
                    ) is None) ==> r == CURLE_OK)
                },
            }),
    {
        match outcome {
            ExchangeOutcome::Failed(msg) => self.error(CURLE_HTTP_RETURNED_ERROR, msg.as_slice()),
            ExchangeOutcome::Completed(data) => {
                self.infos.response_code = data.status;
                self.infos.content_length_download = data.content_length;
                if self.options.file_time {
                    self.infos.file_time = crate::response::response_file_time(&data.headers);
                }
                self.infos.last_effective_url = Some(clone_bytes(&data.final_url));
                let mut engine = Engine::new(&self.options, data);
                let r = run_transfer(&mut engine, host);
                self.infos.size_download = engine.size_download;
                if r == CURLE_WRITE_ERROR {
                    let msg = "Write callback consumed the wrong number of bytes".as_bytes();
                    let code = self.error(CURLE_WRITE_ERROR, msg);
                    proof {
                        if old(self).error_buffer.value.registered() {
                            assert(self.error_buffer.value.spec_target() == Some(
                                written_bytes(
                                    old(self).error_buffer.value.spec_target()->0,
                                    msg@,
                                ),
                            ));
                        }
                    }
                    code
                } else {
                    r
                }
            },
        }
    }

    /// Performs one blocking transfer: with no URL configured this is a
    /// successful no-op; otherwise the plan goes to the client capability and
    /// the outcome is applied as `apply_outcome` states.
    pub fn perform<C: HttpClient, H: CallbackHost>(&mut self, client: &mut C, host: &mut H) -> (r:
        u32)
        requires
            curl_wf(*old(self)),
        ensures
            curl_wf(*final(self)),
            final(self).options == old(self).options,
            final(self).error_buffer.key == old(self).error_buffer.key,
            old(self).options.url is None ==> r == CURLE_OK && *final(self) == *old(self),
            r == CURLE_OK || r == CURLE_WRITE_ERROR || r == CURLE_HTTP_RETURNED_ERROR,
    {
        let plan = match plan_request(&self.options) {
            None => {
                return CURLE_OK;
            },
            Some(p) => p,
        };
        let outcome = client.execute(&plan);
        self.apply_outcome(outcome, host)
    }
}

} // verus!
