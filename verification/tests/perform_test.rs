//! The perform path against a mock HTTP client and recording callbacks: the
//! no-URL shortcut, the redirect scenario, header forwarding and its failure
//! mode, body streaming, progress reporting, the file-time header, and
//! transport failures.

use recurl::codes::{
    CURLE_HTTP_RETURNED_ERROR, CURLE_OK, CURLE_WRITE_ERROR, CURLINFO_CONTENT_LENGTH_DOWNLOAD,
    CURLINFO_EFFECTIVE_URL, CURLINFO_FILETIME, CURLINFO_RESPONSE_CODE, CURLINFO_SIZE_DOWNLOAD,
    CURLOPT_ERRORBUFFER, CURLOPT_FILETIME, CURLOPT_FOLLOWLOCATION, CURLOPT_HEADERDATA,
    CURLOPT_HEADERFUNCTION, CURLOPT_NOPROGRESS, CURLOPT_POSTFIELDS, CURLOPT_URL,
    CURLOPT_WRITEDATA, CURLOPT_WRITEFUNCTION, CURL_ERROR_SIZE,
};
use recurl::easy::{
    curl_easy_cleanup, curl_easy_getinfo, curl_easy_init, curl_easy_perform, curl_easy_setopt,
    Session,
};
use recurl::engine::{CallbackHost, HttpClient, RequestPlan};
use recurl::handle::BorrowRaw;
use recurl::info::InfoValue;
use recurl::options::{Method, OptArg, Timeout};
use recurl::response::{ExchangeOutcome, HeaderField, ResponseData};

/// Scripts one outcome and records what the engine asked for.
struct MockClient {
    outcome: Option<ExchangeOutcome>,
    calls: usize,
    seen_url: Option<Vec<u8>>,
    seen_method: Option<Method>,
    seen_body: Option<Option<Vec<u8>>>,
    seen_redirect_limit: Option<Option<u32>>,
    seen_timeout: Option<Option<Timeout>>,
}

impl MockClient {
    fn with(outcome: ExchangeOutcome) -> Self {
        MockClient {
            outcome: Some(outcome),
            calls: 0,
            seen_url: None,
            seen_method: None,
            seen_body: None,
            seen_redirect_limit: None,
            seen_timeout: None,
        }
    }

    fn silent() -> Self {
        MockClient {
            outcome: None,
            calls: 0,
            seen_url: None,
            seen_method: None,
            seen_body: None,
            seen_redirect_limit: None,
            seen_timeout: None,
        }
    }
}

impl HttpClient for MockClient {
    fn execute(&mut self, plan: &RequestPlan) -> ExchangeOutcome {
        self.calls += 1;
        self.seen_url = Some(plan.url.clone());
        self.seen_method = Some(plan.method);
        self.seen_body = Some(plan.body.clone());
        self.seen_redirect_limit = Some(plan.redirect_limit);
        self.seen_timeout = Some(plan.connect_timeout);
        self.outcome.take().expect("the client was not scripted for this call")
    }
}

/// Records every callback invocation; optionally shortchanges one function
/// token by one byte.
struct RecordingHost {
    writes: Vec<(u64, u64, Vec<u8>)>,
    progress: Vec<(u64, u64, u64, u64)>,
    shortchange_func: Option<u64>,
}

impl RecordingHost {
    fn cooperative() -> Self {
        RecordingHost { writes: Vec::new(), progress: Vec::new(), shortchange_func: None }
    }

    fn shortchanging(func: u64) -> Self {
        RecordingHost { writes: Vec::new(), progress: Vec::new(), shortchange_func: Some(func) }
    }
}

impl CallbackHost for RecordingHost {
    fn call_write(&mut self, func: u64, userdata: u64, data: &Vec<u8>) -> usize {
        self.writes.push((func, userdata, data.clone()));
        if self.shortchange_func == Some(func) && !data.is_empty() {
            data.len() - 1
        } else {
            data.len()
        }
    }

    fn call_progress(
        &mut self,
        func: u64,
        userdata: u64,
        dl_total: u64,
        dl_now: u64,
        _ul_total: u64,
        _ul_now: u64,
    ) -> i32 {
        self.progress.push((func, userdata, dl_total, dl_now));
        0
    }
}

fn ok_response(final_url: &[u8], body: Vec<Vec<u8>>) -> ResponseData {
    let total: usize = body.iter().map(|c| c.len()).sum();
    ResponseData {
        status: 200,
        final_url: final_url.to_vec(),
        content_length: Some(total as u64),
        headers: Vec::new(),
        body,
    }
}

fn info_num(s: &Session, tok: usize, info: u64) -> i64 {
    match curl_easy_getinfo(s, tok, info) {
        Ok(InfoValue::Num(n)) => n,
        other => panic!("expected a numeric info value, got {:?}", other.is_ok()),
    }
}

#[test]
fn perform_without_url_is_successful_noop() {
    let mut s = Session::new();
    let tok = curl_easy_init(&mut s);
    let mut client = MockClient::silent();
    let mut host = RecordingHost::cooperative();
    let r = curl_easy_perform(&mut s, tok, &mut client, &mut host);
    assert_eq!(r, CURLE_OK);
    assert_eq!(client.calls, 0);
    assert!(host.writes.is_empty());
}

#[test]
fn perform_on_stale_handle_is_bad_argument() {
    let mut s = Session::new();
    let tok = curl_easy_init(&mut s);
    curl_easy_cleanup(&mut s, tok);
    let mut client = MockClient::silent();
    let mut host = RecordingHost::cooperative();
    let r = curl_easy_perform(&mut s, tok, &mut client, &mut host);
    assert_eq!(r, recurl::codes::CURLE_BAD_FUNCTION_ARGUMENT);
}

#[test]
fn redirected_transfer_populates_results_and_streams_body() {
    let mut s = Session::new();
    let tok = curl_easy_init(&mut s);
    assert_eq!(
        curl_easy_setopt(
            &mut s,
            tok,
            CURLOPT_URL,
            OptArg::Str(Some(b"http://example.test/ok".to_vec()))
        ),
        CURLE_OK
    );
    assert_eq!(
        curl_easy_setopt(&mut s, tok, CURLOPT_FOLLOWLOCATION, OptArg::Long(1)),
        CURLE_OK
    );
    assert_eq!(
        curl_easy_setopt(&mut s, tok, CURLOPT_WRITEFUNCTION, OptArg::Func(7)),
        CURLE_OK
    );
    // The mock client follows the one redirect itself and reports the final
    // URL, as the client capability is asked to do.
    let mut client = MockClient::with(ExchangeOutcome::Completed(ok_response(
        b"http://example.test/final",
        vec![b"hello".to_vec()],
    )));
    let mut host = RecordingHost::cooperative();
    let r = curl_easy_perform(&mut s, tok, &mut client, &mut host);
    assert_eq!(r, CURLE_OK);
    assert_eq!(client.calls, 1);
    assert_eq!(client.seen_url.as_deref(), Some(b"http://example.test/ok".as_slice()));
    assert_eq!(client.seen_method, Some(Method::Get));
    assert_eq!(client.seen_redirect_limit, Some(Some(30)));
    assert_eq!(client.seen_timeout, Some(Some(Timeout::Seconds(300))));
    // The write callback got exactly the body, through the configured token.
    assert_eq!(host.writes.len(), 1);
    assert_eq!(host.writes[0].0, 7);
    assert_eq!(host.writes[0].2, b"hello".to_vec());
    // Progress stays silent by default (no-progress is on).
    assert!(host.progress.is_empty());
    match curl_easy_getinfo(&s, tok, CURLINFO_EFFECTIVE_URL) {
        Ok(InfoValue::Text(url)) => assert_eq!(url, b"http://example.test/final".to_vec()),
        _ => panic!("expected the effective URL"),
    }
    assert_eq!(info_num(&s, tok, CURLINFO_RESPONSE_CODE), 200);
    assert_eq!(info_num(&s, tok, CURLINFO_SIZE_DOWNLOAD), 5);
    assert_eq!(info_num(&s, tok, CURLINFO_CONTENT_LENGTH_DOWNLOAD), 5);
}

#[test]
fn post_body_travels_with_form_content_type() {
    let mut s = Session::new();
    let tok = curl_easy_init(&mut s);
    curl_easy_setopt(
        &mut s,
        tok,
        CURLOPT_URL,
        OptArg::Str(Some(b"http://example.test/post".to_vec())),
    );
    curl_easy_setopt(
        &mut s,
        tok,
        CURLOPT_POSTFIELDS,
        OptArg::Str(Some(b"a=1".to_vec())),
    );
    let mut client =
        MockClient::with(ExchangeOutcome::Completed(ok_response(b"http://example.test/post", vec![])));
    let mut host = RecordingHost::cooperative();
    assert_eq!(curl_easy_perform(&mut s, tok, &mut client, &mut host), CURLE_OK);
    assert_eq!(client.seen_method, Some(Method::Post));
    assert_eq!(client.seen_body, Some(Some(b"a=1".to_vec())));
}

#[test]
fn headers_are_forwarded_in_wire_form() {
    let mut s = Session::new();
    let tok = curl_easy_init(&mut s);
    curl_easy_setopt(
        &mut s,
        tok,
        CURLOPT_URL,
        OptArg::Str(Some(b"http://example.test/".to_vec())),
    );
    curl_easy_setopt(&mut s, tok, CURLOPT_HEADERFUNCTION, OptArg::Func(9));
    curl_easy_setopt(&mut s, tok, CURLOPT_HEADERDATA, OptArg::Data(80));
    curl_easy_setopt(&mut s, tok, CURLOPT_WRITEFUNCTION, OptArg::Func(7));
    let mut data = ok_response(b"http://example.test/", vec![b"body".to_vec()]);
    data.headers = vec![
        HeaderField { name: b"content-type".to_vec(), value: b"text/html".to_vec() },
        HeaderField { name: b"server".to_vec(), value: b"mock".to_vec() },
    ];
    let mut client = MockClient::with(ExchangeOutcome::Completed(data));
    let mut host = RecordingHost::cooperative();
    assert_eq!(curl_easy_perform(&mut s, tok, &mut client, &mut host), CURLE_OK);
    assert_eq!(host.writes.len(), 3);
    assert_eq!(host.writes[0], (9, 80, b"content-type: text/html\r\n".to_vec()));
    assert_eq!(host.writes[1], (9, 80, b"server: mock\r\n".to_vec()));
    assert_eq!(host.writes[2], (7, 0, b"body".to_vec()));
}

#[test]
fn header_fallback_uses_write_function_when_only_data_is_set() {
    let mut s = Session::new();
    let tok = curl_easy_init(&mut s);
    curl_easy_setopt(
        &mut s,
        tok,
        CURLOPT_URL,
        OptArg::Str(Some(b"http://example.test/".to_vec())),
    );
    curl_easy_setopt(&mut s, tok, CURLOPT_WRITEFUNCTION, OptArg::Func(7));
    curl_easy_setopt(&mut s, tok, CURLOPT_HEADERDATA, OptArg::Data(80));
    let mut data = ok_response(b"http://example.test/", vec![]);
    data.headers = vec![HeaderField { name: b"server".to_vec(), value: b"mock".to_vec() }];
    let mut client = MockClient::with(ExchangeOutcome::Completed(data));
    let mut host = RecordingHost::cooperative();
    assert_eq!(curl_easy_perform(&mut s, tok, &mut client, &mut host), CURLE_OK);
    assert_eq!(host.writes.len(), 1);
    // The body-write callback token carries the header line, with the header
    // user data.
    assert_eq!(host.writes[0], (7, 80, b"server: mock\r\n".to_vec()));
}

#[test]
fn explicit_null_header_callback_disables_forwarding_despite_data() {
    let mut s = Session::new();
    let tok = curl_easy_init(&mut s);
    curl_easy_setopt(
        &mut s,
        tok,
        CURLOPT_URL,
        OptArg::Str(Some(b"http://example.test/".to_vec())),
    );
    curl_easy_setopt(&mut s, tok, CURLOPT_WRITEFUNCTION, OptArg::Func(7));
    curl_easy_setopt(&mut s, tok, CURLOPT_HEADERDATA, OptArg::Data(80));
    // Explicitly setting the header callback to null turns header forwarding
    // off, even though header user data is registered.
    curl_easy_setopt(&mut s, tok, CURLOPT_HEADERFUNCTION, OptArg::Func(0));
    let mut data = ok_response(b"http://example.test/", vec![b"body".to_vec()]);
    data.headers = vec![HeaderField { name: b"server".to_vec(), value: b"mock".to_vec() }];
    let mut client = MockClient::with(ExchangeOutcome::Completed(data));
    let mut host = RecordingHost::cooperative();
    assert_eq!(curl_easy_perform(&mut s, tok, &mut client, &mut host), CURLE_OK);
    // Only the body was written; no header line went anywhere.
    assert_eq!(host.writes.len(), 1);
    assert_eq!(host.writes[0], (7, 0, b"body".to_vec()));
}

#[test]
fn shortchanged_header_callback_fails_before_any_body_write() {
    let mut s = Session::new();
    let tok = curl_easy_init(&mut s);
    curl_easy_setopt(
        &mut s,
        tok,
        CURLOPT_URL,
        OptArg::Str(Some(b"http://example.test/".to_vec())),
    );
    curl_easy_setopt(&mut s, tok, CURLOPT_HEADERFUNCTION, OptArg::Func(9));
    curl_easy_setopt(&mut s, tok, CURLOPT_WRITEFUNCTION, OptArg::Func(7));
    let mut data = ok_response(b"http://example.test/", vec![b"never seen".to_vec()]);
    data.headers = vec![HeaderField { name: b"server".to_vec(), value: b"mock".to_vec() }];
    let mut client = MockClient::with(ExchangeOutcome::Completed(data));
    let mut host = RecordingHost::shortchanging(9);
    let r = curl_easy_perform(&mut s, tok, &mut client, &mut host);
    assert_eq!(r, CURLE_WRITE_ERROR);
    // Only the one header line was ever handed out; the body-write callback
    // was never invoked.
    assert_eq!(host.writes.len(), 1);
    assert_eq!(host.writes[0].0, 9);
    assert_eq!(info_num(&s, tok, CURLINFO_SIZE_DOWNLOAD), 0);
}

#[test]
fn shortchanged_body_callback_fails_the_transfer() {
    let mut s = Session::new();
    let tok = curl_easy_init(&mut s);
    curl_easy_setopt(
        &mut s,
        tok,
        CURLOPT_URL,
        OptArg::Str(Some(b"http://example.test/".to_vec())),
    );
    curl_easy_setopt(&mut s, tok, CURLOPT_WRITEFUNCTION, OptArg::Func(7));
    let mut client = MockClient::with(ExchangeOutcome::Completed(ok_response(
        b"http://example.test/",
        vec![b"chunk".to_vec()],
    )));
    let mut host = RecordingHost::shortchanging(7);
    let r = curl_easy_perform(&mut s, tok, &mut client, &mut host);
    assert_eq!(r, CURLE_WRITE_ERROR);
}

#[test]
fn progress_reports_cumulative_sizes_per_chunk() {
    let mut s = Session::new();
    let tok = curl_easy_init(&mut s);
    curl_easy_setopt(
        &mut s,
        tok,
        CURLOPT_URL,
        OptArg::Str(Some(b"http://example.test/".to_vec())),
    );
    curl_easy_setopt(&mut s, tok, CURLOPT_NOPROGRESS, OptArg::Long(0));
    curl_easy_setopt(
        &mut s,
        tok,
        recurl::codes::CURLOPT_XFERINFOFUNCTION,
        OptArg::Func(5),
    );
    curl_easy_setopt(
        &mut s,
        tok,
        recurl::codes::CURLOPT_XFERINFODATA,
        OptArg::Data(50),
    );
    let mut data = ok_response(b"http://example.test/", vec![b"abc".to_vec(), b"de".to_vec()]);
    data.content_length = Some(5);
    let mut client = MockClient::with(ExchangeOutcome::Completed(data));
    let mut host = RecordingHost::cooperative();
    assert_eq!(curl_easy_perform(&mut s, tok, &mut client, &mut host), CURLE_OK);
    assert_eq!(host.progress, vec![(5, 50, 5, 3), (5, 50, 5, 5)]);
    assert_eq!(info_num(&s, tok, CURLINFO_SIZE_DOWNLOAD), 5);
}

#[test]
fn transport_failure_reports_error_text() {
    let mut s = Session::new();
    let tok = curl_easy_init(&mut s);
    curl_easy_setopt(
        &mut s,
        tok,
        CURLOPT_ERRORBUFFER,
        OptArg::Buf(Some(vec![0u8; CURL_ERROR_SIZE])),
    );
    curl_easy_setopt(
        &mut s,
        tok,
        CURLOPT_URL,
        OptArg::Str(Some(b"http://unreachable.test/".to_vec())),
    );
    let mut client = MockClient::with(ExchangeOutcome::Failed(b"connection refused".to_vec()));
    let mut host = RecordingHost::cooperative();
    let r = curl_easy_perform(&mut s, tok, &mut client, &mut host);
    assert_eq!(r, CURLE_HTTP_RETURNED_ERROR);
    let c = s.handles.borrow_raw(tok).expect("live");
    let region = c.error_buffer.value.buffer_bytes().expect("registered");
    let end = region.iter().position(|&b| b == 0).expect("terminated");
    assert_eq!(&region[..end], b"connection refused");
    // No response fields were populated.
    assert_eq!(c.infos.response_code, 0);
    assert!(c.infos.last_effective_url.is_none());
}

#[test]
fn file_time_is_parsed_only_when_asked_for() {
    let mut s = Session::new();
    let tok = curl_easy_init(&mut s);
    curl_easy_setopt(
        &mut s,
        tok,
        CURLOPT_URL,
        OptArg::Str(Some(b"http://example.test/".to_vec())),
    );
    curl_easy_setopt(&mut s, tok, CURLOPT_FILETIME, OptArg::Long(1));
    let mut data = ok_response(b"http://example.test/", vec![]);
    data.headers = vec![HeaderField {
        name: b"Last-Modified".to_vec(),
        value: b"  Wed, 18 Feb 2015 23:16:09 GMT  ".to_vec(),
    }];
    let mut client = MockClient::with(ExchangeOutcome::Completed(data));
    let mut host = RecordingHost::cooperative();
    assert_eq!(curl_easy_perform(&mut s, tok, &mut client, &mut host), CURLE_OK);
    assert_eq!(info_num(&s, tok, CURLINFO_FILETIME), 1424301369);
}

#[test]
fn absent_or_unparsable_file_time_reads_minus_one() {
    let mut s = Session::new();
    let tok = curl_easy_init(&mut s);
    curl_easy_setopt(
        &mut s,
        tok,
        CURLOPT_URL,
        OptArg::Str(Some(b"http://example.test/".to_vec())),
    );
    curl_easy_setopt(&mut s, tok, CURLOPT_FILETIME, OptArg::Long(1));
    let mut data = ok_response(b"http://example.test/", vec![]);
    data.headers = vec![HeaderField {
        name: b"last-modified".to_vec(),
        value: b"not a date at all".to_vec(),
    }];
    let mut client = MockClient::with(ExchangeOutcome::Completed(data));
    let mut host = RecordingHost::cooperative();
    assert_eq!(curl_easy_perform(&mut s, tok, &mut client, &mut host), CURLE_OK);
    assert_eq!(info_num(&s, tok, CURLINFO_FILETIME), -1);
}
