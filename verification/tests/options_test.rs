//! Option decoding and dispatch: defaults, reset, unknown options, the two
//! timeout zero semantics, body/method stickiness, and URL validation.

use recurl::codes::{
    CURLE_BAD_FUNCTION_ARGUMENT, CURLE_OK, CURLE_UNKNOWN_OPTION, CURLE_URL_MALFORMAT,
    CURLOPT_CONNECTTIMEOUT, CURLOPT_CONNECTTIMEOUT_MS, CURLOPT_ERRORBUFFER,
    CURLOPT_FILETIME, CURLOPT_FOLLOWLOCATION, CURLOPT_HEADERDATA, CURLOPT_HEADERFUNCTION,
    CURLOPT_NOPROGRESS, CURLOPT_POSTFIELDS, CURLOPT_URL, CURLOPT_WRITEDATA,
    CURLOPT_WRITEFUNCTION, CURL_ERROR_SIZE,
};
use recurl::curl::CURL;
use recurl::easy::{curl_easy_init, curl_easy_reset, curl_easy_setopt, Session};
use recurl::handle::BorrowRaw;
use recurl::options::{HeaderCallback, Method, OptArg, Timeout};

fn handle<'a>(s: &'a Session, tok: usize) -> &'a CURL {
    s.handles.borrow_raw(tok).expect("handle should be live")
}

#[test]
fn defaults_after_init() {
    let mut s = Session::new();
    let tok = curl_easy_init(&mut s);
    let c = handle(&s, tok);
    assert!(c.options.url.is_none());
    assert!(!c.options.follow_location);
    assert!(c.options.post_fields.is_none());
    assert_eq!(c.options.method, Method::Get);
    assert_eq!(c.options.connect_timeout, Some(Timeout::Seconds(300)));
    assert!(!c.options.file_time);
    assert!(c.options.no_progress);
    assert_eq!(c.options.write_function, 0);
    assert_eq!(c.options.header_function, HeaderCallback::Unset);
    assert_eq!(c.infos.response_code, 0);
    assert_eq!(c.infos.size_download, 0);
}

#[test]
fn url_set_and_clear() {
    let mut s = Session::new();
    let tok = curl_easy_init(&mut s);
    let r = curl_easy_setopt(
        &mut s,
        tok,
        CURLOPT_URL,
        OptArg::Str(Some(b"http://example.test/".to_vec())),
    );
    assert_eq!(r, CURLE_OK);
    assert_eq!(
        handle(&s, tok).options.url,
        Some(b"http://example.test/".to_vec())
    );
    let r = curl_easy_setopt(&mut s, tok, CURLOPT_URL, OptArg::Str(None));
    assert_eq!(r, CURLE_OK);
    assert!(handle(&s, tok).options.url.is_none());
}

#[test]
fn invalid_utf8_url_is_malformat_and_reports() {
    let mut s = Session::new();
    let tok = curl_easy_init(&mut s);
    let r = curl_easy_setopt(
        &mut s,
        tok,
        CURLOPT_ERRORBUFFER,
        OptArg::Buf(Some(vec![0u8; CURL_ERROR_SIZE])),
    );
    assert_eq!(r, CURLE_OK);
    let r = curl_easy_setopt(
        &mut s,
        tok,
        CURLOPT_URL,
        OptArg::Str(Some(vec![0xff, 0xfe, 0x01])),
    );
    assert_eq!(r, CURLE_URL_MALFORMAT);
    let c = handle(&s, tok);
    assert!(c.options.url.is_none());
    let region = c
        .error_buffer
        .value
        .buffer_bytes()
        .expect("a region is registered");
    let end = region.iter().position(|&b| b == 0).expect("terminated");
    let text = std::str::from_utf8(&region[..end]).expect("message is UTF-8");
    assert_eq!(text, "URL is not valid UTF-8");
}

#[test]
fn boolean_options_accept_only_literal_one() {
    let mut s = Session::new();
    let tok = curl_easy_init(&mut s);
    assert_eq!(
        curl_easy_setopt(&mut s, tok, CURLOPT_FOLLOWLOCATION, OptArg::Long(1)),
        CURLE_OK
    );
    assert!(handle(&s, tok).options.follow_location);
    assert_eq!(
        curl_easy_setopt(&mut s, tok, CURLOPT_FOLLOWLOCATION, OptArg::Long(2)),
        CURLE_OK
    );
    assert!(!handle(&s, tok).options.follow_location);
    assert_eq!(
        curl_easy_setopt(&mut s, tok, CURLOPT_FILETIME, OptArg::Long(1)),
        CURLE_OK
    );
    assert!(handle(&s, tok).options.file_time);
    assert_eq!(
        curl_easy_setopt(&mut s, tok, CURLOPT_NOPROGRESS, OptArg::Long(0)),
        CURLE_OK
    );
    assert!(!handle(&s, tok).options.no_progress);
}

#[test]
fn post_body_flips_method_and_stays_sticky() {
    let mut s = Session::new();
    let tok = curl_easy_init(&mut s);
    assert_eq!(handle(&s, tok).options.method, Method::Get);
    let r = curl_easy_setopt(
        &mut s,
        tok,
        CURLOPT_POSTFIELDS,
        OptArg::Str(Some(b"a=1&b=2".to_vec())),
    );
    assert_eq!(r, CURLE_OK);
    assert_eq!(handle(&s, tok).options.method, Method::Post);
    assert_eq!(handle(&s, tok).options.post_fields, Some(b"a=1&b=2".to_vec()));
    // Clearing the payload must not revert the method.
    let r = curl_easy_setopt(&mut s, tok, CURLOPT_POSTFIELDS, OptArg::Str(None));
    assert_eq!(r, CURLE_OK);
    assert_eq!(handle(&s, tok).options.method, Method::Post);
    assert!(handle(&s, tok).options.post_fields.is_none());
    // Unrelated option writes must not revert it either.
    let r = curl_easy_setopt(
        &mut s,
        tok,
        CURLOPT_URL,
        OptArg::Str(Some(b"http://example.test/".to_vec())),
    );
    assert_eq!(r, CURLE_OK);
    assert_eq!(handle(&s, tok).options.method, Method::Post);
}

#[test]
fn timeout_zero_semantics_differ() {
    let mut s = Session::new();
    let tok = curl_easy_init(&mut s);
    // Milliseconds zero disables the timeout entirely.
    assert_eq!(
        curl_easy_setopt(&mut s, tok, CURLOPT_CONNECTTIMEOUT_MS, OptArg::Long(0)),
        CURLE_OK
    );
    assert_eq!(handle(&s, tok).options.connect_timeout, None);
    // Seconds zero restores the 300-second default.
    assert_eq!(
        curl_easy_setopt(&mut s, tok, CURLOPT_CONNECTTIMEOUT, OptArg::Long(0)),
        CURLE_OK
    );
    assert_eq!(
        handle(&s, tok).options.connect_timeout,
        Some(Timeout::Seconds(300))
    );
    // Nonzero values are taken at their granularity; last write wins.
    assert_eq!(
        curl_easy_setopt(&mut s, tok, CURLOPT_CONNECTTIMEOUT_MS, OptArg::Long(1500)),
        CURLE_OK
    );
    assert_eq!(
        handle(&s, tok).options.connect_timeout,
        Some(Timeout::Millis(1500))
    );
    assert_eq!(
        curl_easy_setopt(&mut s, tok, CURLOPT_CONNECTTIMEOUT, OptArg::Long(7)),
        CURLE_OK
    );
    assert_eq!(
        handle(&s, tok).options.connect_timeout,
        Some(Timeout::Seconds(7))
    );
}

#[test]
fn negative_timeout_wraps_to_its_unsigned_reading() {
    let mut s = Session::new();
    let tok = curl_easy_init(&mut s);
    assert_eq!(
        curl_easy_setopt(&mut s, tok, CURLOPT_CONNECTTIMEOUT, OptArg::Long(-1)),
        CURLE_OK
    );
    assert_eq!(
        handle(&s, tok).options.connect_timeout,
        Some(Timeout::Seconds(u64::MAX))
    );
    assert_eq!(
        curl_easy_setopt(&mut s, tok, CURLOPT_CONNECTTIMEOUT_MS, OptArg::Long(-2)),
        CURLE_OK
    );
    assert_eq!(
        handle(&s, tok).options.connect_timeout,
        Some(Timeout::Millis(u64::MAX - 1))
    );
}

#[test]
fn unknown_option_leaves_store_unchanged() {
    let mut s = Session::new();
    let tok = curl_easy_init(&mut s);
    assert_eq!(
        curl_easy_setopt(
            &mut s,
            tok,
            CURLOPT_URL,
            OptArg::Str(Some(b"http://kept.test/".to_vec()))
        ),
        CURLE_OK
    );
    let before_url = handle(&s, tok).options.url.clone();
    let before_method = handle(&s, tok).options.method;
    let before_timeout = handle(&s, tok).options.connect_timeout;
    let r = curl_easy_setopt(&mut s, tok, 999_999, OptArg::Long(1));
    assert_eq!(r, CURLE_UNKNOWN_OPTION);
    let c = handle(&s, tok);
    assert_eq!(c.options.url, before_url);
    assert_eq!(c.options.method, before_method);
    assert_eq!(c.options.connect_timeout, before_timeout);
}

#[test]
fn wrong_argument_shape_is_bad_function_argument() {
    let mut s = Session::new();
    let tok = curl_easy_init(&mut s);
    let r = curl_easy_setopt(&mut s, tok, CURLOPT_URL, OptArg::Long(5));
    assert_eq!(r, CURLE_BAD_FUNCTION_ARGUMENT);
    assert!(handle(&s, tok).options.url.is_none());
}

#[test]
fn callback_tokens_are_stored() {
    let mut s = Session::new();
    let tok = curl_easy_init(&mut s);
    assert_eq!(
        curl_easy_setopt(&mut s, tok, CURLOPT_WRITEFUNCTION, OptArg::Func(7)),
        CURLE_OK
    );
    assert_eq!(
        curl_easy_setopt(&mut s, tok, CURLOPT_WRITEDATA, OptArg::Data(40)),
        CURLE_OK
    );
    assert_eq!(
        curl_easy_setopt(&mut s, tok, CURLOPT_HEADERFUNCTION, OptArg::Func(9)),
        CURLE_OK
    );
    assert_eq!(
        curl_easy_setopt(&mut s, tok, CURLOPT_HEADERDATA, OptArg::Data(41)),
        CURLE_OK
    );
    let c = handle(&s, tok);
    assert_eq!(c.options.write_function, 7);
    assert_eq!(c.options.write_data, 40);
    assert_eq!(c.options.header_function, HeaderCallback::Func(9));
    assert_eq!(c.options.header_data, 41);
    // A null header function is remembered as explicitly null: forwarding is
    // off, and the fallback no longer applies.
    assert_eq!(
        curl_easy_setopt(&mut s, tok, CURLOPT_HEADERFUNCTION, OptArg::Func(0)),
        CURLE_OK
    );
    assert_eq!(handle(&s, tok).options.header_function, HeaderCallback::Null);
}

#[test]
fn reset_restores_defaults_but_keeps_registration() {
    let mut s = Session::new();
    let tok = curl_easy_init(&mut s);
    assert_eq!(
        curl_easy_setopt(
            &mut s,
            tok,
            CURLOPT_ERRORBUFFER,
            OptArg::Buf(Some(vec![7u8; CURL_ERROR_SIZE]))
        ),
        CURLE_OK
    );
    assert_eq!(
        curl_easy_setopt(
            &mut s,
            tok,
            CURLOPT_POSTFIELDS,
            OptArg::Str(Some(b"x".to_vec()))
        ),
        CURLE_OK
    );
    assert_eq!(
        curl_easy_setopt(&mut s, tok, CURLOPT_CONNECTTIMEOUT_MS, OptArg::Long(0)),
        CURLE_OK
    );
    curl_easy_reset(&mut s, tok);
    let c = handle(&s, tok);
    assert!(c.options.url.is_none());
    assert_eq!(c.options.method, Method::Get);
    assert!(c.options.post_fields.is_none());
    assert_eq!(c.options.connect_timeout, Some(Timeout::Seconds(300)));
    assert!(c.options.no_progress);
    assert_eq!(c.infos.response_code, 0);
    // The error-region registration lives in the sink, outside the store.
    assert!(c.error_buffer.value.buffer_bytes().is_some());
    // The identity stays usable.
    assert_eq!(
        curl_easy_setopt(&mut s, tok, CURLOPT_FOLLOWLOCATION, OptArg::Long(1)),
        CURLE_OK
    );
}

#[test]
fn stale_handle_token_is_bad_argument() {
    let mut s = Session::new();
    let tok = curl_easy_init(&mut s);
    recurl::easy::curl_easy_cleanup(&mut s, tok);
    let r = curl_easy_setopt(&mut s, tok, CURLOPT_FOLLOWLOCATION, OptArg::Long(1));
    assert_eq!(r, CURLE_BAD_FUNCTION_ARGUMENT);
    let r = curl_easy_setopt(&mut s, 99, CURLOPT_FOLLOWLOCATION, OptArg::Long(1));
    assert_eq!(r, CURLE_BAD_FUNCTION_ARGUMENT);
}
