//! Result-code description text and the info getter's identifier handling.

use recurl::codes::{
    curl_easy_strerror, CURLE_BAD_FUNCTION_ARGUMENT, CURLE_NOT_BUILT_IN, CURLE_OK,
    CURLE_UNKNOWN_OPTION, CURLINFO_CONDITION_UNMET, CURLINFO_EFFECTIVE_URL, CURLINFO_FILETIME,
    CURLINFO_RESPONSE_CODE,
};
use recurl::easy::{curl_easy_cleanup, curl_easy_getinfo, curl_easy_init, Session};
use recurl::easy::curl_global_init;
use recurl::info::InfoValue;

#[test]
fn strerror_describes_the_known_codes() {
    assert_eq!(curl_easy_strerror(CURLE_BAD_FUNCTION_ARGUMENT), "Bad function argument");
    assert_eq!(curl_easy_strerror(CURLE_UNKNOWN_OPTION), "Unknown option");
    assert_eq!(curl_easy_strerror(CURLE_NOT_BUILT_IN), "Not built-in");
    assert_eq!(curl_easy_strerror(CURLE_OK), "Unknown error code");
    assert_eq!(curl_easy_strerror(9999), "Unknown error code");
}

#[test]
fn global_init_always_succeeds() {
    assert_eq!(curl_global_init(0), CURLE_OK);
    assert_eq!(curl_global_init(3), CURLE_OK);
}

#[test]
fn getinfo_on_fresh_handle_reads_defaults() {
    let mut s = Session::new();
    let tok = curl_easy_init(&mut s);
    match curl_easy_getinfo(&s, tok, CURLINFO_EFFECTIVE_URL) {
        Ok(InfoValue::Text(v)) => assert!(v.is_empty()),
        _ => panic!("expected empty effective URL"),
    }
    match curl_easy_getinfo(&s, tok, CURLINFO_FILETIME) {
        Ok(InfoValue::Num(n)) => assert_eq!(n, -1),
        _ => panic!("expected a number"),
    }
    match curl_easy_getinfo(&s, tok, CURLINFO_RESPONSE_CODE) {
        Ok(InfoValue::Num(n)) => assert_eq!(n, 0),
        _ => panic!("expected a number"),
    }
    // The condition-unmet placeholder always reports "unmet".
    match curl_easy_getinfo(&s, tok, CURLINFO_CONDITION_UNMET) {
        Ok(InfoValue::Num(n)) => assert_eq!(n, 1),
        _ => panic!("expected a number"),
    }
}

#[test]
fn getinfo_rejects_unknown_identifiers_and_stale_handles() {
    let mut s = Session::new();
    let tok = curl_easy_init(&mut s);
    assert_eq!(
        curl_easy_getinfo(&s, tok, 123456).err(),
        Some(CURLE_BAD_FUNCTION_ARGUMENT)
    );
    curl_easy_cleanup(&mut s, tok);
    assert_eq!(
        curl_easy_getinfo(&s, tok, CURLINFO_RESPONSE_CODE).err(),
        Some(CURLE_BAD_FUNCTION_ARGUMENT)
    );
}
