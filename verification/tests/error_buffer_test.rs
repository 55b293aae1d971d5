//! Bounded error write-back: truncation to capacity - 1 bytes plus a zero
//! terminator, and the no-op path with no region registered.

use recurl::codes::{CURLE_OK, CURL_ERROR_SIZE};
use recurl::error::ErrorBuffer;

#[test]
fn unregistered_write_is_noop_returning_code() {
    let mut buf = ErrorBuffer::new();
    assert!(buf.buffer_bytes().is_none());
    let r = buf.set_error(22, b"transport broke");
    assert_eq!(r, 22);
    assert!(buf.buffer_bytes().is_none());
}

#[test]
fn short_message_is_written_whole_and_terminated() {
    let mut buf = ErrorBuffer::new();
    buf.set_buffer(Some(vec![0xaa; CURL_ERROR_SIZE]));
    let r = buf.set_error(3, b"boom");
    assert_eq!(r, 3);
    let region = buf.buffer_bytes().expect("registered");
    assert_eq!(region.len(), CURL_ERROR_SIZE);
    assert_eq!(&region[..4], b"boom");
    assert_eq!(region[4], 0);
    // Bytes beyond the terminator keep their old content.
    assert_eq!(region[5], 0xaa);
    assert_eq!(region[CURL_ERROR_SIZE - 1], 0xaa);
}

#[test]
fn long_message_truncates_to_capacity_minus_one() {
    let mut buf = ErrorBuffer::new();
    buf.set_buffer(Some(vec![0u8; CURL_ERROR_SIZE]));
    let msg = vec![b'x'; 400];
    let r = buf.set_error(23, &msg);
    assert_eq!(r, 23);
    let region = buf.buffer_bytes().expect("registered");
    assert_eq!(region.len(), CURL_ERROR_SIZE);
    assert!(region[..CURL_ERROR_SIZE - 1].iter().all(|&b| b == b'x'));
    assert_eq!(region[CURL_ERROR_SIZE - 1], 0);
}

#[test]
fn boundary_message_of_capacity_minus_one_fits_exactly() {
    let mut buf = ErrorBuffer::new();
    buf.set_buffer(Some(vec![9u8; CURL_ERROR_SIZE]));
    let msg = vec![b'y'; CURL_ERROR_SIZE - 1];
    assert_eq!(buf.set_error(CURLE_OK, &msg), CURLE_OK);
    let region = buf.buffer_bytes().expect("registered");
    assert!(region[..CURL_ERROR_SIZE - 1].iter().all(|&b| b == b'y'));
    assert_eq!(region[CURL_ERROR_SIZE - 1], 0);
}

#[test]
fn replacing_the_region_retargets_later_writes() {
    let mut buf = ErrorBuffer::new();
    buf.set_buffer(Some(vec![0u8; CURL_ERROR_SIZE]));
    buf.set_error(1, b"first");
    buf.set_buffer(Some(vec![1u8; CURL_ERROR_SIZE]));
    buf.set_error(2, b"second");
    let region = buf.buffer_bytes().expect("registered");
    assert_eq!(&region[..6], b"second");
    assert_eq!(region[6], 0);
    buf.set_buffer(None);
    assert!(buf.buffer_bytes().is_none());
    assert_eq!(buf.set_error(4, b"gone"), 4);
}
