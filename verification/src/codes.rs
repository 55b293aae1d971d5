//! Result codes, option identifiers and info identifiers of the transfer
//! interface, with the static description text of each result code.

use vstd::prelude::*;

verus! {

/// The transfer completed, or the call did what was asked.
pub const CURLE_OK: u32 = 0;

/// The configured URL text is not decodable.
pub const CURLE_URL_MALFORMAT: u32 = 3;

/// The asked-for feature is not built into this library.
pub const CURLE_NOT_BUILT_IN: u32 = 4;

/// A transport-level failure while sending or receiving.
pub const CURLE_HTTP_RETURNED_ERROR: u32 = 22;

/// A callback consumed fewer bytes than it was given.
pub const CURLE_WRITE_ERROR: u32 = 23;

/// A null or invalid handle, or an unrecognized info identifier.
pub const CURLE_BAD_FUNCTION_ARGUMENT: u32 = 43;

/// An unrecognized option identifier was passed to the option setter.
pub const CURLE_UNKNOWN_OPTION: u32 = 48;

/// The fixed capacity, in bytes, of a caller-registered error buffer.
pub const CURL_ERROR_SIZE: usize = 256;

/// Sentinel length meaning "compute the length by scanning for the zero
/// terminator" when handing a byte payload to a mime part.
pub const CURL_ZERO_TERMINATED: usize = usize::MAX - 1;

// Option identifiers recognized by the option setter. The numeric values
// follow the de-facto standard encoding: plain long-valued options count from
// 0, object-pointer options from 10000, function-pointer options from 20000.
pub const CURLOPT_URL: u64 = 10002;
pub const CURLOPT_FOLLOWLOCATION: u64 = 52;
pub const CURLOPT_POSTFIELDS: u64 = 10015;
pub const CURLOPT_ERRORBUFFER: u64 = 10010;
pub const CURLOPT_CONNECTTIMEOUT: u64 = 78;
pub const CURLOPT_CONNECTTIMEOUT_MS: u64 = 156;
pub const CURLOPT_FILETIME: u64 = 69;
pub const CURLOPT_NOPROGRESS: u64 = 43;
pub const CURLOPT_WRITEFUNCTION: u64 = 20011;
pub const CURLOPT_WRITEDATA: u64 = 10001;
pub const CURLOPT_HEADERFUNCTION: u64 = 20079;
pub const CURLOPT_HEADERDATA: u64 = 10029;
pub const CURLOPT_XFERINFOFUNCTION: u64 = 20219;
pub const CURLOPT_XFERINFODATA: u64 = 10057;

// Info identifiers recognized by the info getter. String-valued identifiers
// count from 0x100000, long-valued from 0x200000, and two identifiers kept
// for compatibility from 0x300000.
pub const CURLINFO_EFFECTIVE_URL: u64 = 1048577;
pub const CURLINFO_RESPONSE_CODE: u64 = 2097154;
pub const CURLINFO_FILETIME: u64 = 2097166;
pub const CURLINFO_SIZE_DOWNLOAD: u64 = 3145736;
pub const CURLINFO_CONTENT_LENGTH_DOWNLOAD: u64 = 3145743;
pub const CURLINFO_CONDITION_UNMET: u64 = 2097187;

/// Static description text for a result code; codes without a description of
/// their own share one fallback text.
pub fn curl_easy_strerror(code: u32) -> (r: &'static str)
    ensures
        code == CURLE_BAD_FUNCTION_ARGUMENT ==> r@ == "Bad function argument"@,
        code == CURLE_UNKNOWN_OPTION ==> r@ == "Unknown option"@,
        code == CURLE_NOT_BUILT_IN ==> r@ == "Not built-in"@,
        (code != CURLE_BAD_FUNCTION_ARGUMENT && code != CURLE_UNKNOWN_OPTION
            && code != CURLE_NOT_BUILT_IN) ==> r@ == "Unknown error code"@,
{
    if code == CURLE_BAD_FUNCTION_ARGUMENT {
        "Bad function argument"
    } else if code == CURLE_UNKNOWN_OPTION {
        "Unknown option"
    } else if code == CURLE_NOT_BUILT_IN {
        "Not built-in"
    } else {
        "Unknown error code"
    }
}

} // verus!
