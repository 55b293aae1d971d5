//! The mutable record of transfer results one handle owns, and the typed
//! info getter over it. Populated fields reflect the most recent perform
//! call; they are never retroactively cleared except by reset.

use vstd::prelude::*;

use crate::codes::CURLE_BAD_FUNCTION_ARGUMENT;
use crate::codes::CURLINFO_CONDITION_UNMET;
use crate::codes::CURLINFO_CONTENT_LENGTH_DOWNLOAD;
use crate::codes::CURLINFO_EFFECTIVE_URL;
use crate::codes::CURLINFO_FILETIME;
use crate::codes::CURLINFO_RESPONSE_CODE;
use crate::codes::CURLINFO_SIZE_DOWNLOAD;
use crate::text::clone_bytes;

verus! {

/// Transfer results of the most recent perform call.
pub struct Infos {
    /// The last effective URL, after any redirects were followed.
    pub last_effective_url: Option<Vec<u8>>,
    /// The HTTP status code of the response.
    pub response_code: u16,
    /// The download size the peer declared, when it declared one.
    pub content_length_download: Option<u64>,
    /// How many body bytes were actually transferred.
    pub size_download: u64,
    /// The parsed file-modification time, when it was asked for and parsed.
    pub file_time: Option<i64>,
}

/// The empty result record a new or reset handle starts from.
pub open spec fn default_infos() -> Infos {
    Infos {
        last_effective_url: None,
        response_code: 0,
        content_length_download: None,
        size_download: 0,
        file_time: None,
    }
}

/// One value handed back by the info getter.
pub enum InfoValue {
    Text(Vec<u8>),
    Num(i64),
}

/// Whether the info getter recognizes this info identifier.
pub open spec fn recognized_info(info: u64) -> bool {
    ||| info == CURLINFO_EFFECTIVE_URL
    ||| info == CURLINFO_FILETIME
    ||| info == CURLINFO_CONTENT_LENGTH_DOWNLOAD
    ||| info == CURLINFO_SIZE_DOWNLOAD
    ||| info == CURLINFO_RESPONSE_CODE
    ||| info == CURLINFO_CONDITION_UNMET
}

/// A download size read back as a signed long, as the underlying conversion
/// does: a value past the signed range wraps to its two's-complement reading.
pub open spec fn u64_as_long(v: u64) -> i64 {
    if v <= i64::MAX {
        v as i64
    } else {
        (v - 0x10000000000000000) as i64
    }
}

fn to_i64_wrapping(v: u64) -> (r: i64)
    ensures
        r == u64_as_long(v),
{
    if v <= 0x7fffffffffffffff {
        v as i64
    } else {
        ((v - 0x8000000000000000) as i64) + i64::MIN
    }
}

impl Infos {
    pub fn new() -> (r: Self)
        ensures
            r == default_infos(),
    {
        Self {
            last_effective_url: None,
            response_code: 0,
            content_length_download: None,
            size_download: 0,
            file_time: None,
        }
    }

}

/// Exactly what the info getter yields over a result record: the recognized
/// identifiers give the documented field readings, every other identifier
/// fails with "bad function argument".
pub open spec fn getinfo_post(infos: Infos, info: u64, r: Result<InfoValue, u32>) -> bool {
    &&& (r is Ok <==> recognized_info(info))
    &&& (r is Err ==> r == Result::<InfoValue, u32>::Err(CURLE_BAD_FUNCTION_ARGUMENT))
    &&& (info == CURLINFO_EFFECTIVE_URL ==> ({
        &&& r matches Ok(InfoValue::Text(v))
        &&& v@ == (match infos.last_effective_url {
            Some(u) => u@,
            None => Seq::<u8>::empty(),
        })
    }))
    &&& (info == CURLINFO_FILETIME ==> ({
        &&& r matches Ok(InfoValue::Num(n))
        &&& n == (match infos.file_time {
            Some(t) => t,
            None => -1i64,
        })
    }))
    &&& (info == CURLINFO_CONTENT_LENGTH_DOWNLOAD ==> ({
        &&& r matches Ok(InfoValue::Num(n))
        &&& n == (match infos.content_length_download {
            Some(l) => if l <= i64::MAX {
                l as i64
            } else {
                -1i64
            },
            None => -1i64,
        })
    }))
    &&& (info == CURLINFO_SIZE_DOWNLOAD ==> ({
        &&& r matches Ok(InfoValue::Num(n))
        &&& n == u64_as_long(infos.size_download)
    }))
    &&& (info == CURLINFO_RESPONSE_CODE ==> ({
        &&& r matches Ok(InfoValue::Num(n))
        &&& n == infos.response_code as i64
    }))
    &&& (info == CURLINFO_CONDITION_UNMET ==> ({
        &&& r matches Ok(InfoValue::Num(n))
        &&& n == 1
    }))
}

impl Infos {
    /// Retrieves one result field by its info identifier; see `getinfo_post`
    /// for exactly what each identifier yields.
    pub fn getinfo(&self, info: u64) -> (r: Result<InfoValue, u32>)
        ensures
            getinfo_post(*self, info, r),
    {
        if info == CURLINFO_EFFECTIVE_URL {
            let v = match &self.last_effective_url {
                Some(u) => clone_bytes(u),
                None => Vec::new(),
            };
            Ok(InfoValue::Text(v))
        } else if info == CURLINFO_FILETIME {
            let n = match self.file_time {
                Some(t) => t,
                None => -1,
            };
            Ok(InfoValue::Num(n))
        } else if info == CURLINFO_CONTENT_LENGTH_DOWNLOAD {
            let n = match self.content_length_download {
                Some(l) => if l <= 0x7fffffffffffffff {
                    l as i64
                } else {
                    -1
                },
                None => -1,
            };
            Ok(InfoValue::Num(n))
        } else if info == CURLINFO_SIZE_DOWNLOAD {
            Ok(InfoValue::Num(to_i64_wrapping(self.size_download)))
        } else if info == CURLINFO_RESPONSE_CODE {
            Ok(InfoValue::Num(self.response_code as i64))
        } else if info == CURLINFO_CONDITION_UNMET {
            Ok(InfoValue::Num(1))
        } else {
            Err(CURLE_BAD_FUNCTION_ARGUMENT)
        }
    }
}

} // verus!
