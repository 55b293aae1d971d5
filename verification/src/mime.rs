//! Mime bodies under construction: an append-only container of parts, each
//! holding optional name, declared content type and raw payload. Builder and
//! parts keep only a non-owning key to the spawning handle's error sink, so
//! error reporting after the handle is destroyed degrades to a silent no-op.

use vstd::prelude::*;

use crate::curl::CURL;
use crate::share::Weak;

verus! {

/// One named / typed / data-bearing segment of a multipart body.
#[allow(non_camel_case_types)]
pub struct curl_mimepart {
    pub name: Option<Vec<u8>>,
    pub data: Option<Vec<u8>>,
    pub mime_type: Option<Vec<u8>>,
    /// Non-owning key to the spawning handle's error sink.
    pub error_buffer: Weak,
}

impl curl_mimepart {
    pub fn new(error_buffer: Weak) -> (r: Self)
        ensures
            r.name is None,
            r.data is None,
            r.mime_type is None,
            r.error_buffer == error_buffer,
    {
        Self { name: None, data: None, mime_type: None, error_buffer }
    }

    pub fn set_data(&mut self, data: Option<Vec<u8>>)
        ensures
            *final(self) == (curl_mimepart { data, ..*old(self) }),
    {
        self.data = data;
    }

    pub fn set_name(&mut self, name: Option<Vec<u8>>)
        ensures
            *final(self) == (curl_mimepart { name, ..*old(self) }),
    {
        self.name = name;
    }

    pub fn set_mime_type(&mut self, mime_type: Option<Vec<u8>>)
        ensures
            *final(self) == (curl_mimepart { mime_type, ..*old(self) }),
    {
        self.mime_type = mime_type;
    }
}

/// A multipart body under construction.
#[allow(non_camel_case_types)]
pub struct curl_mime {
    pub parts: Vec<curl_mimepart>,
    /// Non-owning key to the spawning handle's error sink; empty when the
    /// builder was created without a handle.
    pub error_buffer: Weak,
}

impl curl_mime {
    /// A builder spawned from a possibly-absent handle: with a handle it
    /// shares that handle's error sink by key, without one it never reports.
    pub fn new(curl: Option<&CURL>) -> (r: Self)
        ensures
            r.parts@.len() == 0,
            r.error_buffer.key == (match curl {
                Some(c) => Some(c.error_buffer.key),
                None => None::<u64>,
            }),
    {
        let error_buffer = match curl {
            Some(c) => c.error_buffer.weak(),
            None => Weak::empty(),
        };
        Self { parts: Vec::new(), error_buffer }
    }

    /// Appends one part; parts are only ever added, never moved or dropped
    /// singly, so a part index stays good for the builder's whole life.
    pub fn add_part(&mut self, part: curl_mimepart)
        ensures
            final(self).parts@ == old(self).parts@.push(part),
            final(self).error_buffer == old(self).error_buffer,
    {
        self.parts.push(part);
    }
}

} // verus!
