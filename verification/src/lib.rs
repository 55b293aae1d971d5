//! A verified core for an "easy handle" HTTP transfer interface: an opaque
//! handle is created, configured through typed option values, performs one
//! blocking transfer through an injected HTTP client, and reports results and
//! errors through a bounded, possibly absent error buffer.

pub mod codes;
pub mod curl;
pub mod easy;
pub mod engine;
pub mod error;
pub mod handle;
pub mod info;
pub mod mime;
pub mod options;
pub mod response;
pub mod share;
pub mod slist;
pub mod text;
