//! A small bridge that decodes TOML text into a host-side mapping.
//!
//! The decoder parses a text as a TOML document and converts its top-level
//! key/value pairs into [`value::Mapping`], the library's ordered mapping of
//! plain values. A malformed text yields an empty mapping rather than an
//! error; reading the file and handing the mapping to the host runtime are
//! the caller's business.

pub mod bridge;
pub mod decode;
pub mod value;
