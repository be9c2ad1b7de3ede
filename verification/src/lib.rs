//! A read-only monitoring client for a message broker's management surface.
//!
//! The library resolves, for each resource kind of the broker's management
//! API, the URL to fetch and the wire format (JSON or XML) of the response,
//! and decodes a raw response body into a strongly typed payload. Fetching
//! the body over HTTP is left to the caller; the library's decoding and
//! dispatch logic is verified.

pub mod catalog;
pub mod decode_json;
pub mod decode_xml;
pub mod dispatch;
pub mod encode;
pub mod json;
pub mod payloads;
pub mod util;
pub mod xml;
