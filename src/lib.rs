//! Typed requests, URI construction, response decoding and pagination for
//! the moderation endpoints of the Helix API.
//!
//! Each endpoint has a request descriptor (`endpoints`) that builds its URI
//! from its query fields (`query`, `request`), decodes the response body
//! into typed records (`json`, `decode`, `records`) under a strict or a
//! lenient policy, and, for listings, yields the request for the next page.
pub mod body;
pub mod decode;
pub mod endpoints;
pub mod json;
pub mod query;
pub mod records;
pub mod request;
