//! Core of an HTTP request-interception filter: it reads one request header,
//! decodes its value as standard base64 into UTF-8 text, trims surrounding
//! whitespace, and hands the result back for propagation into the host's
//! request-scoped property store.
pub mod b64;
pub mod filter;
pub mod text;
