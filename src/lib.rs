//! A minimal HTTP/1.1 client library: request-line and header-block
//! serialization, method parsing, and request-line parsing, each with a
//! verified contract.

pub mod header;
pub mod method;
pub mod request;
pub mod response;
pub mod text;
