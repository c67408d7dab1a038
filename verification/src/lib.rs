//! HTTP/1.0 response construction and serialization.
//!
//! A [`response::Response`] pairs a status line with a header block and an
//! optional body, and [`response::Response::raw`] yields the exact bytes that
//! go on the wire. Every function carries a contract over byte sequences.

pub mod ascii;
pub mod decimal;
pub mod common;
pub mod headers;
pub mod response;
