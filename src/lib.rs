//! A zero-copy validator for the request line of an HTTP/1.1 request.
//!
//! `Request::try_from` takes the raw bytes that a connection delivered and
//! returns the method, the path and the optional query string as views into
//! those bytes, or the first reason the request line is malformed.
//! `parse_request` states the outcome over the bytes; `lemmas` proves laws
//! of it.
use vstd::prelude::*;

pub mod lemmas;
pub mod method;
pub mod request;
pub mod server;
pub mod text;

pub use method::{Method, MethodError};
pub use request::{get_next_word, split_query, ParseError, Request, RequestLine};
pub use server::Server;
