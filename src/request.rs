//! The request-line parser: bytes in, method, path and query string out, as
//! views into the bytes.
use vstd::prelude::*;
use vstd::utf8::{decode_utf8, encode_utf8_decode_utf8, valid_utf8};
use vstd::std_specs::iter::IteratorSpec;
use vstd::string::StringSliceAdditionalSpecFns;

use crate::method::{method_from_text, Method, MethodError};
use crate::text::{
    is_delimiter, lemma_next_word_at, lemma_next_word_none, lemma_split_target_at,
    lemma_split_target_none, next_word, same_text, split_target,
};

verus! {

#[verifier::external_type_specification]
#[verifier::external_body]
pub struct ExUtf8Error(std::str::Utf8Error);

/// Relies on `std::str::from_utf8`: it succeeds exactly when the bytes are
/// valid UTF-8, and the text it returns is the one those bytes encode.
#[verifier::external_body]
fn decode_text<'a>(buf: &'a [u8]) -> (r: Result<&'a str, std::str::Utf8Error>)
    ensures
        r is Ok <==> valid_utf8(buf@),
        r matches Ok(s) ==> s.spec_bytes() == buf@,
{
    std::str::from_utf8(buf)
}

/// Why a request line was rejected.
#[derive(Clone, Copy, Debug, PartialEq, Eq, Structural)]
pub enum ParseError {
    /// A token or its terminating delimiter is missing.
    InvalidRequest,
    /// The bytes are not valid UTF-8.
    InvalidEncoding,
    /// The protocol token is not `HTTP/1.1`.
    InvalidProtocol,
    /// The method token is not a canonical method name.
    InvalidMethod,
}

impl ParseError {
    /// The fixed description of each kind of error.
    pub open spec fn spec_message(self) -> Seq<char> {
        match self {
            ParseError::InvalidRequest => "Invalid request"@,
            ParseError::InvalidEncoding => "Invalid encoding"@,
            ParseError::InvalidProtocol => "Invalid protocol"@,
            ParseError::InvalidMethod => "Invalid method"@,
        }
    }

    /// A human-readable description of the error.
    pub fn message(&self) -> (r: &'static str)
        ensures
            r@ == self.spec_message(),
    {
        match self {
            ParseError::InvalidRequest => "Invalid request",
            ParseError::InvalidEncoding => "Invalid encoding",
            ParseError::InvalidProtocol => "Invalid protocol",
            ParseError::InvalidMethod => "Invalid method",
        }
    }
}

impl From<std::str::Utf8Error> for ParseError {
    fn from(_e: std::str::Utf8Error) -> (r: ParseError) {
        ParseError::InvalidEncoding
    }
}

impl vstd::std_specs::convert::FromSpecImpl<std::str::Utf8Error> for ParseError {
    open spec fn obeys_from_spec() -> bool {
        true
    }

    open spec fn from_spec(_e: std::str::Utf8Error) -> ParseError {
        ParseError::InvalidEncoding
    }
}

impl From<MethodError> for ParseError {
    fn from(_e: MethodError) -> (r: ParseError) {
        ParseError::InvalidMethod
    }
}

impl vstd::std_specs::convert::FromSpecImpl<MethodError> for ParseError {
    open spec fn obeys_from_spec() -> bool {
        true
    }

    open spec fn from_spec(_e: MethodError) -> ParseError {
        ParseError::InvalidMethod
    }
}

/// The splits `get_next_word` returns, as views.
pub open spec fn word_views(r: Option<(&str, &str)>) -> Option<(Seq<char>, Seq<char>)> {
    match r {
        Some((w, rest)) => Some((w@, rest@)),
        None => None,
    }
}

/// Splits `request` at its first space or carriage return into the text
/// before it and the text after it; `None` when there is neither.
pub fn get_next_word(request: &str) -> (r: Option<(&str, &str)>)
    ensures
        word_views(r) == next_word(request@),
{
    let n = request.unicode_len();
    let mut chars = request.chars();
    let mut i: usize = 0;
    while i < n
        invariant
            n == request@.len(),
            i <= n,
            chars.remaining() == request@.skip(i as int),
            forall|j: int| 0 <= j < i ==> !is_delimiter(#[trigger] request@[j]),
        decreases n - i,
    {
        assert(chars.remaining()[0] == request@[i as int]);
        match chars.next() {
            Some(c) => {
                if c == ' ' || c == '\r' {
                    proof {
                        lemma_next_word_at(request@, i as int);
                    }
                    return Some((request.substring_char(0, i), request.substring_char(i + 1, n)));
                }
            },
            None => {},
        }
        assert(chars.remaining() == request@.skip(i + 1));
        i = i + 1;
    }
    proof {
        lemma_next_word_none(request@);
    }
    None
}

/// Splits a request target at its first `?` into the path and the query
/// string (possibly empty); the whole target and `None` when it holds no `?`.
pub fn split_query(target: &str) -> (r: (&str, Option<&str>))
    ensures
        split_target(target@) == (r.0@, option_view(r.1)),
{
    let n = target.unicode_len();
    let mut chars = target.chars();
    let mut i: usize = 0;
    while i < n
        invariant
            n == target@.len(),
            i <= n,
            chars.remaining() == target@.skip(i as int),
            forall|j: int| 0 <= j < i ==> #[trigger] target@[j] != '?',
        decreases n - i,
    {
        assert(chars.remaining()[0] == target@[i as int]);
        match chars.next() {
            Some(c) => {
                if c == '?' {
                    proof {
                        lemma_split_target_at(target@, i as int);
                    }
                    return (target.substring_char(0, i), Some(target.substring_char(i + 1, n)));
                }
            },
            None => {},
        }
        assert(chars.remaining() == target@.skip(i + 1));
        i = i + 1;
    }
    proof {
        lemma_split_target_none(target@);
    }
    (target, None)
}

/// The view of an optional piece of text.
pub open spec fn option_view(o: Option<&str>) -> Option<Seq<char>> {
    match o {
        Some(s) => Some(s@),
        None => None,
    }
}

/// The request line as plain values: what a parsed [`Request`] holds.
pub struct RequestLine {
    pub method: Method,
    pub path: Seq<char>,
    pub query_string: Option<Seq<char>>,
}

/// The outcome of parsing the bytes `b`: each step may end the parse with the
/// first error found, in the order encoding, tokens, protocol, method.
pub open spec fn parse_request(b: Seq<u8>) -> Result<RequestLine, ParseError> {
    if !valid_utf8(b) {
        Err(ParseError::InvalidEncoding)
    } else {
        match next_word(decode_utf8(b)) {
            None => Err(ParseError::InvalidRequest),
            Some((method, rest)) => match next_word(rest) {
                None => Err(ParseError::InvalidRequest),
                Some((target, rest)) => match next_word(rest) {
                    None => Err(ParseError::InvalidRequest),
                    Some((protocol, _)) => if protocol != "HTTP/1.1"@ {
                        Err(ParseError::InvalidProtocol)
                    } else {
                        match method_from_text(method) {
                            Err(_) => Err(ParseError::InvalidMethod),
                            Ok(m) => Ok(
                                RequestLine {
                                    method: m,
                                    path: split_target(target).0,
                                    query_string: split_target(target).1,
                                },
                            ),
                        }
                    },
                },
            },
        }
    }
}

/// A parsed request line. The path and the query string are views into the
/// buffer that was parsed: when both are there, the path ends just before the
/// `?` and the query string starts just after it.
pub struct Request<'buf> {
    path: &'buf str,
    query_string: Option<&'buf str>,
    method: Method,
}

impl<'buf> View for Request<'buf> {
    type V = RequestLine;

    closed spec fn view(&self) -> RequestLine {
        RequestLine { method: self.method, path: self.path@, query_string: option_view(self.query_string) }
    }
}

/// The parse result as plain values.
pub open spec fn result_view(r: Result<Request, ParseError>) -> Result<RequestLine, ParseError> {
    match r {
        Ok(req) => Ok(req@),
        Err(e) => Err(e),
    }
}

impl<'buf> TryFrom<&'buf [u8]> for Request<'buf> {
    type Error = ParseError;

    /// Parses the request line at the start of `buf`. Nothing is copied: the
    /// path and query string of the result borrow from `buf`. Whatever follows
    /// the protocol token, trailing padding included, is ignored.
    fn try_from(buf: &'buf [u8]) -> (r: Result<Request<'buf>, ParseError>)
        ensures
            result_view(r) == parse_request(buf@),
    {
        let text = match decode_text(buf) {
            Ok(text) => text,
            Err(e) => return Err(ParseError::from(e)),
        };
        proof {
            encode_utf8_decode_utf8(text@);
        }
        let (method, rest) = match get_next_word(text) {
            Some(words) => words,
            None => return Err(ParseError::InvalidRequest),
        };
        let (target, rest) = match get_next_word(rest) {
            Some(words) => words,
            None => return Err(ParseError::InvalidRequest),
        };
        let (protocol, _) = match get_next_word(rest) {
            Some(words) => words,
            None => return Err(ParseError::InvalidRequest),
        };
        if !same_text(protocol, "HTTP/1.1") {
            return Err(ParseError::InvalidProtocol);
        }
        let method = match <Method as std::str::FromStr>::from_str(method) {
            Ok(m) => m,
            Err(e) => return Err(ParseError::from(e)),
        };
        let (path, query_string) = split_query(target);
        Ok(Request { path, query_string, method })
    }
}

/// The result borrows from the buffer, so it is no spec value of its own:
/// what `try_from` returns is stated by its `ensures`, over `parse_request`.
impl<'buf> vstd::std_specs::convert::TryFromSpecImpl<&'buf [u8]> for Request<'buf> {
    open spec fn obeys_try_from_spec() -> bool {
        false
    }

    open spec fn try_from_spec(_buf: &'buf [u8]) -> Result<Request<'buf>, ParseError> {
        arbitrary()
    }
}

impl<'buf> Request<'buf> {
    /// The method of the request.
    pub fn method(&self) -> (r: Method)
        ensures
            r == self@.method,
    {
        self.method
    }

    /// The path, without any query string.
    pub fn path(&self) -> (r: &'buf str)
        ensures
            r@ == self@.path,
    {
        self.path
    }

    /// The text after the first `?` of the target, if there was one.
    pub fn query_string(&self) -> (r: Option<&'buf str>)
        ensures
            option_view(r) == self@.query_string,
    {
        self.query_string
    }
}

} // verus!
