//! Laws of the request-line parser, stated over `parse_request` and proved.
use vstd::prelude::*;
use vstd::utf8::{decode_utf8, valid_utf8};

use crate::method::{lemma_name_classifies, method_from_text, Method};
use crate::request::{parse_request, result_view, ParseError, Request, RequestLine};
use crate::text::{
    is_delimiter, is_first_delimiter, lemma_next_word_at, lemma_split_target_at,
    lemma_split_target_none, next_word, is_first_question_mark,
};

verus! {

/// No character of `s` is a delimiter.
pub open spec fn no_delimiter(s: Seq<char>) -> bool {
    forall|j: int| 0 <= j < s.len() ==> !is_delimiter(#[trigger] s[j])
}

/// The number of delimiters in `s`.
pub open spec fn delimiter_count(s: Seq<char>) -> nat {
    s.filter(|c: char| is_delimiter(c)).len()
}

/// A word followed by a delimiter is split off the front of the text.
proof fn lemma_word_then_delimiter(w: Seq<char>, d: char, rest: Seq<char>)
    requires
        no_delimiter(w),
        is_delimiter(d),
    ensures
        next_word(w + seq![d] + rest) == Some((w, rest)),
{
    let s = w + seq![d] + rest;
    assert(is_first_delimiter(s, w.len() as int)) by {
        assert forall|j: int| 0 <= j < w.len() implies !is_delimiter(#[trigger] s[j]) by {
            assert(s[j] == w[j]);
        }
    }
    lemma_next_word_at(s, w.len() as int);
    assert(s.take(w.len() as int) == w);
    assert(s.skip(w.len() as int + 1) == rest);
}

/// Method names and the protocol name hold no delimiter.
proof fn lemma_names_have_no_delimiter(m: Method)
    ensures
        no_delimiter(m.name()),
        no_delimiter("HTTP/1.1"@),
{
    reveal_strlit("HTTP/1.1");
    reveal_strlit("GET");
    reveal_strlit("POST");
    reveal_strlit("PUT");
    reveal_strlit("DELETE");
    reveal_strlit("HEAD");
    reveal_strlit("OPTIONS");
    reveal_strlit("CONNECT");
    reveal_strlit("TRACE");
    reveal_strlit("PATCH");
}

/// The three tokens of a well-delimited request line are found in order.
proof fn lemma_three_words(
    text: Seq<char>,
    method: Seq<char>,
    target: Seq<char>,
    protocol: Seq<char>,
    d1: char,
    d2: char,
    d3: char,
    rest: Seq<char>,
)
    requires
        text == method + seq![d1] + target + seq![d2] + protocol + seq![d3] + rest,
        no_delimiter(method),
        no_delimiter(target),
        no_delimiter(protocol),
        is_delimiter(d1),
        is_delimiter(d2),
        is_delimiter(d3),
    ensures
        next_word(text) == Some((method, target + seq![d2] + protocol + seq![d3] + rest)),
        next_word(target + seq![d2] + protocol + seq![d3] + rest) == Some(
            (target, protocol + seq![d3] + rest),
        ),
        next_word(protocol + seq![d3] + rest) == Some((protocol, rest)),
{
    let r2 = protocol + seq![d3] + rest;
    let r1 = target + seq![d2] + r2;
    assert(text == method + seq![d1] + r1);
    assert(target + seq![d2] + protocol + seq![d3] + rest == r1);
    lemma_word_then_delimiter(method, d1, r1);
    lemma_word_then_delimiter(target, d2, r2);
    lemma_word_then_delimiter(protocol, d3, rest);
}

/// A request line `METHOD PATH HTTP/1.1` (each token ended by a space or a
/// carriage return) whose path holds no `?` parses to that method, exactly
/// that path and no query string, whatever follows the line.
pub proof fn lemma_parse_path_without_query(
    b: Seq<u8>,
    m: Method,
    path: Seq<char>,
    d1: char,
    d2: char,
    d3: char,
    rest: Seq<char>,
)
    requires
        valid_utf8(b),
        decode_utf8(b) == m.name() + seq![d1] + path + seq![d2] + "HTTP/1.1"@ + seq![d3] + rest,
        no_delimiter(path),
        forall|j: int| 0 <= j < path.len() ==> #[trigger] path[j] != '?',
        is_delimiter(d1),
        is_delimiter(d2),
        is_delimiter(d3),
    ensures
        parse_request(b) == Ok::<RequestLine, ParseError>(
            RequestLine { method: m, path: path, query_string: None },
        ),
{
    lemma_names_have_no_delimiter(m);
    lemma_three_words(decode_utf8(b), m.name(), path, "HTTP/1.1"@, d1, d2, d3, rest);
    lemma_name_classifies(m);
    lemma_split_target_none(path);
}

/// A request line `METHOD PATH?QUERY HTTP/1.1` whose path holds no `?`
/// parses to that method, the path before the first `?` and the (possibly
/// empty) query string after it.
pub proof fn lemma_parse_path_with_query(
    b: Seq<u8>,
    m: Method,
    path: Seq<char>,
    query: Seq<char>,
    d1: char,
    d2: char,
    d3: char,
    rest: Seq<char>,
)
    requires
        valid_utf8(b),
        decode_utf8(b) == m.name() + seq![d1] + (path + seq!['?'] + query) + seq![d2] + "HTTP/1.1"@
            + seq![d3] + rest,
        no_delimiter(path),
        no_delimiter(query),
        forall|j: int| 0 <= j < path.len() ==> #[trigger] path[j] != '?',
        is_delimiter(d1),
        is_delimiter(d2),
        is_delimiter(d3),
    ensures
        parse_request(b) == Ok::<RequestLine, ParseError>(
            RequestLine { method: m, path: path, query_string: Some(query) },
        ),
{
    let target = path + seq!['?'] + query;
    assert(no_delimiter(target)) by {
        assert forall|j: int| 0 <= j < target.len() implies !is_delimiter(#[trigger] target[j]) by {
            if j < path.len() {
                assert(target[j] == path[j]);
            } else if j > path.len() {
                assert(target[j] == query[j - path.len() - 1]);
            }
        }
    }
    lemma_names_have_no_delimiter(m);
    lemma_three_words(decode_utf8(b), m.name(), target, "HTTP/1.1"@, d1, d2, d3, rest);
    lemma_name_classifies(m);
    assert(is_first_question_mark(target, path.len() as int)) by {
        assert forall|j: int| 0 <= j < path.len() implies #[trigger] target[j] != '?' by {
            assert(target[j] == path[j]);
        }
    }
    lemma_split_target_at(target, path.len() as int);
    assert(target.take(path.len() as int) == path);
    assert(target.skip(path.len() as int + 1) == query);
}

/// Bytes that are not valid UTF-8 are rejected as an invalid encoding,
/// whatever else they hold.
pub proof fn lemma_invalid_encoding(b: Seq<u8>)
    requires
        !valid_utf8(b),
    ensures
        parse_request(b) == Err::<RequestLine, ParseError>(ParseError::InvalidEncoding),
{
}

/// The text after the first delimiter holds one delimiter fewer.
proof fn lemma_next_word_count(s: Seq<char>)
    requires
        next_word(s) matches Some((_, rest)),
    ensures
        next_word(s) matches Some((_, rest)) && delimiter_count(s) >= 1 + delimiter_count(rest),
{
    let f = |c: char| is_delimiter(c);
    let i = choose|i: int| is_first_delimiter(s, i);
    let rest = s.skip(i + 1);
    assert(s == s.take(i) + seq![s[i]] + rest);
    Seq::filter_distributes_over_add(s.take(i) + seq![s[i]], rest, f);
    Seq::filter_distributes_over_add(s.take(i), seq![s[i]], f);
    Seq::<char>::empty().lemma_filter_push(s[i], f);
    assert(seq![s[i]] == Seq::<char>::empty().push(s[i]));
}

/// Valid text with fewer than three delimiters lacks a token and is
/// rejected as an invalid request.
pub proof fn lemma_missing_token(b: Seq<u8>)
    requires
        valid_utf8(b),
        delimiter_count(decode_utf8(b)) < 3,
    ensures
        parse_request(b) == Err::<RequestLine, ParseError>(ParseError::InvalidRequest),
{
    let text = decode_utf8(b);
    if let Some((_, r1)) = next_word(text) {
        lemma_next_word_count(text);
        if let Some((_, r2)) = next_word(r1) {
            lemma_next_word_count(r1);
            if next_word(r2) is Some {
                lemma_next_word_count(r2);
            }
        }
    }
}

/// A request line whose three tokens are present but whose protocol token is
/// not exactly `HTTP/1.1` is rejected as an invalid protocol, whatever the
/// method token.
pub proof fn lemma_wrong_protocol(
    b: Seq<u8>,
    method: Seq<char>,
    target: Seq<char>,
    protocol: Seq<char>,
    d1: char,
    d2: char,
    d3: char,
    rest: Seq<char>,
)
    requires
        valid_utf8(b),
        decode_utf8(b) == method + seq![d1] + target + seq![d2] + protocol + seq![d3] + rest,
        no_delimiter(method),
        no_delimiter(target),
        no_delimiter(protocol),
        is_delimiter(d1),
        is_delimiter(d2),
        is_delimiter(d3),
        protocol != "HTTP/1.1"@,
    ensures
        parse_request(b) == Err::<RequestLine, ParseError>(ParseError::InvalidProtocol),
{
    lemma_three_words(decode_utf8(b), method, target, protocol, d1, d2, d3, rest);
}

/// A request line with the `HTTP/1.1` protocol whose method token is not a
/// canonical method name is rejected as an invalid method.
pub proof fn lemma_unknown_method(
    b: Seq<u8>,
    method: Seq<char>,
    target: Seq<char>,
    d1: char,
    d2: char,
    d3: char,
    rest: Seq<char>,
)
    requires
        valid_utf8(b),
        decode_utf8(b) == method + seq![d1] + target + seq![d2] + "HTTP/1.1"@ + seq![d3] + rest,
        no_delimiter(method),
        no_delimiter(target),
        is_delimiter(d1),
        is_delimiter(d2),
        is_delimiter(d3),
        method_from_text(method) is Err,
    ensures
        parse_request(b) == Err::<RequestLine, ParseError>(ParseError::InvalidMethod),
{
    lemma_names_have_no_delimiter(Method::GET);
    lemma_three_words(decode_utf8(b), method, target, "HTTP/1.1"@, d1, d2, d3, rest);
}

/// Parsing the same bytes twice gives equal results: the same method, path
/// text and query text, or the same error.
pub proof fn lemma_parse_twice<'a>(
    buf: &'a [u8],
    r1: Result<Request<'a>, ParseError>,
    r2: Result<Request<'a>, ParseError>,
)
    requires
        call_ensures(Request::try_from, (buf,), r1),
        call_ensures(Request::try_from, (buf,), r2),
    ensures
        result_view(r1) == result_view(r2),
{
}

} // verus!
