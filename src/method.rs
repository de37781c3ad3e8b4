//! The closed set of request methods and their classification from text.
use vstd::prelude::*;

use crate::text::same_text;

verus! {

/// A request method. Only the nine canonical verbs exist: a token that is
/// none of them is rejected with [`MethodError`] rather than mapped to a
/// catch-all variant.
#[derive(Clone, Copy, Debug, PartialEq, Eq, Structural)]
pub enum Method {
    GET,
    POST,
    PUT,
    DELETE,
    HEAD,
    OPTIONS,
    CONNECT,
    TRACE,
    PATCH,
}

/// The token is not one of the canonical method names.
#[derive(Clone, Copy, Debug, PartialEq, Eq, Structural)]
pub struct MethodError;

impl Method {
    /// The canonical upper-case spelling of the method.
    pub open spec fn name(self) -> Seq<char> {
        match self {
            Method::GET => "GET"@,
            Method::POST => "POST"@,
            Method::PUT => "PUT"@,
            Method::DELETE => "DELETE"@,
            Method::HEAD => "HEAD"@,
            Method::OPTIONS => "OPTIONS"@,
            Method::CONNECT => "CONNECT"@,
            Method::TRACE => "TRACE"@,
            Method::PATCH => "PATCH"@,
        }
    }
}

/// The method whose canonical name is exactly `s` (case-sensitive, no
/// trimming), or `MethodError` when there is none.
pub open spec fn method_from_text(s: Seq<char>) -> Result<Method, MethodError> {
    if s == "GET"@ {
        Ok(Method::GET)
    } else if s == "POST"@ {
        Ok(Method::POST)
    } else if s == "PUT"@ {
        Ok(Method::PUT)
    } else if s == "DELETE"@ {
        Ok(Method::DELETE)
    } else if s == "HEAD"@ {
        Ok(Method::HEAD)
    } else if s == "OPTIONS"@ {
        Ok(Method::OPTIONS)
    } else if s == "CONNECT"@ {
        Ok(Method::CONNECT)
    } else if s == "TRACE"@ {
        Ok(Method::TRACE)
    } else if s == "PATCH"@ {
        Ok(Method::PATCH)
    } else {
        Err(MethodError)
    }
}

impl std::str::FromStr for Method {
    type Err = MethodError;

    /// Classifies a token as one of the canonical methods.
    fn from_str(s: &str) -> (r: Result<Method, MethodError>)
        ensures
            r == method_from_text(s@),
    {
        if same_text(s, "GET") {
            Ok(Method::GET)
        } else if same_text(s, "POST") {
            Ok(Method::POST)
        } else if same_text(s, "PUT") {
            Ok(Method::PUT)
        } else if same_text(s, "DELETE") {
            Ok(Method::DELETE)
        } else if same_text(s, "HEAD") {
            Ok(Method::HEAD)
        } else if same_text(s, "OPTIONS") {
            Ok(Method::OPTIONS)
        } else if same_text(s, "CONNECT") {
            Ok(Method::CONNECT)
        } else if same_text(s, "TRACE") {
            Ok(Method::TRACE)
        } else if same_text(s, "PATCH") {
            Ok(Method::PATCH)
        } else {
            Err(MethodError)
        }
    }
}

/// Every method's name classifies back to that method.
pub proof fn lemma_name_classifies(m: Method)
    ensures
        method_from_text(m.name()) == Ok::<Method, MethodError>(m),
{
    reveal_strlit("GET");
    reveal_strlit("POST");
    reveal_strlit("PUT");
    reveal_strlit("DELETE");
    reveal_strlit("HEAD");
    reveal_strlit("OPTIONS");
    reveal_strlit("CONNECT");
    reveal_strlit("TRACE");
    reveal_strlit("PATCH");
    match m {
        Method::GET => {
        },
        Method::POST => {
            assert("POST"@.len() != "GET"@.len());
        },
        Method::PUT => {
            assert("PUT"@[0] != "GET"@[0]);
            assert("PUT"@.len() != "POST"@.len());
        },
        Method::DELETE => {
            assert("DELETE"@.len() != "GET"@.len());
            assert("DELETE"@.len() != "POST"@.len());
            assert("DELETE"@.len() != "PUT"@.len());
        },
        Method::HEAD => {
            assert("HEAD"@.len() != "GET"@.len());
            assert("HEAD"@[0] != "POST"@[0]);
            assert("HEAD"@.len() != "PUT"@.len());
            assert("HEAD"@.len() != "DELETE"@.len());
        },
        Method::OPTIONS => {
            assert("OPTIONS"@.len() != "GET"@.len());
            assert("OPTIONS"@.len() != "POST"@.len());
            assert("OPTIONS"@.len() != "PUT"@.len());
            assert("OPTIONS"@.len() != "DELETE"@.len());
            assert("OPTIONS"@.len() != "HEAD"@.len());
        },
        Method::CONNECT => {
            assert("CONNECT"@.len() != "GET"@.len());
            assert("CONNECT"@.len() != "POST"@.len());
            assert("CONNECT"@.len() != "PUT"@.len());
            assert("CONNECT"@.len() != "DELETE"@.len());
            assert("CONNECT"@.len() != "HEAD"@.len());
            assert("CONNECT"@[0] != "OPTIONS"@[0]);
        },
        Method::TRACE => {
            assert("TRACE"@.len() != "GET"@.len());
            assert("TRACE"@.len() != "POST"@.len());
            assert("TRACE"@.len() != "PUT"@.len());
            assert("TRACE"@.len() != "DELETE"@.len());
            assert("TRACE"@.len() != "HEAD"@.len());
            assert("TRACE"@.len() != "OPTIONS"@.len());
            assert("TRACE"@.len() != "CONNECT"@.len());
        },
        Method::PATCH => {
            assert("PATCH"@.len() != "GET"@.len());
            assert("PATCH"@.len() != "POST"@.len());
            assert("PATCH"@.len() != "PUT"@.len());
            assert("PATCH"@.len() != "DELETE"@.len());
            assert("PATCH"@.len() != "HEAD"@.len());
            assert("PATCH"@.len() != "OPTIONS"@.len());
            assert("PATCH"@.len() != "CONNECT"@.len());
            assert("PATCH"@[0] != "TRACE"@[0]);
        },
    }
}

} // verus!
