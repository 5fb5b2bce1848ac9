//! The enumerations shared across the crate: the request method and the
//! content types of request and response bodies.

use crate::text::str_eq;
use vstd::prelude::*;

verus! {

/// An HTTP request method.
#[derive(Clone, Copy, Debug, PartialEq, Eq, Structural)]
pub enum RequestMethod {
    CONNECT,
    DELETE,
    GET,
    HEAD,
    LIST,
    OPTIONS,
    PATCH,
    POST,
    PUT,
    TRACE,
}

impl RequestMethod {
    /// The method's token as it stands on the wire.
    pub open spec fn name(self) -> Seq<char> {
        match self {
            RequestMethod::CONNECT => "CONNECT"@,
            RequestMethod::DELETE => "DELETE"@,
            RequestMethod::GET => "GET"@,
            RequestMethod::HEAD => "HEAD"@,
            RequestMethod::LIST => "LIST"@,
            RequestMethod::OPTIONS => "OPTIONS"@,
            RequestMethod::PATCH => "PATCH"@,
            RequestMethod::POST => "POST"@,
            RequestMethod::PUT => "PUT"@,
            RequestMethod::TRACE => "TRACE"@,
        }
    }

    /// The method that `name` is the token of, if any. Tokens are matched
    /// exactly: upper case, nothing before or after.
    pub open spec fn named(name: Seq<char>) -> Option<RequestMethod> {
        if name == "CONNECT"@ {
            Some(RequestMethod::CONNECT)
        } else if name == "DELETE"@ {
            Some(RequestMethod::DELETE)
        } else if name == "GET"@ {
            Some(RequestMethod::GET)
        } else if name == "HEAD"@ {
            Some(RequestMethod::HEAD)
        } else if name == "LIST"@ {
            Some(RequestMethod::LIST)
        } else if name == "OPTIONS"@ {
            Some(RequestMethod::OPTIONS)
        } else if name == "PATCH"@ {
            Some(RequestMethod::PATCH)
        } else if name == "POST"@ {
            Some(RequestMethod::POST)
        } else if name == "PUT"@ {
            Some(RequestMethod::PUT)
        } else if name == "TRACE"@ {
            Some(RequestMethod::TRACE)
        } else {
            None
        }
    }

    /// The method's token.
    pub fn as_str(&self) -> (s: &'static str)
        ensures
            s@ == self.name(),
    {
        match self {
            RequestMethod::CONNECT => "CONNECT",
            RequestMethod::DELETE => "DELETE",
            RequestMethod::GET => "GET",
            RequestMethod::HEAD => "HEAD",
            RequestMethod::LIST => "LIST",
            RequestMethod::OPTIONS => "OPTIONS",
            RequestMethod::PATCH => "PATCH",
            RequestMethod::POST => "POST",
            RequestMethod::PUT => "PUT",
            RequestMethod::TRACE => "TRACE",
        }
    }

    /// Reads a method from its token.
    pub fn from_name(name: &str) -> (m: Option<RequestMethod>)
        ensures
            m == Self::named(name@),
    {
        if str_eq(name, "CONNECT") {
            Some(RequestMethod::CONNECT)
        } else if str_eq(name, "DELETE") {
            Some(RequestMethod::DELETE)
        } else if str_eq(name, "GET") {
            Some(RequestMethod::GET)
        } else if str_eq(name, "HEAD") {
            Some(RequestMethod::HEAD)
        } else if str_eq(name, "LIST") {
            Some(RequestMethod::LIST)
        } else if str_eq(name, "OPTIONS") {
            Some(RequestMethod::OPTIONS)
        } else if str_eq(name, "PATCH") {
            Some(RequestMethod::PATCH)
        } else if str_eq(name, "POST") {
            Some(RequestMethod::POST)
        } else if str_eq(name, "PUT") {
            Some(RequestMethod::PUT)
        } else if str_eq(name, "TRACE") {
            Some(RequestMethod::TRACE)
        } else {
            None
        }
    }

    /// Reading a method's own token gives the method back.
    pub proof fn lemma_name_round_trip(self)
        ensures
            Self::named(self.name()) == Some(self),
    {
        reveal_strlit("CONNECT");
        reveal_strlit("DELETE");
        reveal_strlit("GET");
        reveal_strlit("HEAD");
        reveal_strlit("LIST");
        reveal_strlit("OPTIONS");
        reveal_strlit("PATCH");
        reveal_strlit("POST");
        reveal_strlit("PUT");
        reveal_strlit("TRACE");
        let n = self.name();
        assert("CONNECT"@[0] == 'C' && "DELETE"@[0] == 'D' && "GET"@[0] == 'G');
        assert("HEAD"@[0] == 'H' && "LIST"@[0] == 'L' && "OPTIONS"@[0] == 'O');
        assert("PATCH"@[1] == 'A' && "POST"@[1] == 'O' && "PUT"@[1] == 'U');
        assert("TRACE"@[0] == 'T' && "PATCH"@[0] == 'P');
    }
}

/// The content type of a request body.
#[derive(Clone, Copy, Debug, PartialEq, Eq, Structural)]
pub enum RequestType {
    JSON,
}

impl RequestType {
    /// The media type announced for a body of this type.
    pub open spec fn media_type(self) -> Seq<char> {
        match self {
            RequestType::JSON => "application/json"@,
        }
    }

    /// The value of the `Content-Type` header for a body of this type.
    pub fn content_type(&self) -> (s: &'static str)
        ensures
            s@ == self.media_type(),
    {
        match self {
            RequestType::JSON => "application/json",
        }
    }

    /// The request type called `name`, if any.
    pub open spec fn named(name: Seq<char>) -> Option<RequestType> {
        if name == "JSON"@ {
            Some(RequestType::JSON)
        } else {
            None
        }
    }

    /// Reads a request type from its name.
    pub fn from_name(name: &str) -> (t: Option<RequestType>)
        ensures
            t == Self::named(name@),
    {
        if str_eq(name, "JSON") {
            Some(RequestType::JSON)
        } else {
            None
        }
    }
}

/// The content type of a response body.
#[derive(Clone, Copy, Debug, PartialEq, Eq, Structural)]
pub enum ResponseType {
    JSON,
}

impl ResponseType {
    /// The response type called `name`, if any.
    pub open spec fn named(name: Seq<char>) -> Option<ResponseType> {
        if name == "JSON"@ {
            Some(ResponseType::JSON)
        } else {
            None
        }
    }

    /// Reads a response type from its name.
    pub fn from_name(name: &str) -> (t: Option<ResponseType>)
        ensures
            t == Self::named(name@),
    {
        if str_eq(name, "JSON") {
            Some(ResponseType::JSON)
        } else {
            None
        }
    }
}

} // verus!
