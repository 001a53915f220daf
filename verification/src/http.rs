//! Planned outbound requests and their responses, as plain data.
//!
//! A handler never performs a request itself: it plans one (method, URL,
//! query, bearer token, optional body), the surrounding runtime performs it,
//! and the handler's rendering logic receives the response as a status plus
//! an untyped body value.

use vstd::prelude::*;

use crate::value::ArgValue;
use crate::value::Val;

verus! {

/// The HTTP method of a planned request.
#[derive(Clone, Copy, PartialEq, Eq, Structural, Debug)]
pub enum HttpMethod {
    Get,
    Post,
    Patch,
}

/// One planned outbound request, as plain data for the runtime to perform.
#[derive(Debug, PartialEq, Eq)]
pub struct HttpRequestSpec {
    pub method: HttpMethod,
    pub url: String,
    pub query: Vec<(String, String)>,
    pub bearer: String,
    pub body: Option<ArgValue>,
}

/// The mathematical model of a planned request.
#[verifier::ext_equal]
pub struct HttpRequestV {
    pub method: HttpMethod,
    pub url: Seq<char>,
    pub query: Seq<(Seq<char>, Seq<char>)>,
    pub bearer: Seq<char>,
    pub body: Option<Val>,
}

impl View for HttpRequestSpec {
    type V = HttpRequestV;

    open spec fn view(&self) -> HttpRequestV {
        HttpRequestV {
            method: self.method,
            url: self.url@,
            query: Seq::new(self.query@.len(), |i: int| (self.query@[i].0@, self.query@[i].1@)),
            bearer: self.bearer@,
            body: match self.body {
                Option::None => Option::None,
                Option::Some(b) => Option::Some(b@),
            },
        }
    }
}

/// A performed request's response: status code and untyped body.
#[derive(Debug, PartialEq, Eq)]
pub struct HttpResponse {
    pub status: u16,
    pub body: ArgValue,
}

/// The mathematical model of a response.
#[verifier::ext_equal]
pub struct HttpResponseV {
    pub status: int,
    pub body: Val,
}

impl View for HttpResponse {
    type V = HttpResponseV;

    open spec fn view(&self) -> HttpResponseV {
        HttpResponseV { status: self.status as int, body: self.body@ }
    }
}

/// The value of an `Authorization` header bearing the token.
pub open spec fn spec_bearer_header(token: Seq<char>) -> Seq<char> {
    "Bearer "@ + token
}

/// The value of an `Authorization` header bearing the token.
pub fn bearer_header(token: &str) -> (r: String)
    ensures
        r@ == spec_bearer_header(token@),
{
    let mut s = String::from_str("Bearer ");
    s.append(token);
    s
}

} // verus!
