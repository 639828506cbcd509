//! The outbound HTTP relay's data and the decisions it makes before sending.
//!
//! Sending itself is done by the host; the library decides which method a
//! request names and whether its body goes out.

use std::collections::HashMap;
use vstd::prelude::*;

verus! {

/// A request to relay.
#[derive(Debug, Clone)]
pub struct HttpRequest {
    pub method: String,
    pub url: String,
    pub headers: HashMap<String, String>,
    pub body: Option<String>,
}

/// What came back from a relayed request.
#[derive(Debug, Clone)]
pub struct HttpResponse {
    pub status: u16,
    pub status_text: String,
    pub headers: HashMap<String, String>,
    pub body: String,
    /// Elapsed time in milliseconds.
    pub time: u64,
    /// Size of the body in bytes.
    pub size: usize,
}

/// The methods the relay can send.
#[derive(Debug, Clone, Copy, PartialEq, Eq, Structural)]
pub enum HttpMethod {
    Get,
    Post,
    Put,
    Patch,
    Delete,
    Head,
    Options,
}

/// Why a request could not be relayed.
#[derive(Debug, Clone, PartialEq, Eq)]
pub enum RelayError {
    /// The method, as the caller wrote it, is not one the relay sends.
    UnsupportedMethod(String),
}

/// The upper-case form of a string, as `str::to_uppercase` gives it.
pub uninterp spec fn upper_of(s: Seq<char>) -> Seq<char>;

/// Relies on str::to_uppercase: the result depends on the characters alone.
#[verifier::external_body]
fn to_upper(s: &String) -> (r: String)
    ensures
        r@ == upper_of(s@),
{
    s.to_uppercase()
}

/// The method that an upper-case method name stands for.
pub open spec fn method_of(upper: Seq<char>) -> Option<HttpMethod> {
    if upper == "GET"@ {
        Some(HttpMethod::Get)
    } else if upper == "POST"@ {
        Some(HttpMethod::Post)
    } else if upper == "PUT"@ {
        Some(HttpMethod::Put)
    } else if upper == "PATCH"@ {
        Some(HttpMethod::Patch)
    } else if upper == "DELETE"@ {
        Some(HttpMethod::Delete)
    } else if upper == "HEAD"@ {
        Some(HttpMethod::Head)
    } else if upper == "OPTIONS"@ {
        Some(HttpMethod::Options)
    } else {
        None
    }
}

/// The method named by an already upper-cased name.
pub fn method_from_upper(upper: &String) -> (r: Option<HttpMethod>)
    ensures
        r == method_of(upper@),
{
    proof {
        reveal_strlit("GET");
        reveal_strlit("POST");
        reveal_strlit("PUT");
        reveal_strlit("PATCH");
        reveal_strlit("DELETE");
        reveal_strlit("HEAD");
        reveal_strlit("OPTIONS");
    }
    if *upper == "GET".to_string() {
        Some(HttpMethod::Get)
    } else if *upper == "POST".to_string() {
        Some(HttpMethod::Post)
    } else if *upper == "PUT".to_string() {
        Some(HttpMethod::Put)
    } else if *upper == "PATCH".to_string() {
        Some(HttpMethod::Patch)
    } else if *upper == "DELETE".to_string() {
        Some(HttpMethod::Delete)
    } else if *upper == "HEAD".to_string() {
        Some(HttpMethod::Head)
    } else if *upper == "OPTIONS".to_string() {
        Some(HttpMethod::Options)
    } else {
        None
    }
}

/// The method a request names, compared without regard to case.
pub fn parse_method(method: &String) -> (r: Result<HttpMethod, RelayError>)
    ensures
        match r {
            Ok(m) => method_of(upper_of(method@)) == Some(m),
            Err(RelayError::UnsupportedMethod(name)) => method_of(upper_of(method@)) is None
                && name@ == method@,
        },
{
    let upper = to_upper(method);
    match method_from_upper(&upper) {
        Some(m) => Ok(m),
        None => Err(RelayError::UnsupportedMethod(method.clone())),
    }
}

/// The body to send: present only when the request has a non-empty one.
pub fn body_to_send(body: &Option<String>) -> (r: Option<&String>)
    ensures
        match body {
            Some(b) => if b@.len() > 0 {
                r == Some(b)
            } else {
                r is None
            },
            None => r is None,
        },
{
    match body {
        Some(b) => if !b.as_str().is_empty() {
            Some(b)
        } else {
            None
        },
        None => None,
    }
}

} // verus!
