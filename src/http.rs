use vstd::prelude::*;
use vstd::string::*;

use crate::permissions::{
    starts_with, ConsentProvider, Permission, PermissionError, Permissions,
};

verus! {

/// How a script wants the body of a response handed back.
#[derive(Debug, Clone, Copy, PartialEq, Eq)]
pub enum ContentTypes {
    Text,
    Bytes,
}

/// The body of a response, as the script asked for it.
#[derive(Debug, Clone, PartialEq, Eq)]
pub enum ContentTypesResponse {
    Text(String),
    Bytes(Vec<u8>),
    /// No body was read.
    Empty,
}

/// The request methods a script may use.
#[derive(Debug, Clone, Copy, PartialEq, Eq)]
pub enum HttpMethod {
    Get,
    Post,
    Patch,
    Options,
    Put,
    Head,
}

/// A request turned down before any permission is asked for.
#[derive(Debug, Clone, Copy, PartialEq, Eq)]
pub enum RequestError {
    /// The URL does not parse.
    MalformedUrl,
    /// The URL has no host.
    MissingHost,
    /// The URL's scheme is neither `http` nor `https`.
    UnsupportedScheme,
    /// The method is not one of those a script may use.
    InvalidMethod,
}

/// Why an HTTP request may not go ahead.
#[derive(Debug, Clone, PartialEq, Eq)]
pub enum HttpAccessError {
    /// The request itself is invalid; no permission was asked for.
    Request(RequestError),
    /// The host's permission was refused.
    Denied(PermissionError),
}

/// The scheme and host (if it has one) of a URL, or `None` where the URL
/// does not parse, as the URL parser reports them.
pub uninterp spec fn url_parts_of(s: Seq<char>) -> Option<(Seq<char>, Option<Seq<char>>)>;

/// The upper-case form of a string under Unicode's case mapping.
pub uninterp spec fn upper_of(s: Seq<char>) -> Seq<char>;

/// The view of an optional string.
pub open spec fn opt_view(o: Option<String>) -> Option<Seq<char>> {
    match o {
        Some(s) => Some(s@),
        None => None,
    }
}

/// The view of parsed URL parts.
pub open spec fn parts_view(parts: Option<(String, Option<String>)>) -> Option<
    (Seq<char>, Option<Seq<char>>),
> {
    match parts {
        Some((scheme, host)) => Some((scheme@, opt_view(host))),
        None => None,
    }
}

/// Relies on `url::Url::parse`, read through `Url::scheme` and
/// `Url::host_str`: the parts of the URL that `s` holds, or `None` when it
/// does not parse.
#[verifier::external_body]
fn url_parts(s: &str) -> (r: Option<(String, Option<String>)>)
    ensures
        parts_view(r) == url_parts_of(s@),
{
    url::Url::parse(s).ok().map(|u| (u.scheme().to_string(), u.host_str().map(|h| h.to_string())))
}

/// Relies on `str::to_uppercase`: the upper-case form of `s`.
#[verifier::external_body]
fn uppercase(s: &str) -> (r: String)
    ensures
        r@ == upper_of(s@),
{
    s.to_uppercase()
}

/// The host whose permission a request to a URL with these parts needs, or
/// why the request is invalid: it must parse, have a host, and use `http`
/// or `https`.
pub open spec fn host_of_parts(parts: Option<(Seq<char>, Option<Seq<char>>)>) -> Result<
    Seq<char>,
    RequestError,
> {
    match parts {
        None => Err(RequestError::MalformedUrl),
        Some((_, None)) => Err(RequestError::MissingHost),
        Some((scheme, Some(host))) => if scheme == "http"@ || scheme == "https"@ {
            Ok(host)
        } else {
            Err(RequestError::UnsupportedScheme)
        },
    }
}

/// `r` is the network permission for `target`'s host, or `target`'s error.
pub open spec fn http_result(r: Result<Permission, RequestError>, target: Result<Seq<char>, RequestError>) -> bool {
    match (r, target) {
        (Ok(Permission::Http(h)), Ok(host)) => h@ == host,
        (Err(e), Err(f)) => e == f,
        _ => false,
    }
}

/// The method a script names, once upper-cased.
pub open spec fn method_named(s: Seq<char>) -> Option<HttpMethod> {
    if s == "GET"@ {
        Some(HttpMethod::Get)
    } else if s == "POST"@ {
        Some(HttpMethod::Post)
    } else if s == "PATCH"@ {
        Some(HttpMethod::Patch)
    } else if s == "OPTIONS"@ {
        Some(HttpMethod::Options)
    } else if s == "PUT"@ {
        Some(HttpMethod::Put)
    } else if s == "HEAD"@ {
        Some(HttpMethod::Head)
    } else {
        None
    }
}

/// Whether `a` and `b` hold the same characters.
pub fn same_text(a: &str, b: &str) -> (r: bool)
    ensures
        r == (a@ == b@),
{
    if a.unicode_len() != b.unicode_len() {
        return false;
    }
    let r = starts_with(a, b);
    proof {
        if r {
            assert(a@ =~= b@);
        }
    }
    r
}

/// The network permission that a request to a URL with these parts needs.
pub fn http_permission_from_parts(parts: Option<(String, Option<String>)>) -> (r: Result<
    Permission,
    RequestError,
>)
    ensures
        http_result(r, host_of_parts(parts_view(parts))),
{
    match parts {
        None => Err(RequestError::MalformedUrl),
        Some((_, None)) => Err(RequestError::MissingHost),
        Some((scheme, Some(host))) => {
            if same_text(scheme.as_str(), "http") || same_text(scheme.as_str(), "https") {
                Ok(Permission::Http(host))
            } else {
                Err(RequestError::UnsupportedScheme)
            }
        },
    }
}

/// The network permission that a request to `url` needs, or why the request
/// is invalid.
pub fn http_permission(url: &str) -> (r: Result<Permission, RequestError>)
    ensures
        http_result(r, host_of_parts(url_parts_of(url@))),
{
    http_permission_from_parts(url_parts(url))
}

/// The method named by an upper-case string, if any.
pub fn method_from_upper(s: &str) -> (r: Option<HttpMethod>)
    ensures
        r == method_named(s@),
{
    if same_text(s, "GET") {
        Some(HttpMethod::Get)
    } else if same_text(s, "POST") {
        Some(HttpMethod::Post)
    } else if same_text(s, "PATCH") {
        Some(HttpMethod::Patch)
    } else if same_text(s, "OPTIONS") {
        Some(HttpMethod::Options)
    } else if same_text(s, "PUT") {
        Some(HttpMethod::Put)
    } else if same_text(s, "HEAD") {
        Some(HttpMethod::Head)
    } else {
        None
    }
}

/// The method a script names, in any case.
pub fn parse_method(s: &str) -> (r: Result<HttpMethod, RequestError>)
    ensures
        r == match method_named(upper_of(s@)) {
            Some(m) => Ok::<HttpMethod, RequestError>(m),
            None => Err(RequestError::InvalidMethod),
        },
{
    let up = uppercase(s);
    match method_from_upper(up.as_str()) {
        Some(m) => Ok(m),
        None => Err(RequestError::InvalidMethod),
    }
}

/// Whether the response body is read as bytes (only when asked for);
/// otherwise it is read as text.
pub fn wants_bytes(content_type: Option<ContentTypes>) -> (r: bool)
    ensures
        r == (content_type == Some(ContentTypes::Bytes)),
{
    match content_type {
        Some(ContentTypes::Bytes) => true,
        _ => false,
    }
}

/// The check that a request to `url` makes before anything is sent: an
/// invalid URL is turned down without asking for any permission; otherwise
/// access to its host is checked against `store`.
pub fn authorize_request<C: ConsentProvider>(
    store: &mut Permissions,
    consent: &mut C,
    url: &str,
) -> (r: Result<(), HttpAccessError>)
    requires
        old(store).consistent(),
    ensures
        final(store).consistent(),
        match host_of_parts(url_parts_of(url@)) {
            Err(e) => r == Err::<(), HttpAccessError>(HttpAccessError::Request(e))
                && *final(store) == *old(store) && *final(consent) == *old(consent),
            Ok(host) => exists|p: Permission, a: Result<(), PermissionError>|
                p is Http && p->Http_0@ == host && Permissions::access_post(
                    *old(store),
                    p,
                    a,
                    *final(store),
                ) && (old(store).decision(p) is Some ==> *final(consent) == *old(consent))
                && match a {
                    Ok(()) => r == Ok::<(), HttpAccessError>(()),
                    Err(e) => r == Err::<(), HttpAccessError>(HttpAccessError::Denied(e)),
                },
        },
{
    match http_permission(url) {
        Err(e) => Err(HttpAccessError::Request(e)),
        Ok(p) => {
            let a = store.ask_for_access(&p, consent);
            match a {
                Ok(()) => Ok(()),
                Err(e) => Err(HttpAccessError::Denied(e)),
            }
        },
    }
}

} // verus!
