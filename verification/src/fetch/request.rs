//! HTTP requests.

use vstd::prelude::*;

use super::error::Error;
#[allow(unused_imports)]
use super::headers::{
    has_room, header_contents, header_name_text, header_value_bytes, no_headers, with_value,
};
use super::headers::{
    append_header, clone_headers, count_names, has_header, new_headers, MAX_HEADER_NAMES,
};
#[allow(unused_imports)]
use super::host::{url_joinable, url_readable};
use super::host::{is_url_joinable, is_url_readable};
use bytes::Bytes;
use hyper::header::{HeaderMap, HeaderName, HeaderValue};
use hyper::Method;
use url::{ParseError, Url};

verus! {

#[verifier::external_type_specification]
#[verifier::external_body]
pub struct ExUrl(url::Url);

#[verifier::external_type_specification]
#[verifier::external_body]
pub struct ExMethod(hyper::Method);

#[verifier::external_type_specification]
#[verifier::external_body]
pub struct ExBytes(bytes::Bytes);

/// The name of a method, as `Method::as_str` gives it.
pub uninterp spec fn method_text(method: Method) -> Seq<char>;

/// The bytes of a body.
pub uninterp spec fn body_bytes(body: Bytes) -> Seq<u8>;

/// What `Url::parse` makes of a text.
pub uninterp spec fn url_parsed(text: Seq<char>) -> Result<Url, ParseError>;

/// What `Url::join` makes of a text, with a URL as the base.
pub uninterp spec fn url_joined(base: Url, text: Seq<char>) -> Result<Url, ParseError>;

/// The text of a URL, as `Url::as_str` gives it.
pub uninterp spec fn url_text(url: Url) -> Seq<char>;

/// The scheme of a URL, as `Url::scheme` gives it.
pub uninterp spec fn url_scheme(url: Url) -> Seq<char>;

/// The path of a URL, as `Url::path` gives it.
pub uninterp spec fn url_path(url: Url) -> Seq<char>;

/// The constant `hyper::Method::GET`.
#[verifier::external_body]
fn method_get() -> (method: Method)
    ensures
        method_text(method) == "GET"@,
{
    Method::GET
}

/// The constant `hyper::Method::POST`.
#[verifier::external_body]
fn method_post() -> (method: Method)
    ensures
        method_text(method) == "POST"@,
{
    Method::POST
}

/// Calls `bytes::Bytes::new`.
#[verifier::external_body]
fn no_bytes() -> (body: Bytes)
    ensures
        body_bytes(body) == Seq::<u8>::empty(),
{
    Bytes::new()
}

/// Calls `url::Url::parse`: the result depends on the text alone. Encoding a label of the host
/// counts in 32 bits, which a very long one exceeds.
#[verifier::external_body]
fn parse_url(text: &str) -> (url: Result<Url, ParseError>)
    requires
        url_readable(text@, None),
    ensures
        url == url_parsed(text@),
{
    Url::parse(text)
}

/// Calls `url::Url::join`: the result depends on the base and the text alone. Encoding a label of
/// the host counts in 32 bits, which a very long one exceeds, and a file URL can end in a drive
/// letter, beside which there is no other file.
#[verifier::external_body]
pub(crate) fn join_url(base: &Url, text: &str) -> (url: Result<Url, ParseError>)
    requires
        url_joinable(url_scheme(*base), url_path(*base), text@),
    ensures
        url == url_joined(*base, text@),
{
    base.join(text)
}

/// Calls `url::Url::as_str`, and copies the text.
#[verifier::external_body]
fn write_url(url: &Url) -> (text: String)
    ensures
        text@ == url_text(*url),
{
    url.as_str().to_owned()
}

/// Calls `url::Url::scheme`, and copies the text.
#[verifier::external_body]
fn write_scheme(url: &Url) -> (text: String)
    ensures
        text@ == url_scheme(*url),
{
    url.scheme().to_owned()
}

/// Calls `url::Url::path`, and copies the text.
#[verifier::external_body]
fn write_path(url: &Url) -> (text: String)
    ensures
        text@ == url_path(*url),
{
    url.path().to_owned()
}

/// Whether a text can be joined to a URL.
pub fn can_join(base: &Url, text: &str) -> (can: bool)
    ensures
        can == url_joinable(url_scheme(*base), url_path(*base), text@),
{
    is_url_joinable(write_scheme(base).as_str(), write_path(base).as_str(), text)
}

/// Calls the `clone` of `url::Url`: the copy is the same URL.
#[verifier::external_body]
pub(crate) fn clone_url(url: &Url) -> (copy: Url)
    ensures
        copy == *url,
{
    url.clone()
}

/// Calls the `clone` of `hyper::Method`: the copy has the same name.
#[verifier::external_body]
fn clone_method(method: &Method) -> (copy: Method)
    ensures
        method_text(copy) == method_text(*method),
{
    method.clone()
}

/// Calls the `clone` of `bytes::Bytes`: the copy holds the same bytes.
#[verifier::external_body]
fn clone_bytes(body: &Bytes) -> (copy: Bytes)
    ensures
        body_bytes(copy) == body_bytes(*body),
{
    body.clone()
}

/// A wrapper for hyper::Request using Url and with methods.
#[derive(Debug)]
pub struct Request {
    url: Url,
    method: Method,
    headers: HeaderMap,
    body: Bytes,
}

/// What goes out for a request: a method, a URI, a user agent and a body. The headers of the
/// request do not go out.
pub struct Outgoing {
    /// The method.
    pub method: Method,
    /// The text of the URI.
    pub uri: String,
    /// The value of the user agent header.
    pub user_agent: String,
    /// The body.
    pub body: Bytes,
}

impl Request {
    /// Where the request goes.
    pub closed spec fn target(self) -> Url {
        self.url
    }

    /// The method.
    pub closed spec fn method(self) -> Method {
        self.method
    }

    /// The headers.
    pub closed spec fn header_map(self) -> HeaderMap {
        self.headers
    }

    /// The body.
    pub closed spec fn payload(self) -> Bytes {
        self.body
    }

    /// Whether this is a request without headers and body.
    pub open spec fn is_bare(self) -> bool {
        &&& header_contents(self.header_map()) == no_headers()
        &&& body_bytes(self.payload()) == Seq::<u8>::empty()
    }

    /// Whether this is what `get` makes for a URL.
    pub open spec fn is_get(self, url: Url) -> bool {
        &&& self.target() == url
        &&& method_text(self.method()) == "GET"@
        &&& self.is_bare()
    }

    /// Whether this is what `post` makes for a URL.
    pub open spec fn is_post(self, url: Url) -> bool {
        &&& self.target() == url
        &&& method_text(self.method()) == "POST"@
        &&& self.is_bare()
    }

    /// Whether this is another request up to its URL.
    pub open spec fn same_but_url(self, other: Request) -> bool {
        &&& self.method() == other.method()
        &&& self.header_map() == other.header_map()
        &&& self.payload() == other.payload()
    }

    /// Create a new request, with given url and method.
    pub fn new(url: Url, method: Method) -> (request: Request)
        ensures
            request.target() == url,
            request.method() == method,
            request.is_bare(),
    {
        Request { url, method, headers: new_headers(), body: no_bytes() }
    }

    /// Create a new GET request.
    pub fn get(url: Url) -> (request: Request)
        ensures
            request.is_get(url),
    {
        Request::new(url, method_get())
    }

    /// Create a new empty POST request.
    pub fn post(url: Url) -> (request: Request)
        ensures
            request.is_post(url),
    {
        Request::new(url, method_post())
    }

    /// Create a new GET request for the text of a URL, or nothing if its host cannot be
    /// encoded.
    pub fn get_from(url: &str) -> (request: Option<Result<Request, Error>>)
        ensures
            match (request, url_parsed(url@)) {
                (None, _) => !url_readable(url@, None),
                (Some(Ok(r)), Ok(u)) => url_readable(url@, None) && r.is_get(u),
                (Some(Err(e)), Err(p)) => url_readable(url@, None) && e == Error::Url(p),
                _ => false,
            },
    {
        if !is_url_readable(url, None) {
            return None;
        }
        match parse_url(url) {
            Ok(url) => Some(Ok(Request::get(url))),
            Err(error) => Some(Err(Error::from(error))),
        }
    }

    /// Create a new empty POST request for the text of a URL, or nothing if its host cannot be
    /// encoded.
    pub fn post_from(url: &str) -> (request: Option<Result<Request, Error>>)
        ensures
            match (request, url_parsed(url@)) {
                (None, _) => !url_readable(url@, None),
                (Some(Ok(r)), Ok(u)) => url_readable(url@, None) && r.is_post(u),
                (Some(Err(e)), Err(p)) => url_readable(url@, None) && e == Error::Url(p),
                _ => false,
            },
    {
        if !is_url_readable(url, None) {
            return None;
        }
        match parse_url(url) {
            Ok(url) => Some(Ok(Request::post(url))),
            Err(error) => Some(Err(Error::from(error))),
        }
    }

    /// Read the url.
    pub fn url(&self) -> (url: &Url)
        ensures
            *url == self.target(),
    {
        &self.url
    }

    /// Read the request headers.
    pub fn headers(&self) -> (headers: &HeaderMap)
        ensures
            *headers == self.header_map(),
    {
        &self.headers
    }

    /// Get a mutable reference to the headers.
    pub fn headers_mut(&mut self) -> (headers: &mut HeaderMap)
        ensures
            *headers == old(self).header_map(),
            final(self).header_map() == *final(headers),
            final(self).target() == old(self).target(),
            final(self).method() == old(self).method(),
            final(self).payload() == old(self).payload(),
    {
        &mut self.headers
    }

    /// Set the body of the request.
    pub fn set_body(&mut self, body: Bytes)
        ensures
            final(self).payload() == body,
            final(self).target() == old(self).target(),
            final(self).method() == old(self).method(),
            final(self).header_map() == old(self).header_map(),
    {
        self.body = body;
    }

    /// Set the url of the request.
    pub fn set_url(&mut self, url: Url)
        ensures
            final(self).target() == url,
            final(self).same_but_url(*old(self)),
    {
        self.url = url;
    }

    /// Whether this is another request with a header added.
    pub open spec fn adds_header(
        self,
        other: Request,
        name: HeaderName,
        value: HeaderValue,
    ) -> bool {
        &&& header_contents(self.header_map()) == with_value(
            header_contents(other.header_map()),
            header_name_text(name),
            header_value_bytes(value),
        )
        &&& self.target() == other.target()
        &&& self.method() == other.method()
        &&& self.payload() == other.payload()
    }

    /// Consume self, and return it with the added given header.
    pub fn with_header(self, name: HeaderName, value: HeaderValue) -> (request: Request)
        requires
            has_room(header_contents(self.header_map()), header_name_text(name)),
        ensures
            request.adds_header(self, name, value),
    {
        let mut request = self;
        append_header(request.headers_mut(), name, value);
        request
    }

    /// Consume self, and return it with the added given header if there is room for one, and
    /// otherwise as it was.
    pub fn try_with_header(self, name: HeaderName, value: HeaderValue) -> (request: Result<
        Request,
        Request,
    >)
        ensures
            match request {
                Ok(r) => {
                    &&& has_room(header_contents(self.header_map()), header_name_text(name))
                    &&& r.adds_header(self, name, value)
                },
                Err(r) => {
                    &&& !has_room(header_contents(self.header_map()), header_name_text(name))
                    &&& r == self
                },
            },
    {
        if count_names(&self.headers) < MAX_HEADER_NAMES || has_header(&self.headers, &name) {
            Ok(self.with_header(name, value))
        } else {
            Err(self)
        }
    }

    /// Consume self, and return it with the body.
    pub fn with_body(self, body: Bytes) -> (request: Request)
        ensures
            request.payload() == body,
            request.target() == self.target(),
            request.method() == self.method(),
            request.header_map() == self.header_map(),
    {
        let mut request = self;
        request.set_body(body);
        request
    }

    /// Consume self, and return what goes out for it.
    pub fn into_outgoing(self) -> (outgoing: Outgoing)
        ensures
            outgoing.method == self.method(),
            outgoing.uri@ == url_text(self.target()),
            outgoing.user_agent@ == "Parity Fetch Neo"@,
            outgoing.body == self.payload(),
    {
        Outgoing {
            method: self.method,
            uri: write_url(&self.url),
            user_agent: "Parity Fetch Neo".to_owned(),
            body: self.body,
        }
    }
}

impl Clone for Request {
    fn clone(&self) -> (copy: Request)
        ensures
            copy.target() == self.target(),
            method_text(copy.method()) == method_text(self.method()),
            header_contents(copy.header_map()) == header_contents(self.header_map()),
            body_bytes(copy.payload()) == body_bytes(self.payload()),
    {
        Request {
            url: clone_url(&self.url),
            method: clone_method(&self.method),
            headers: clone_headers(&self.headers),
            body: clone_bytes(&self.body),
        }
    }
}

/// A request for a URL has its method, no header and no body.
pub proof fn law_requests_made(
    url: Url,
    method: Method,
    any: Request,
    get: Request,
    post: Request,
    name: Seq<char>,
)
    requires
        call_ensures(Request::new, (url, method), any),
        call_ensures(Request::get, (url,), get),
        call_ensures(Request::post, (url,), post),
    ensures
        any.target() == url && get.target() == url && post.target() == url,
        any.method() == method,
        method_text(get.method()) == "GET"@,
        method_text(post.method()) == "POST"@,
        body_bytes(any.payload()).len() == 0,
        body_bytes(get.payload()).len() == 0,
        body_bytes(post.payload()).len() == 0,
        !header_contents(any.header_map()).contains_key(name),
        !header_contents(get.header_map()).contains_key(name),
        !header_contents(post.header_map()).contains_key(name),
{
}

/// The text of a URL gives a request for what it parses to, or its error. Only what cannot be read
/// gives neither.
pub proof fn law_requests_from_text(
    text: &str,
    get: Option<Result<Request, Error>>,
    post: Option<Result<Request, Error>>,
)
    requires
        call_ensures(Request::get_from, (text,), get),
        call_ensures(Request::post_from, (text,), post),
    ensures
        get is None <==> !url_readable(text@, None),
        post is None <==> !url_readable(text@, None),
        url_readable(text@, None) ==> match url_parsed(text@) {
            Ok(url) => {
                &&& get matches Some(Ok(r)) && r.target() == url && method_text(r.method())
                    == "GET"@ && body_bytes(r.payload()).len() == 0
                &&& post matches Some(Ok(r)) && r.target() == url && method_text(r.method())
                    == "POST"@ && body_bytes(r.payload()).len() == 0
            },
            Err(error) => {
                &&& get == Some(Err::<Request, Error>(Error::Url(error)))
                &&& post == Some(Err::<Request, Error>(Error::Url(error)))
            },
        },
{
}

/// Setting a part of a request sets that part, and keeps the others.
pub proof fn law_parts_set(
    request: Request,
    body: Bytes,
    name: HeaderName,
    value: HeaderValue,
    with_body: Request,
    tried: Result<Request, Request>,
)
    requires
        call_ensures(Request::with_body, (request, body), with_body),
        call_ensures(Request::try_with_header, (request, name, value), tried),
    ensures
        with_body.payload() == body,
        with_body.target() == request.target(),
        with_body.method() == request.method(),
        with_body.header_map() == request.header_map(),
        tried matches Ok(r) ==> {
            &&& r.target() == request.target()
            &&& r.method() == request.method()
            &&& r.payload() == request.payload()
            &&& header_contents(r.header_map()) == with_value(
                header_contents(request.header_map()),
                header_name_text(name),
                header_value_bytes(value),
            )
        },
        tried matches Err(r) ==> r == request,
        tried is Err <==> !header_contents(request.header_map()).contains_key(
            header_name_text(name),
        ) && header_contents(request.header_map()).dom().len() >= 32768,
{
}

/// Where there is room, a header is added behind the others of its name.
pub proof fn law_header_added(
    request: Request,
    name: HeaderName,
    value: HeaderValue,
    added: Request,
)
    requires
        has_room(header_contents(request.header_map()), header_name_text(name)),
        call_ensures(Request::with_header, (request, name, value), added),
    ensures
        header_contents(added.header_map()) == with_value(
            header_contents(request.header_map()),
            header_name_text(name),
            header_value_bytes(value),
        ),
        added.target() == request.target(),
        added.method() == request.method(),
        added.payload() == request.payload(),
{
}

/// Setting the URL of a request in place keeps its other parts.
pub proof fn law_url_set(request: &mut Request, url: Url)
    requires
        call_ensures(Request::set_url, (request, url), ()),
    ensures
        final(request).target() == url,
        final(request).method() == old(request).method(),
        final(request).header_map() == old(request).header_map(),
        final(request).payload() == old(request).payload(),
{
}

/// Setting the body of a request in place keeps its other parts.
pub proof fn law_body_set(request: &mut Request, body: Bytes)
    requires
        call_ensures(Request::set_body, (request, body), ()),
    ensures
        final(request).payload() == body,
        final(request).target() == old(request).target(),
        final(request).method() == old(request).method(),
        final(request).header_map() == old(request).header_map(),
{
}

/// A request goes out with its method, the text of its URL and its body, in the name of the client. A
/// copy goes out in the same way.
pub proof fn law_request_goes_out(
    request: Request,
    copy: Request,
    outgoing: Outgoing,
    again: Outgoing,
)
    requires
        call_ensures(<Request as Clone>::clone, (&request,), copy),
        call_ensures(Request::into_outgoing, (request,), outgoing),
        call_ensures(Request::into_outgoing, (copy,), again),
    ensures
        outgoing.method == request.method(),
        outgoing.uri@ == url_text(request.target()),
        outgoing.user_agent@ == "Parity Fetch Neo"@,
        outgoing.body == request.payload(),
        method_text(again.method) == method_text(outgoing.method),
        again.uri@ == outgoing.uri@,
        again.user_agent@ == outgoing.user_agent@,
        body_bytes(again.body) == body_bytes(outgoing.body),
{
}

/// A text can be joined to a URL by the scheme and the path of that.
pub proof fn law_can_join(base: Url, text: &str, can: bool)
    requires
        call_ensures(can_join, (&base, text), can),
    ensures
        can <==> url_joinable(url_scheme(base), url_path(base), text@),
{
}

/// The URL and the headers of a request are given back as they are.
pub proof fn law_parts_given(request: Request, url: &Url, headers: &HeaderMap)
    requires
        call_ensures(Request::url, (&request,), url),
        call_ensures(Request::headers, (&request,), headers),
    ensures
        *url == request.target(),
        *headers == request.header_map(),
{
}

/// What becomes of the headers that are handed out becomes of those of the request, and of nothing
/// else in it.
pub proof fn law_headers_handed_out(request: &mut Request, headers: &mut HeaderMap)
    requires
        call_ensures(Request::headers_mut, (request,), headers),
    ensures
        *old(headers) == old(request).header_map(),
        final(request).header_map() == *final(headers),
        final(request).target() == old(request).target(),
        final(request).method() == old(request).method(),
        final(request).payload() == old(request).payload(),
{
}

} // verus!
