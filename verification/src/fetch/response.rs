//! HTTP responses.

use vstd::prelude::*;

use super::abort::Abort;
#[allow(unused_imports)]
use super::abort::flag_read;
use super::error::Error;
#[allow(unused_imports)]
use super::headers::{
    ascii_text, first_value, header_contents, header_value_bytes, visible_ascii,
};
use super::headers::{get_header, header_is, header_text};
#[allow(unused_imports)]
use super::host::url_joinable;
#[allow(unused_imports)]
use super::request::{url_joined, url_path, url_scheme};
use super::request::{can_join, join_url};
use hyper::header::{HeaderMap, HeaderValue};
use hyper::Error as HyperError;
use url::Url;

verus! {

/// Status of a success.
pub const OK: u16 = 200;

/// Status of a redirect for good.
pub const MOVED_PERMANENTLY: u16 = 301;

/// Status of a redirect.
pub const FOUND: u16 = 302;

/// Status of a redirect to another resource.
pub const SEE_OTHER: u16 = 303;

/// Status of a redirect for now, with the same method.
pub const TEMPORARY_REDIRECT: u16 = 307;

/// Status of a redirect for good, with the same method.
pub const PERMANENT_REDIRECT: u16 = 308;

/// Status of a missing resource.
pub const NOT_FOUND: u16 = 404;

/// Whether a status redirects to the location that comes with it.
pub open spec fn is_redirect(status: u16) -> bool {
    ||| status == MOVED_PERMANENTLY
    ||| status == FOUND
    ||| status == SEE_OTHER
    ||| status == TEMPORARY_REDIRECT
    ||| status == PERMANENT_REDIRECT
}

/// Whether a redirect keeps the method of the request.
pub open spec fn keeps_method(status: u16) -> bool {
    status == TEMPORARY_REDIRECT || status == PERMANENT_REDIRECT
}

/// What polling a response body gave.
pub enum BodyEvent {
    /// There is nothing yet.
    NotReady,
    /// The body has ended.
    End,
    /// A chunk of the given length has come.
    Chunk(usize),
    /// Reading failed.
    Failed(HyperError),
}

/// What a poll of a response gives.
#[derive(Debug, Clone, Copy, PartialEq, Eq, Structural)]
pub enum Polled {
    /// There is nothing yet.
    NotReady,
    /// The body has ended.
    End,
    /// The chunk that has come is handed on.
    Chunk,
}

/// An HTTP response, without its body.
#[derive(Debug)]
pub struct Response {
    url: Url,
    status: u16,
    headers: HeaderMap,
    abort: Abort,
    nread: usize,
}

impl Response {
    #[verifier::type_invariant]
    spec fn within_limit(self) -> bool {
        self.nread <= self.abort.size_limit()
    }

    /// Where the response came from.
    pub closed spec fn origin(self) -> Url {
        self.url
    }

    /// The status code.
    pub closed spec fn code(self) -> u16 {
        self.status
    }

    /// The headers.
    pub closed spec fn header_map(self) -> HeaderMap {
        self.headers
    }

    /// The limits that apply.
    pub closed spec fn limits(self) -> Abort {
        self.abort
    }

    /// How many bytes of the body were handed on.
    pub closed spec fn bytes_read(self) -> nat {
        self.nread as nat
    }

    /// Whether this is another response up to the number of bytes that were handed on.
    pub open spec fn same_but_read(self, other: Response) -> bool {
        &&& self.origin() == other.origin()
        &&& self.code() == other.code()
        &&& self.header_map() == other.header_map()
        &&& self.limits() == other.limits()
    }

    /// The first location header, if there is one.
    pub open spec fn location(self) -> Option<Seq<u8>> {
        first_value(header_contents(self.header_map()), "location"@)
    }

    /// Whether the location is a text if it matters.
    pub open spec fn location_readable(self) -> bool {
        is_redirect(self.code()) ==> (self.location() matches Some(bytes) ==> visible_ascii(bytes))
    }

    /// Whether the location is a text that can be joined to a URL if it matters.
    pub open spec fn location_usable(self, base: Url) -> bool {
        &&& self.location_readable()
        &&& is_redirect(self.code()) ==> (self.location() matches Some(bytes) ==> url_joinable(
            url_scheme(base),
            url_path(base),
            ascii_text(bytes),
        ))
    }

    /// Create a new response from its parts.
    pub fn new(u: Url, status: u16, headers: HeaderMap, a: Abort) -> (response: Response)
        ensures
            response.origin() == u,
            response.code() == status,
            response.header_map() == headers,
            response.limits() == a,
            response.bytes_read() == 0,
    {
        Response { url: u, status, headers, abort: a, nread: 0 }
    }

    /// The response status.
    pub fn status(&self) -> (status: u16)
        ensures
            status == self.code(),
    {
        self.status
    }

    /// The response headers.
    pub fn headers(&self) -> (headers: &HeaderMap)
        ensures
            *headers == self.header_map(),
    {
        &self.headers
    }

    /// Status code == OK (200)?
    pub fn is_success(&self) -> (success: bool)
        ensures
            success == (self.code() == 200),
    {
        self.status() == OK
    }

    /// Status code == 404.
    pub fn is_not_found(&self) -> (missing: bool)
        ensures
            missing == (self.code() == 404),
    {
        self.status() == NOT_FOUND
    }

    /// Is the content-type text/html?
    pub fn is_html(&self) -> (html: bool)
        ensures
            html == (first_value(header_contents(self.header_map()), "content-type"@) matches Some(
                bytes,
            ) && ascii_text(bytes) == "text/html"@),
    {
        match self.content_type() {
            Some(mime) => {
                proof {
                    reveal_strlit("text/html");
                }
                header_is(&mime, "text/html")
            },
            None => false,
        }
    }

    /// The content-type header value.
    pub fn content_type(&self) -> (value: Option<HeaderValue>)
        ensures
            (match value {
                Some(v) => Some(header_value_bytes(v)),
                None => None,
            }) == first_value(header_contents(self.header_map()), "content-type"@),
    {
        proof {
            reveal_strlit("content-type");
        }
        get_header(&self.headers, "content-type")
    }

    /// Whether the location is a text if it matters.
    pub fn is_location_readable(&self) -> (readable: bool)
        ensures
            readable == self.location_readable(),
    {
        proof {
            reveal_strlit("location");
        }
        if !status_redirects(self.status) {
            return true;
        }
        match get_header(&self.headers, "location") {
            Some(location) => header_text(&location).is_ok(),
            None => true,
        }
    }

    /// Whether the location is a text that can be joined to a URL if it matters.
    pub fn is_location_usable(&self, base: &Url) -> (usable: bool)
        ensures
            usable == self.location_usable(*base),
    {
        proof {
            reveal_strlit("location");
        }
        if !status_redirects(self.status) {
            return true;
        }
        match get_header(&self.headers, "location") {
            Some(location) => match header_text(&location) {
                Ok(text) => can_join(base, text.as_str()),
                Err(_) => false,
            },
            None => true,
        }
    }

    /// What a poll of the response gives when it was aborted or not, and the body gave an event.
    pub open spec fn polled(
        self,
        aborted: bool,
        event: BodyEvent,
        result: Result<Polled, Error>,
    ) -> bool {
        if aborted {
            result == Err::<Polled, Error>(Error::Aborted)
        } else {
            match event {
                BodyEvent::NotReady => result == Ok::<Polled, Error>(Polled::NotReady),
                BodyEvent::End => result == Ok::<Polled, Error>(Polled::End),
                BodyEvent::Chunk(len) => if self.bytes_read() + len > self.limits().size_limit() {
                    result == Err::<Polled, Error>(Error::SizeLimit)
                } else {
                    result == Ok::<Polled, Error>(Polled::Chunk)
                },
                BodyEvent::Failed(error) => result == Err::<Polled, Error>(Error::Hyper(error)),
            }
        }
    }

    /// Whether the body is polled, after the response was found to be aborted or not.
    pub fn go_on_unless(aborted: bool) -> (go_on: Result<(), Error>)
        ensures
            go_on == if aborted {
                Err::<(), Error>(Error::Aborted)
            } else {
                Ok::<(), Error>(())
            },
    {
        if aborted {
            Err(Error::Aborted)
        } else {
            Ok(())
        }
    }

    /// Whether the response was aborted: the body is polled only if it was not. Which of the two
    /// depends on the flag, which can be raised at any time from elsewhere.
    pub fn check_abort(&self) -> (go_on: Result<(), Error>)
        ensures
            go_on matches Err(error) ==> error == Error::Aborted,
            flag_read(self.limits().flag(), go_on is Err),
    {
        Response::go_on_unless(self.abort.is_aborted())
    }

    /// Takes what polling the body gave, after the response was found to be aborted or not. Chunks
    /// are handed on up to the limit on the size of the body.
    pub fn poll(&mut self, aborted: bool, event: BodyEvent) -> (result: Result<Polled, Error>)
        ensures
            old(self).polled(aborted, event, result),
            final(self).same_but_read(*old(self)),
            final(self).bytes_read() == old(self).bytes_read() + (match (result, event) {
                (Ok(Polled::Chunk), BodyEvent::Chunk(len)) => len as nat,
                _ => 0,
            }),
            final(self).bytes_read() <= final(self).limits().size_limit(),
    {
        proof {
            use_type_invariant(&*self);
        }
        if aborted {
            return Err(Error::Aborted);
        }
        match event {
            BodyEvent::NotReady => Ok(Polled::NotReady),
            BodyEvent::End => Ok(Polled::End),
            BodyEvent::Chunk(len) => {
                if len > self.abort.max_size() - self.nread {
                    return Err(Error::SizeLimit);
                }
                self.nread = self.nread + len;
                Ok(Polled::Chunk)
            },
            BodyEvent::Failed(error) => Err(Error::from(error)),
        }
    }
}

fn status_redirects(status: u16) -> (redirects: bool)
    ensures
        redirects == is_redirect(status),
{
    status == MOVED_PERMANENTLY || status == FOUND || status == SEE_OTHER || status
        == TEMPORARY_REDIRECT || status == PERMANENT_REDIRECT
}

/// Where a response redirects to, and whether the method of the request is kept.
pub open spec fn redirect_of(u: Url, r: Response) -> Option<(Url, bool)> {
    if is_redirect(r.code()) {
        match r.location() {
            Some(bytes) => match url_joined(u, ascii_text(bytes)) {
                Ok(url) => Some((url, keeps_method(r.code()))),
                Err(_) => None,
            },
            None => None,
        }
    } else {
        None
    }
}

/// Extract redirect location from response. The second return value indicate whether the original
/// method should be preserved.
pub fn redirect_location(u: &Url, r: &Response) -> (redirect: Option<(Url, bool)>)
    requires
        r.location_usable(*u),
    ensures
        redirect == redirect_of(*u, *r),
{
    proof {
        reveal_strlit("location");
    }
    if !status_redirects(r.status) {
        return None;
    }
    let location = match get_header(&r.headers, "location") {
        Some(location) => location,
        None => return None,
    };
    match header_text(&location) {
        Ok(text) => match join_url(u, text.as_str()) {
            Ok(url) => {
                let preserve_method: bool = r.status == TEMPORARY_REDIRECT || r.status
                    == PERMANENT_REDIRECT;
                Some((url, preserve_method))
            },
            Err(_) => None,
        },
        Err(_) => None,
    }
}

/// Whether a status is one of the five that redirect.
pub open spec fn redirects(status: u16) -> bool {
    301 <= status <= 303 || 307 <= status <= 308
}

/// A response redirects exactly if its status does and its location can be joined to the URL: to the
/// joined URL, and with the method kept only for 307 and 308.
pub proof fn law_redirect_location(u: Url, r: Response, redirect: Option<(Url, bool)>)
    requires
        r.location_usable(u),
        call_ensures(redirect_location, (&u, &r), redirect),
    ensures
        redirect is Some <==> redirects(r.code()) && (first_value(
            header_contents(r.header_map()),
            "location"@,
        ) matches Some(bytes) && url_joined(u, ascii_text(bytes)) is Ok),
        redirect matches Some((url, keep)) ==> {
            &&& url_joined(
                u,
                ascii_text(
                    first_value(header_contents(r.header_map()), "location"@).unwrap(),
                ),
            ) == Ok::<_, url::ParseError>(url)
            &&& keep <==> r.code() == 307 || r.code() == 308
        },
{
}

/// The location of a response that does not redirect, or has none, does not matter. Otherwise it has
/// to be a text of visible characters, and to be joinable.
pub proof fn law_location_tests(r: Response, base: Url, readable: bool, usable: bool)
    requires
        call_ensures(Response::is_location_readable, (&r,), readable),
        call_ensures(Response::is_location_usable, (&r, &base), usable),
    ensures
        !redirects(r.code()) ==> readable && usable,
        first_value(header_contents(r.header_map()), "location"@) is None ==> readable && usable,
        usable ==> readable,
        redirects(r.code()) ==> (first_value(header_contents(r.header_map()), "location"@) matches Some(
            bytes,
        ) ==> {
            &&& readable <==> forall|i: int|
                0 <= i < bytes.len() ==> 32 <= (#[trigger] bytes[i]) < 127 || bytes[i] == 9
            &&& usable <==> readable && url_joinable(
                url_scheme(base),
                url_path(base),
                ascii_text(bytes),
            )
        }),
{
}

/// A response has the parts that it is made of.
pub proof fn law_response_parts(
    u: Url,
    status: u16,
    headers: HeaderMap,
    a: Abort,
    r: Response,
    code: u16,
    success: bool,
    missing: bool,
    html: bool,
)
    requires
        call_ensures(Response::new, (u, status, headers, a), r),
        call_ensures(Response::status, (&r,), code),
        call_ensures(Response::is_success, (&r,), success),
        call_ensures(Response::is_not_found, (&r,), missing),
        call_ensures(Response::is_html, (&r,), html),
    ensures
        r.origin() == u,
        r.code() == status,
        r.header_map() == headers,
        r.limits() == a,
        r.bytes_read() == 0,
        code == status,
        success <==> status == 200,
        missing <==> status == 404,
        html <==> (first_value(header_contents(headers), "content-type"@) matches Some(bytes)
            && ascii_text(bytes) == "text/html"@),
{
}

/// A body is handed on up to the limit: a chunk that would exceed it is refused, and no byte is
/// counted twice or left out. Nothing is handed on once the response was found to be aborted.
pub proof fn law_body_polled(
    r: &mut Response,
    aborted: bool,
    event: BodyEvent,
    result: Result<Polled, Error>,
)
    requires
        call_ensures(Response::poll, (r, aborted, event), result),
    ensures
        aborted ==> result == Err::<Polled, Error>(Error::Aborted),
        !aborted ==> match event {
            BodyEvent::NotReady => result == Ok::<Polled, Error>(Polled::NotReady),
            BodyEvent::End => result == Ok::<Polled, Error>(Polled::End),
            BodyEvent::Failed(error) => result == Err::<Polled, Error>(Error::Hyper(error)),
            BodyEvent::Chunk(len) => {
                &&& result is Ok <==> old(r).bytes_read() + len <= old(r).limits().size_limit()
                &&& result matches Ok(polled) ==> polled is Chunk
                &&& result matches Err(error) ==> error is SizeLimit
            },
        },
        final(r).bytes_read() == old(r).bytes_read() + if result matches Ok(Polled::Chunk) {
            event->Chunk_0 as int
        } else {
            0
        },
        final(r).bytes_read() <= old(r).limits().size_limit(),
        final(r).origin() == old(r).origin(),
        final(r).code() == old(r).code(),
        final(r).header_map() == old(r).header_map(),
        final(r).limits() == old(r).limits(),
{
}

/// The body is polled exactly if the flag was read as not raised.
pub proof fn law_poll_unless_aborted(r: Response, go_on: Result<(), Error>)
    requires
        call_ensures(Response::check_abort, (&r,), go_on),
    ensures
        match go_on {
            Ok(()) => flag_read(r.limits().flag(), false),
            Err(error) => flag_read(r.limits().flag(), true) && error is Aborted,
        },
{
}

/// The body is polled exactly if the response was not found to be aborted.
pub proof fn law_go_on(aborted: bool, go_on: Result<(), Error>)
    requires
        call_ensures(Response::go_on_unless, (aborted,), go_on),
    ensures
        go_on is Err <==> aborted,
        go_on matches Err(error) ==> error is Aborted,
{
}

/// The headers are given back as they are, and the content type is the first header of that name.
pub proof fn law_headers_given(r: Response, headers: &HeaderMap, value: Option<HeaderValue>)
    requires
        call_ensures(Response::headers, (&r,), headers),
        call_ensures(Response::content_type, (&r,), value),
    ensures
        *headers == r.header_map(),
        value is Some <==> first_value(header_contents(r.header_map()), "content-type"@) is Some,
        value matches Some(v) ==> Some(header_value_bytes(v)) == first_value(
            header_contents(r.header_map()),
            "content-type"@,
        ),
{
}

} // verus!
