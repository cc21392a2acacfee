//! Fetching: which request comes next, and which response is the last.

use vstd::prelude::*;

use super::abort::Abort;
#[allow(unused_imports)]
use super::abort::flag_read;
use super::error::Error;
#[allow(unused_imports)]
use super::headers::{announced_length, ascii_text, first_value, header_contents};
use super::headers::content_length;
use super::request::{clone_url, Request};
#[allow(unused_imports)]
use super::request::{body_bytes, method_text, url_joined};
#[allow(unused_imports)]
use super::response::{redirect_of, redirects};
use super::response::{redirect_location, Response};
use hyper::header::HeaderMap;
use std::io::Error as IoError;
use std::time::Duration;
#[allow(unused_imports)]
use url::Url;

verus! {

/// How a background thread started.
pub enum Startup {
    /// It runs.
    Running,
    /// It could not start.
    Failed(IoError),
    /// It did not report in time.
    Timeout,
    /// It is gone.
    Disconnected,
}

/// Whether a client can be used, by how its background thread started.
pub fn startup_result(startup: Startup) -> (result: Result<(), Error>)
    ensures
        result == match startup {
            Startup::Running => Ok(()),
            Startup::Failed(error) => Err(Error::Io(error)),
            Startup::Timeout => Err(Error::BackgroundThreadDead),
            Startup::Disconnected => Err(Error::BackgroundThreadDead),
        },
{
    match startup {
        Startup::Running => Ok(()),
        Startup::Failed(error) => Err(Error::from(error)),
        Startup::Timeout => Err(Error::BackgroundThreadDead),
        Startup::Disconnected => Err(Error::BackgroundThreadDead),
    }
}

/// Whether the background thread ends, by how many clients there were before one was dropped.
pub open spec fn ends_thread(before: int) -> bool {
    before == 1
}

/// Whether the background thread ends, by how many clients there were before one was dropped.
pub fn is_last_client(before: usize) -> (last: bool)
    ensures
        last == ends_thread(before as int),
{
    before == 1
}

/// What happens to the clients of a background thread.
#[derive(Debug, Clone, Copy, PartialEq, Eq)]
pub enum ClientEvent {
    /// One is cloned.
    Cloned,
    /// One is dropped.
    Dropped,
}

/// How many clients there are, after one was made and these things happened to it and its clones.
pub open spec fn clients_after(events: Seq<ClientEvent>) -> int
    decreases events.len(),
{
    if events.len() == 0 {
        1
    } else {
        clients_after(events.drop_last()) + match events.last() {
            ClientEvent::Cloned => 1int,
            ClientEvent::Dropped => -1int,
        }
    }
}

/// Whether these things can happen: only a client that is there is cloned or dropped.
pub open spec fn can_happen(events: Seq<ClientEvent>) -> bool {
    forall|i: int| 0 <= i < events.len() ==> clients_after(#[trigger] events.take(i)) >= 1
}

/// Whether an event tells the background thread to end.
pub open spec fn tells_end(events: Seq<ClientEvent>, i: int) -> bool {
    &&& 0 <= i < events.len()
    &&& events[i] == ClientEvent::Dropped
    &&& ends_thread(clients_after(events.take(i)))
}

proof fn lemma_clients_counted(events: Seq<ClientEvent>, i: int)
    requires
        can_happen(events),
        0 <= i < events.len(),
    ensures
        clients_after(events.take(i)) >= 1,
        clients_after(events.take(i + 1)) == clients_after(events.take(i)) + match events[i] {
            ClientEvent::Cloned => 1int,
            ClientEvent::Dropped => -1int,
        },
{
    let upto = events.take(i + 1);
    assert(upto.drop_last() =~= events.take(i));
    assert(upto.last() == events[i]);
}

/// Of all the clients of a background thread, exactly the last to be dropped tells it to end: the
/// thread is told once no client is left, never before, and never twice.
pub proof fn law_last_client_ends_thread(events: Seq<ClientEvent>)
    requires
        can_happen(events),
    ensures
        clients_after(events) >= 0,
        clients_after(events) == 0 <==> tells_end(events, events.len() - 1),
        forall|i: int| #[trigger] tells_end(events, i) ==> i == events.len() - 1,
{
    let n = events.len() as int;
    assert(events.take(n) =~= events);
    if n > 0 {
        lemma_clients_counted(events, n - 1);
    }
    assert forall|i: int| #[trigger] tells_end(events, i) implies i == n - 1 by {
        lemma_clients_counted(events, i);
        if i + 1 < n {
            lemma_clients_counted(events, i + 1);
        }
    }
}

/// How long to wait for a request that was found to be aborted or not.
pub fn allotted_time(abort: &Abort, aborted: bool) -> (time: Result<Duration, Error>)
    ensures
        time == if aborted {
            Err::<Duration, Error>(Error::Aborted)
        } else {
            Ok::<Duration, Error>(abort.time_limit())
        },
{
    if aborted {
        Err(Error::Aborted)
    } else {
        Ok(abort.max_duration())
    }
}

/// How long to wait for a request, unless it was aborted.
pub fn time_for_request(abort: &Abort) -> (time: Result<Duration, Error>)
    ensures
        match time {
            Ok(t) => t == abort.time_limit() && flag_read(abort.flag(), false),
            Err(error) => error == Error::Aborted && flag_read(abort.flag(), true),
        },
{
    allotted_time(abort, abort.is_aborted())
}

/// A fetch that is under way: the request that goes out next, after some redirects.
#[derive(Debug)]
pub struct FetchState {
    request: Request,
    abort: Abort,
    redirects: usize,
}

/// What follows a response.
#[derive(Debug)]
pub enum FetchLoop {
    /// The fetch goes on with another request.
    Continue(FetchState),
    /// The response is the result.
    Break(Response),
}

impl FetchState {
    #[verifier::type_invariant]
    spec fn within_limit(self) -> bool {
        self.redirects <= self.abort.redirect_limit()
    }

    /// The request that goes out.
    pub closed spec fn next_request(self) -> Request {
        self.request
    }

    /// The limits that apply.
    pub closed spec fn limits(self) -> Abort {
        self.abort
    }

    /// How many redirects were followed.
    pub closed spec fn followed(self) -> nat {
        self.redirects as nat
    }

    /// Whether this is the state after a redirect.
    pub open spec fn follows(self, before: FetchState, url: Url, preserve_method: bool) -> bool {
        &&& self.limits() == before.limits()
        &&& self.followed() == before.followed() + 1
        &&& if preserve_method {
            self.next_request().target() == url && self.next_request().same_but_url(
                before.next_request(),
            )
        } else {
            self.next_request().is_get(url)
        }
    }

    /// What follows a response when the fetch was aborted or not.
    pub open spec fn responds(
        self,
        resp: Response,
        aborted: bool,
        result: Result<FetchLoop, Error>,
    ) -> bool {
        if aborted {
            result == Err::<FetchLoop, Error>(Error::Aborted)
        } else {
            match redirect_of(self.next_request().target(), resp) {
                Some((url, preserve_method)) => if self.followed()
                    >= self.limits().redirect_limit() {
                    result == Err::<FetchLoop, Error>(Error::TooManyRedirects)
                } else {
                    result matches Ok(FetchLoop::Continue(next)) && next.follows(
                        self,
                        url,
                        preserve_method,
                    )
                },
                None => match announced_length(header_contents(resp.header_map())) {
                    Err(error) => result == Err::<FetchLoop, Error>(error),
                    Ok(Some(length)) if length > self.limits().size_limit() => result == Err::<
                        FetchLoop,
                        Error,
                    >(Error::SizeLimit),
                    Ok(_) => result == Ok::<FetchLoop, Error>(FetchLoop::Break(resp)),
                },
            }
        }
    }

    /// What is decided on a response, by what the flag said when it was read. There is no decision if
    /// the flag was not raised and the location cannot be used.
    pub open spec fn decides(
        self,
        resp: Response,
        decision: Option<Result<FetchLoop, Error>>,
    ) -> bool {
        exists|aborted: bool| #[trigger]
            flag_read(self.limits().flag(), aborted) && match decision {
                Some(result) => {
                    &&& aborted || resp.location_usable(self.next_request().target())
                    &&& self.responds(resp, aborted, result)
                },
                None => !aborted && !resp.location_usable(self.next_request().target()),
            }
    }

    /// Whether this is a fetch before its first request.
    pub open spec fn is_start(self, request: Request, abort: Abort) -> bool {
        &&& self.next_request() == request
        &&& self.limits() == abort
        &&& self.followed() == 0
    }

    /// Starts a fetch that was found to be aborted or not.
    pub fn begin(request: Request, abort: Abort, aborted: bool) -> (state: Result<
        FetchState,
        Error,
    >)
        ensures
            match state {
                Ok(s) => !aborted && s.is_start(request, abort),
                Err(error) => aborted && error == Error::Aborted,
            },
    {
        if aborted {
            Err(Error::Aborted)
        } else {
            Ok(FetchState { request, abort, redirects: 0 })
        }
    }

    /// Starts a fetch, unless it was aborted.
    pub fn start(request: Request, abort: Abort) -> (state: Result<FetchState, Error>)
        ensures
            match state {
                Ok(s) => s.is_start(request, abort) && flag_read(abort.flag(), false),
                Err(error) => error == Error::Aborted && flag_read(abort.flag(), true),
            },
    {
        let aborted = abort.is_aborted();
        FetchState::begin(request, abort, aborted)
    }

    /// The request that goes out next.
    pub fn request(&self) -> (request: &Request)
        ensures
            *request == self.next_request(),
    {
        &self.request
    }

    /// How many redirects were followed.
    pub fn redirects(&self) -> (redirects: usize)
        ensures
            redirects == self.followed(),
            redirects <= self.limits().redirect_limit(),
    {
        proof {
            use_type_invariant(self);
        }
        self.redirects
    }

    /// The response to the request, from its status and its headers.
    pub fn response(&self, status: u16, headers: HeaderMap) -> (response: Response)
        ensures
            response.origin() == self.next_request().target(),
            response.code() == status,
            response.header_map() == headers,
            response.limits().flag() == self.limits().flag(),
            response.limits().size_limit() == self.limits().size_limit(),
            response.limits().time_limit() == self.limits().time_limit(),
            response.limits().redirect_limit() == self.limits().redirect_limit(),
            response.bytes_read() == 0,
    {
        Response::new(clone_url(self.request.url()), status, headers, self.abort.clone())
    }

    /// Decides what follows a response, when the fetch was found to be aborted or not.
    pub fn respond(self, resp: Response, aborted: bool) -> (result: Result<FetchLoop, Error>)
        requires
            aborted || resp.location_usable(self.next_request().target()),
        ensures
            self.responds(resp, aborted, result),
    {
        proof {
            use_type_invariant(&self);
        }
        if aborted {
            return Err(Error::Aborted);
        }
        match redirect_location(self.request.url(), &resp) {
            Some((next_url, preserve_method)) => {
                if self.redirects >= self.abort.max_redirects() {
                    return Err(Error::TooManyRedirects);
                }
                let request = if preserve_method {
                    let mut request = self.request;
                    request.set_url(next_url);
                    request
                } else {
                    Request::get(next_url)
                };
                Ok(
                    FetchLoop::Continue(
                        FetchState { request, abort: self.abort, redirects: self.redirects + 1 },
                    ),
                )
            },
            None => {
                match content_length(resp.headers()) {
                    Ok(Some(length)) => {
                        if length > self.abort.max_size() as u64 {
                            return Err(Error::SizeLimit);
                        }
                    },
                    Ok(None) => {},
                    Err(error) => return Err(error),
                }
                Ok(FetchLoop::Break(resp))
            },
        }
    }

    /// Decides what follows a response. There is no decision on a redirect whose location is not a
    /// text that can be joined to the URL of the request.
    pub fn on_response(self, resp: Response) -> (result: Option<Result<FetchLoop, Error>>)
        ensures
            match result {
                Some(r) => self.responds(resp, true, r) || (resp.location_usable(
                    self.next_request().target(),
                ) && self.responds(resp, false, r)),
                None => !resp.location_usable(self.next_request().target()),
            },
            self.decides(resp, result),
    {
        if self.abort.is_aborted() {
            assert(flag_read(self.limits().flag(), true));
            return Some(self.respond(resp, true));
        }
        assert(flag_read(self.limits().flag(), false));
        if resp.is_location_usable(self.request.url()) {
            Some(self.respond(resp, false))
        } else {
            None
        }
    }
}

/// Whether a fetch passes through the given states, one for each request.
pub open spec fn is_fetch(states: Seq<FetchState>, responses: Seq<Response>) -> bool {
    &&& states.len() > 0
    &&& responses.len() == states.len() - 1
    &&& states[0].followed() == 0
    &&& forall|i: int|
        0 <= i < responses.len() ==> (#[trigger] states[i]).responds(
            responses[i],
            false,
            Ok(FetchLoop::Continue(states[i + 1])),
        )
}

proof fn lemma_fetch(states: Seq<FetchState>, responses: Seq<Response>, i: int)
    requires
        is_fetch(states, responses),
        0 <= i < states.len(),
    ensures
        states[i].followed() == i,
        states[i].limits() == states[0].limits(),
        i <= states[0].limits().redirect_limit(),
    decreases i,
{
    if i > 0 {
        lemma_fetch(states, responses, i - 1);
        assert(states[i - 1].responds(
            responses[i - 1],
            false,
            Ok(FetchLoop::Continue(states[i - 1 + 1])),
        ));
    }
}

/// A fetch follows no more redirects than its limit allows: it makes at most one request more.
pub proof fn law_redirects_limited(states: Seq<FetchState>, responses: Seq<Response>)
    requires
        is_fetch(states, responses),
    ensures
        states.len() <= states[0].limits().redirect_limit() + 1,
        responses.len() <= states[0].limits().redirect_limit(),
{
    lemma_fetch(states, responses, states.len() - 1);
}

/// Where a response leads to, if it redirects.
pub open spec fn redirect_target(base: Url, resp: Response) -> Option<Url> {
    if !redirects(resp.code()) {
        None
    } else {
        match first_value(header_contents(resp.header_map()), "location"@) {
            Some(bytes) => match url_joined(base, ascii_text(bytes)) {
                Ok(url) => Some(url),
                Err(_) => None,
            },
            None => None,
        }
    }
}

/// Whether a fetch goes on from one state to another at a URL: 307 and 308 repeat the request there,
/// with its method, its headers and its body, and the others get what is there, without any. The
/// limits stay, and one more redirect was followed.
pub open spec fn goes_on(before: FetchState, after: FetchState, url: Url, status: u16) -> bool {
    &&& after.limits() == before.limits()
    &&& after.followed() == before.followed() + 1
    &&& after.next_request().target() == url
    &&& if status == 307 || status == 308 {
        &&& after.next_request().method() == before.next_request().method()
        &&& after.next_request().header_map() == before.next_request().header_map()
        &&& after.next_request().payload() == before.next_request().payload()
    } else {
        &&& method_text(after.next_request().method()) == "GET"@
        &&& body_bytes(after.next_request().payload()) == Seq::<u8>::empty()
        &&& forall|name: Seq<char>|
            !(#[trigger] header_contents(after.next_request().header_map()).contains_key(name))
    }
}

/// Whether a response was followed by the right decision. A fetch that was not aborted goes on at the
/// target of a redirect while fewer were followed than are allowed, and is otherwise one redirect
/// too far. A response that redirects to nowhere is the result, unless it announces a length that is
/// no number, or is more than the limit.
pub open spec fn follows_response(
    state: FetchState,
    resp: Response,
    aborted: bool,
    result: Result<FetchLoop, Error>,
) -> bool {
    if aborted {
        result == Err::<FetchLoop, Error>(Error::Aborted)
    } else {
        match redirect_target(state.next_request().target(), resp) {
            Some(url) => {
                &&& state.followed() < state.limits().redirect_limit() ==> (result matches Ok(
                    FetchLoop::Continue(next),
                ) && goes_on(state, next, url, resp.code()))
                &&& state.followed() >= state.limits().redirect_limit() ==> result == Err::<
                    FetchLoop,
                    Error,
                >(Error::TooManyRedirects)
            },
            None => match announced_length(header_contents(resp.header_map())) {
                Err(error) => result == Err::<FetchLoop, Error>(error),
                Ok(None) => result == Ok::<FetchLoop, Error>(FetchLoop::Break(resp)),
                Ok(Some(length)) => {
                    &&& length <= state.limits().size_limit() ==> result == Ok::<FetchLoop, Error>(
                        FetchLoop::Break(resp),
                    )
                    &&& length > state.limits().size_limit() ==> result == Err::<FetchLoop, Error>(
                        Error::SizeLimit,
                    )
                },
            },
        }
    }
}

proof fn lemma_response_followed(
    state: FetchState,
    resp: Response,
    aborted: bool,
    result: Result<FetchLoop, Error>,
)
    requires
        state.responds(resp, aborted, result),
    ensures
        follows_response(state, resp, aborted, result),
{
}

/// A response is followed by the right decision.
pub proof fn law_response_followed(
    state: FetchState,
    resp: Response,
    aborted: bool,
    result: Result<FetchLoop, Error>,
)
    requires
        aborted || resp.location_usable(state.next_request().target()),
        call_ensures(FetchState::respond, (state, resp, aborted), result),
    ensures
        follows_response(state, resp, aborted, result),
{
    lemma_response_followed(state, resp, aborted, result);
}

/// A fetch is aborted exactly if its flag was read as raised. Otherwise a response is followed by the
/// right decision, unless its location cannot be used: then there is none.
pub proof fn law_aborted_only_by_flag(
    state: FetchState,
    resp: Response,
    decision: Option<Result<FetchLoop, Error>>,
)
    requires
        call_ensures(FetchState::on_response, (state, resp), decision),
    ensures
        exists|aborted: bool| #[trigger]
            flag_read(state.limits().flag(), aborted) && if aborted {
                decision matches Some(result) && result == Err::<FetchLoop, Error>(Error::Aborted)
            } else if resp.location_usable(state.next_request().target()) {
                decision matches Some(result) && follows_response(state, resp, false, result)
            } else {
                decision is None
            },
{
    let aborted = choose|aborted: bool| #[trigger]
        flag_read(state.limits().flag(), aborted) && match decision {
            Some(result) => {
                &&& aborted || resp.location_usable(state.next_request().target())
                &&& state.responds(resp, aborted, result)
            },
            None => !aborted && !resp.location_usable(state.next_request().target()),
        };
    assert(flag_read(state.limits().flag(), aborted));
    if let Some(result) = decision {
        lemma_response_followed(state, resp, aborted, result);
    }
}

/// A fetch starts with its request, its limits and no redirect, exactly if its flag was read as not
/// raised, and so does the time for it.
pub proof fn law_fetch_started(
    request: Request,
    abort: Abort,
    state: Result<FetchState, Error>,
    time: Result<Duration, Error>,
)
    requires
        call_ensures(FetchState::start, (request, abort), state),
        call_ensures(time_for_request, (&abort,), time),
    ensures
        match state {
            Ok(s) => {
                &&& flag_read(abort.flag(), false)
                &&& s.next_request() == request
                &&& s.limits() == abort
                &&& s.followed() == 0
            },
            Err(error) => flag_read(abort.flag(), true) && error is Aborted,
        },
        match time {
            Ok(t) => flag_read(abort.flag(), false) && t == abort.time_limit(),
            Err(error) => flag_read(abort.flag(), true) && error is Aborted,
        },
{
}

/// A fetch that was not found to be aborted starts with its request, and has the time of its limits.
pub proof fn law_fetch_begun(
    request: Request,
    abort: Abort,
    aborted: bool,
    state: Result<FetchState, Error>,
    time: Result<Duration, Error>,
)
    requires
        call_ensures(FetchState::begin, (request, abort, aborted), state),
        call_ensures(allotted_time, (&abort, aborted), time),
    ensures
        state is Err <==> aborted,
        time is Err <==> aborted,
        state matches Ok(s) ==> s.next_request() == request && s.limits() == abort && s.followed()
            == 0,
        state matches Err(error) ==> error is Aborted,
        time matches Ok(t) ==> t == abort.time_limit(),
        time matches Err(error) ==> error is Aborted,
{
}

/// The response to a request is from its URL, with the given status and headers, under the limits of
/// the fetch, and nothing of its body was read.
pub proof fn law_response_of_request(
    state: FetchState,
    status: u16,
    headers: HeaderMap,
    resp: Response,
    request: &Request,
    followed: usize,
)
    requires
        call_ensures(FetchState::response, (&state, status, headers), resp),
        call_ensures(FetchState::request, (&state,), request),
        call_ensures(FetchState::redirects, (&state,), followed),
    ensures
        resp.origin() == request.target(),
        resp.code() == status,
        resp.header_map() == headers,
        resp.limits().flag() == state.limits().flag(),
        resp.limits().size_limit() == state.limits().size_limit(),
        resp.limits().time_limit() == state.limits().time_limit(),
        resp.limits().redirect_limit() == state.limits().redirect_limit(),
        resp.bytes_read() == 0,
        *request == state.next_request(),
        followed == state.followed(),
{
}

/// A client can be used exactly if its background thread runs.
pub proof fn law_client_started(startup: Startup, result: Result<(), Error>)
    requires
        call_ensures(startup_result, (startup,), result),
    ensures
        result is Ok <==> startup is Running,
        startup matches Startup::Failed(error) ==> result == Err::<(), Error>(Error::Io(error)),
        startup is Timeout || startup is Disconnected ==> (result matches Err(error) && error
            is BackgroundThreadDead),
{
}

/// A drop tells the background thread to end exactly if it leaves no client.
pub proof fn law_last_drop(events: Seq<ClientEvent>, before: usize, last: bool)
    requires
        can_happen(events.push(ClientEvent::Dropped)),
        before == clients_after(events),
        call_ensures(is_last_client, (before,), last),
    ensures
        last <==> clients_after(events.push(ClientEvent::Dropped)) == 0,
{
    let all = events.push(ClientEvent::Dropped);
    assert(all.drop_last() =~= events);
}

/// Clients are counted one by one: there is one at first, a clone adds one, and a drop takes one.
pub proof fn law_clients_counted(events: Seq<ClientEvent>)
    ensures
        clients_after(Seq::empty()) == 1,
        clients_after(events.push(ClientEvent::Cloned)) == clients_after(events) + 1,
        clients_after(events.push(ClientEvent::Dropped)) == clients_after(events) - 1,
{
    assert(events.push(ClientEvent::Cloned).drop_last() =~= events);
    assert(events.push(ClientEvent::Dropped).drop_last() =~= events);
}

} // verus!
