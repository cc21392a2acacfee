//! Fetching from a server that is played by the tests.

use bytes::Bytes;
use hbbft_node::fetch::abort::{Abort, MAX_REDR, MAX_SIZE};
use hbbft_node::fetch::client::{
    allotted_time, is_last_client, startup_result, time_for_request, FetchLoop, FetchState, Startup,
};
use hbbft_node::fetch::error::Error;
use hbbft_node::fetch::headers::content_length;
use hbbft_node::fetch::host::is_url_readable;
use hbbft_node::fetch::reader::{size_limit_message, BodyReader, ChunkEvent, ReadStep};
use hbbft_node::fetch::request::{Outgoing, Request};
use hbbft_node::fetch::response::{redirect_location, BodyEvent, Polled, Response};
use hyper::header::{
    HeaderMap, HeaderName, HeaderValue, CONTENT_LENGTH, CONTENT_TYPE, LOCATION, USER_AGENT,
};
use hyper::Method;
use std::sync::atomic::{AtomicBool, Ordering};
use std::sync::Arc;
use std::time::Duration;
use url::Url;

const ADDRESS: &str = "127.0.0.1:8080";

/// What the server answers: a status, headers, a body, and how many seconds that takes.
struct Answer {
    status: u16,
    headers: HeaderMap,
    body: Vec<u8>,
    delay: u64,
}

fn serve(outgoing: &Outgoing) -> Answer {
    let url = Url::parse(&outgoing.uri).unwrap();
    assert_eq!(url.host_str(), Some("127.0.0.1"));
    let mut answer = Answer { status: 200, headers: HeaderMap::new(), body: Vec::new(), delay: 0 };
    match url.path() {
        "/" => {
            answer.body = url.query().unwrap_or("").as_bytes().to_vec();
            let length = HeaderValue::from_str(&answer.body.len().to_string()).unwrap();
            answer.headers.insert(CONTENT_LENGTH, length);
        }
        "/redirect" => {
            answer.status = 301;
            let location = HeaderValue::from_str(url.query().unwrap_or("/")).unwrap();
            answer.headers.insert(LOCATION, location);
        }
        "/loop" => {
            answer.status = 301;
            answer.headers.insert(LOCATION, HeaderValue::from_static("/loop"));
        }
        "/delay" => {
            answer.delay = url.query().unwrap_or("0").parse().unwrap();
        }
        _ => {
            answer.status = 404;
        }
    }
    answer
}

fn get_from(url: &str) -> Request {
    Request::get_from(url).expect("the host is short").unwrap()
}

fn post_from(url: &str) -> Request {
    Request::post_from(url).expect("the host is short").unwrap()
}

/// Fetches a response and its body, and counts the requests.
fn fetch(url: &str, abort: Abort) -> (Result<(Response, Vec<u8>), Error>, usize) {
    let mut requests = 0;
    let request = match Request::get_from(url).expect("the host is short") {
        Ok(request) => request,
        Err(error) => return (Err(error), requests),
    };
    let time = match time_for_request(&abort) {
        Ok(time) => time,
        Err(error) => return (Err(error), requests),
    };
    let mut state = match FetchState::start(request, abort) {
        Ok(state) => state,
        Err(error) => return (Err(error), requests),
    };
    let mut clock = Duration::from_secs(0);
    loop {
        requests += 1;
        let outgoing = state.request().clone().into_outgoing();
        assert_eq!(outgoing.user_agent, "Parity Fetch Neo");
        let answer = serve(&outgoing);
        clock += Duration::from_secs(answer.delay);
        if clock > time {
            return (Err(Error::from_timeout(None)), requests);
        }
        let response = state.response(answer.status, answer.headers);
        match state.on_response(response).expect("the location is a text") {
            Ok(FetchLoop::Continue(next)) => state = next,
            Ok(FetchLoop::Break(response)) => return (Ok((response, answer.body)), requests),
            Err(error) => return (Err(error), requests),
        }
    }
}

/// Reads a body chunk by chunk from a response.
fn concat(mut response: Response, chunks: &[&[u8]]) -> Result<Vec<u8>, Error> {
    let mut body = Vec::new();
    for chunk in chunks {
        response.check_abort()?;
        match response.poll(false, BodyEvent::Chunk(chunk.len()))? {
            Polled::Chunk => body.extend_from_slice(chunk),
            other => panic!("expected a chunk, got {:?}", other),
        }
    }
    assert_eq!(response.poll(false, BodyEvent::End)?, Polled::End);
    Ok(body)
}

#[test]
fn it_should_fetch() {
    let (result, _) = fetch(&format!("http://{}?123", ADDRESS), Default::default());
    let (response, body) = result.unwrap();
    let body = concat(response, &[&body]);
    assert!(body.is_ok());
    let body = body.unwrap();
    assert_eq!(&body[..], b"123");
}

#[test]
fn it_should_timeout() {
    let abort = Abort::default().with_max_duration(Duration::from_secs(1));
    let (result, _) = fetch(&format!("http://{}/delay?3", ADDRESS), abort);
    match result {
        Err(Error::Timeout) => {}
        other => panic!("expected timeout, got {:?}", other),
    }
}

#[test]
fn it_should_follow_redirects() {
    let abort = Abort::default();
    let (result, requests) =
        fetch(&format!("http://{}/redirect?http://{}/", ADDRESS, ADDRESS), abort);
    assert!(result.is_ok());
    assert_eq!(requests, 2);
}

#[test]
fn it_should_follow_relative_redirects() {
    let abort = Abort::default().with_max_redirects(4);
    let (result, requests) = fetch(&format!("http://{}/redirect?/", ADDRESS), abort);
    assert!(result.is_ok());
    assert_eq!(requests, 2);
}

#[test]
fn it_should_not_follow_too_many_redirects() {
    let abort = Abort::default().with_max_redirects(3);
    let (result, requests) = fetch(&format!("http://{}/loop", ADDRESS), abort);
    match result {
        Err(Error::TooManyRedirects) => {}
        other => panic!("expected too many redirects error, got {:?}", other),
    }
    assert_eq!(requests, 4);
}

#[test]
fn it_should_read_data() {
    let abort = Abort::default();
    let (result, _) =
        fetch(&format!("http://{}?abcdefghijklmnopqrstuvwxyz", ADDRESS), abort);
    assert!(result.is_ok());
    let (response, body) = result.unwrap();
    let body = concat(response, &[&body[..10], &body[10..]]);
    assert!(body.is_ok());
    let body = body.unwrap();
    assert_eq!(&body[..], b"abcdefghijklmnopqrstuvwxyz");
}

#[test]
fn it_should_not_read_too_much_data() {
    let abort = Abort::default().with_max_size(3);
    let (result, _) = fetch(&format!("http://{}/?1234", ADDRESS), abort);
    match result {
        Err(Error::SizeLimit) => {}
        other => panic!("Expecting SizeLimit error, got {:#?}", other),
    }
}

#[test]
fn no_redirects_allowed() {
    let abort = Abort::default().with_max_redirects(0);
    let (result, requests) = fetch(&format!("http://{}/loop", ADDRESS), abort);
    assert!(matches!(result, Err(Error::TooManyRedirects)));
    assert_eq!(requests, 1);
}

#[test]
fn missing_page() {
    let (result, _) = fetch(&format!("http://{}/nowhere", ADDRESS), Abort::default());
    let (response, _) = result.unwrap();
    assert!(response.is_not_found());
    assert!(!response.is_success());
    assert_eq!(response.status(), 404);
}

#[test]
fn default_limits() {
    let abort = Abort::default();
    assert!(!abort.is_aborted());
    assert_eq!(abort.max_size(), MAX_SIZE);
    assert_eq!(abort.max_size(), 67_108_864);
    assert_eq!(abort.max_redirects(), MAX_REDR);
    assert_eq!(abort.max_redirects(), 5);
    assert_eq!(abort.max_duration(), Duration::from_secs(5));
}

#[test]
fn limits_are_set_one_by_one() {
    let abort = Abort::default()
        .with_max_size(1)
        .with_max_duration(Duration::from_millis(2))
        .with_max_redirects(3);
    assert_eq!(abort.max_size(), 1);
    assert_eq!(abort.max_duration(), Duration::from_millis(2));
    assert_eq!(abort.max_redirects(), 3);
}

#[test]
fn abort_reaches_copies() {
    let flag = Arc::new(AtomicBool::new(false));
    let abort = Abort::from(flag.clone());
    let copy = abort.clone();
    assert!(!copy.is_aborted());
    abort.abort();
    assert!(copy.is_aborted());
    assert!(flag.load(Ordering::SeqCst));
    assert_eq!(copy.max_size(), MAX_SIZE);

    assert!(matches!(time_for_request(&copy), Err(Error::Aborted)));
    let request = get_from("http://localhost/");
    assert!(matches!(FetchState::start(request, copy.clone()), Err(Error::Aborted)));
    let url = Url::parse("http://localhost/").unwrap();
    let response = Response::new(url, 200, HeaderMap::new(), copy);
    assert!(matches!(response.check_abort(), Err(Error::Aborted)));
}

#[test]
fn abort_between_requests() {
    let abort = Abort::default();
    let request = get_from("http://localhost/");
    let state = FetchState::start(request, abort.clone()).unwrap();
    let response = state.response(200, HeaderMap::new());
    abort.abort();
    assert!(matches!(state.on_response(response), Some(Err(Error::Aborted))));
}

#[test]
fn time_is_allotted_unless_aborted() {
    let abort = Abort::default().with_max_duration(Duration::from_secs(7));
    assert_eq!(allotted_time(&abort, false).unwrap(), Duration::from_secs(7));
    assert!(matches!(allotted_time(&abort, true), Err(Error::Aborted)));
    let request = get_from("http://localhost/");
    assert!(matches!(FetchState::begin(request, abort, true), Err(Error::Aborted)));
}

#[test]
fn body_is_polled_unless_aborted() {
    assert!(Response::go_on_unless(false).is_ok());
    assert!(matches!(Response::go_on_unless(true), Err(Error::Aborted)));
}

#[test]
fn startup_results() {
    assert!(startup_result(Startup::Running).is_ok());
    assert!(matches!(startup_result(Startup::Timeout), Err(Error::BackgroundThreadDead)));
    assert!(matches!(startup_result(Startup::Disconnected), Err(Error::BackgroundThreadDead)));
    let failure = std::io::Error::new(std::io::ErrorKind::Other, "no threads");
    match startup_result(Startup::Failed(failure)) {
        Err(Error::Io(error)) => assert_eq!(error.to_string(), "no threads"),
        other => panic!("expected an I/O error, got {:?}", other),
    }
}

#[test]
fn last_client_ends_background_thread() {
    assert!(!is_last_client(2));
    assert!(is_last_client(1));

    // One is cloned twice, two are dropped, one is cloned again, and then all are dropped.
    let mut clients = 1;
    let mut told = Vec::new();
    for cloned in vec![true, true, false, false, true, false, false] {
        if cloned {
            clients += 1;
        } else {
            told.push(is_last_client(clients));
            clients -= 1;
        }
    }
    assert_eq!(clients, 0);
    assert_eq!(told, vec![false, false, false, true]);
}

#[test]
fn invalid_url_is_refused() {
    match Request::get_from("not a url") {
        Some(Err(Error::Url(error))) => assert_eq!(error, url::ParseError::RelativeUrlWithoutBase),
        other => panic!("expected a URL error, got {:?}", other),
    }
    assert!(matches!(
        Request::post_from("http://"),
        Some(Err(Error::Url(url::ParseError::EmptyHost)))
    ));
}

#[test]
fn requests_have_methods() {
    let get = get_from("http://localhost/a?b").into_outgoing();
    assert_eq!(get.method, Method::GET);
    assert_eq!(get.uri, "http://localhost/a?b");
    assert!(get.body.is_empty());
    let post = post_from("http://localhost/a?b").into_outgoing();
    assert_eq!(post.method, Method::POST);
    let url = Url::parse("http://localhost/").unwrap();
    let put = Request::new(url.clone(), Method::PUT);
    assert_eq!(put.url(), &url);
    assert_eq!(put.into_outgoing().method, Method::PUT);
}

#[test]
fn request_parts_are_set() {
    let url = Url::parse("http://localhost/").unwrap();
    let other = Url::parse("http://localhost/other").unwrap();
    let mut request = Request::post(url).with_body(Bytes::from("one"));
    request.set_body(Bytes::from("two"));
    request.set_url(other.clone());
    request.headers_mut().insert(USER_AGENT, HeaderValue::from_static("me"));
    let request = request
        .with_header(CONTENT_TYPE, HeaderValue::from_static("a"))
        .with_header(CONTENT_TYPE, HeaderValue::from_static("b"));
    assert_eq!(request.url(), &other);
    assert_eq!(request.headers().get(USER_AGENT).unwrap(), "me");
    let types: Vec<_> = request.headers().get_all(CONTENT_TYPE).iter().collect();
    assert_eq!(types, vec!["a", "b"]);
    let copy = request.clone();
    assert_eq!(copy.headers(), request.headers());
    let outgoing = copy.into_outgoing();
    assert_eq!(outgoing.uri, "http://localhost/other");
    assert_eq!(outgoing.method, Method::POST);
    assert_eq!(outgoing.body, Bytes::from("two"));
}

#[test]
fn headers_have_a_capacity() {
    let mut request = get_from("http://localhost/");
    for i in 0..32768 {
        let name = HeaderName::from_bytes(format!("x-{}", i).as_bytes()).unwrap();
        request = request.try_with_header(name, HeaderValue::from_static("v")).unwrap();
    }
    let full = request.try_with_header(CONTENT_TYPE, HeaderValue::from_static("v")).unwrap_err();
    assert_eq!(full.headers().keys_len(), 32768);
    assert!(!full.headers().contains_key(CONTENT_TYPE));
    // A name that is there already takes another value.
    let name = HeaderName::from_static("x-7");
    let full = full.try_with_header(name.clone(), HeaderValue::from_static("w")).unwrap();
    assert_eq!(full.headers().keys_len(), 32768);
    let full = full.with_header(name.clone(), HeaderValue::from_static("x"));
    let values: Vec<_> = full.headers().get_all(name).iter().collect();
    assert_eq!(values, vec!["v", "w", "x"]);
}

/// What follows an answer to a request for `http://localhost/a/b`.
fn follow(status: u16, headers: HeaderMap, post: bool) -> Option<Result<FetchLoop, Error>> {
    let request = if post {
        post_from("http://localhost/a/b").with_body(Bytes::from("body"))
    } else {
        get_from("http://localhost/a/b")
    };
    let state = FetchState::start(request, Abort::default()).unwrap();
    let response = state.response(status, headers);
    state.on_response(response)
}

fn one_header(name: HeaderName, value: &[u8]) -> HeaderMap {
    let mut headers = HeaderMap::new();
    headers.insert(name, HeaderValue::from_bytes(value).unwrap());
    headers
}

#[test]
fn redirects_change_or_keep_the_method() {
    for (status, method) in vec![
        (301, Method::GET),
        (302, Method::GET),
        (303, Method::GET),
        (307, Method::POST),
        (308, Method::POST),
    ] {
        match follow(status, one_header(LOCATION, b"c"), true) {
            Some(Ok(FetchLoop::Continue(next))) => {
                assert_eq!(next.redirects(), 1);
                let body_kept = method == Method::POST;
                let outgoing = next.request().clone().into_outgoing();
                assert_eq!(outgoing.method, method);
                assert_eq!(outgoing.uri, "http://localhost/a/c");
                assert_eq!(outgoing.body.is_empty(), !body_kept);
            }
            other => panic!("expected a redirect for {}, got {:?}", status, other),
        }
    }
}

#[test]
fn other_answers_are_not_redirects() {
    for status in vec![200, 300, 304, 305, 306, 404, 500] {
        match follow(status, one_header(LOCATION, b"/c"), false) {
            Some(Ok(FetchLoop::Break(response))) => assert_eq!(response.status(), status),
            other => panic!("expected a response for {}, got {:?}", status, other),
        }
    }
    assert!(matches!(follow(301, HeaderMap::new(), false), Some(Ok(FetchLoop::Break(_)))));
    let unusable = one_header(LOCATION, b"http://");
    assert!(matches!(follow(301, unusable, false), Some(Ok(FetchLoop::Break(_)))));
}

#[test]
fn unreadable_location_is_not_decided() {
    assert!(follow(301, one_header(LOCATION, b"/\xff"), false).is_none());
    let accepted = follow(200, one_header(LOCATION, b"/\xff"), false);
    assert!(matches!(accepted, Some(Ok(FetchLoop::Break(_)))));
    let url = Url::parse("http://localhost/").unwrap();
    for (status, location, readable) in
        vec![(301, &b"/\xff"[..], false), (200, &b"/\xff"[..], true), (301, &b"/"[..], true)]
    {
        let headers = one_header(LOCATION, location);
        let response = Response::new(url.clone(), status, headers, Abort::default());
        assert_eq!(response.is_location_readable(), readable);
    }
}

/// A host that the encoding cannot count: a character far beyond all others after some of them.
fn uncountable() -> String {
    format!("{}%F4%8F%BD%B0", "a".repeat(3855))
}

#[test]
fn unjoinable_location_is_not_decided() {
    let long = format!("http://{}/", uncountable());
    assert!(follow(302, one_header(LOCATION, long.as_bytes()), false).is_none());
    let accepted = follow(200, one_header(LOCATION, long.as_bytes()), false);
    assert!(matches!(accepted, Some(Ok(FetchLoop::Break(_)))));
    for location in vec![
        format!("http://{}/", "a".repeat(5000)),
        format!("/{}", "%F4%8F%BD%B0".repeat(5000)),
        format!("?//{}", uncountable()),
        format!("http:{}", uncountable()),
    ] {
        match follow(302, one_header(LOCATION, location.as_bytes()), false) {
            Some(Ok(FetchLoop::Continue(next))) => {
                let base = Url::parse("http://localhost/a/b").unwrap();
                assert_eq!(next.request().url(), &base.join(&location).unwrap());
            }
            other => panic!("expected a redirect, got {:?}", other),
        }
    }
    // What cannot be encoded and is found to be so is not followed.
    let refused = format!("http://a{}/", uncountable());
    assert!(matches!(
        follow(302, one_header(LOCATION, refused.as_bytes()), false),
        Some(Ok(FetchLoop::Break(_)))
    ));
}

#[test]
fn files_are_joined_but_not_to_drives() {
    let redirect = |base: &Url, location: &str| {
        let headers = one_header(LOCATION, location.as_bytes());
        Response::new(base.clone(), 302, headers, Abort::default())
    };
    let drive = Url::parse("file:///C:").unwrap();
    for location in vec!["x", "file:x", "FILE:x/y", "C", "..", "D:x", "D|x"] {
        let usable = location == "D:x";
        assert_eq!(redirect(&drive, location).is_location_usable(&drive), usable, "{}", location);
    }
    let state = FetchState::start(Request::get(drive.clone()), Abort::default()).unwrap();
    assert!(state.on_response(redirect(&drive, "x")).is_none());
    for location in vec!["", "/x", "\\x", "//h/x", "?x", "#x", "http://h/", "D|/x", "file:D:/x"] {
        let response = redirect(&drive, location);
        assert!(response.is_location_usable(&drive), "{}", location);
        let expected = drive.join(location).unwrap();
        assert_eq!(redirect_location(&drive, &response), Some((expected, false)), "{}", location);
    }
    for base in vec!["file:///", "file:///a", "file:///C:/", "file:///C:x", "file:///C:/d", "http://h/C:"] {
        let base = Url::parse(base).unwrap();
        let response = redirect(&base, "x");
        assert!(response.is_location_usable(&base), "{}", base);
        let expected = base.join("x").unwrap();
        assert_eq!(redirect_location(&base, &response), Some((expected, false)), "{}", base);
    }
    let deep = Url::parse("file:///a/C|").unwrap();
    assert!(!redirect(&deep, "x").is_location_usable(&deep));
}

#[test]
fn hosts_are_found() {
    let host = uncountable();
    let alone = |text: String| is_url_readable(&text, None);
    for text in vec![
        format!("http://{}/", host),
        format!("HTTPS:{}", host),
        format!("ws:/\\/{}\\", host),
        format!("wss://{}?", host),
        format!("ftp://{}#", host),
        format!("gopher://user:p.w@d@{}:80/", host),
        format!("http://b.{}.c/", host),
        format!("file://{}/", host),
        format!("file:\\/{}", host),
        format!(" \u{1}h\ttt\np:/\r/a\t{}\r/", &host[1..]),
        format!("http://{} \n ", host),
    ] {
        assert!(!alone(text.clone()), "{}", text);
    }
    for text in vec![
        format!("http://{}", &host[1..]),
        format!("http://a{}/", host),
        format!("http://{}@localhost/", host),
        format!("http://localhost:{}/", host),
        format!("http://localhost/{}", host),
        format!("http://localhost?{}", host),
        format!("http://localhost#{}", host),
        format!("http://[{}]/", host),
        format!("http://{}.{}/", &host[..2000], &host[2000..]),
        format!("file:///{}", host),
        format!("file:{}", host),
        format!("x://{}/", host),
        format!("//{}/", host),
        format!("1http://{}/", host),
        host.clone(),
        String::new(),
    ] {
        assert!(alone(text.clone()), "{}", text);
    }
    // A text without a scheme goes by that of the base.
    assert!(!is_url_readable(&format!("//{}", host), Some("http")));
    assert!(!is_url_readable(&format!("\\//{}", host), Some("http")));
    assert!(is_url_readable(&format!("/{}", host), Some("http")));
    assert!(is_url_readable(&format!("http:{}", host), Some("http")));
    assert!(!is_url_readable(&format!("http:{}", host), Some("https")));
    assert!(!is_url_readable(&format!("//{}", host), Some("file")));
    assert!(is_url_readable(&format!("///{}", host), Some("file")));
    assert!(is_url_readable(&format!("//{}", host), Some("x")));
}

#[test]
fn hosts_are_mapped() {
    let readable = |host: String| is_url_readable(&format!("http://{}/", host), None);
    let last = "\u{10ff70}";
    assert!(!readable(format!("{}{}", "a".repeat(3855), last)));
    assert!(!readable(format!("{}\u{ad}\u{ad}{}", "a".repeat(3855), last)));
    assert!(!readable(format!("{}{}{}", "%61".repeat(1855), "A".repeat(2000), last)));
    assert!(readable(format!("{}.{}", "a".repeat(3855), last)));
    assert!(readable(format!("{}\u{3002}{}", "a".repeat(3855), last)));
    // The characters in between, and the order, matter.
    assert!(!readable(format!("{}{}", last, "a".repeat(3855))));
    assert!(readable(format!("{}\u{100000}{}", "a".repeat(3854), last)));
    assert!(!readable(format!("{}\u{20000}", "a".repeat(32799))));
    assert!(readable(format!("{}\u{20000}", "a".repeat(32790))));
    assert!(readable(format!("{}\u{20000}", "a".repeat(32810))));
}

#[test]
fn long_hosts_are_read() {
    for host in vec![
        "a".repeat(5000),
        "\u{e9}".repeat(5000),
        "\u{20000}".repeat(40000),
        format!("{}\u{20000}", "a".repeat(30000)),
        "%C3%A9".repeat(1000),
        "\u{fdfa}".repeat(200),
        "xn--9ca.XN--9CA".to_owned(),
        "[::1]".to_owned(),
    ] {
        let text = format!("http://{}/", host);
        match (Request::post_from(&text), Url::parse(&text)) {
            (Some(Ok(request)), Ok(url)) => assert_eq!(request.url(), &url),
            (Some(Err(Error::Url(error))), Err(expected)) => assert_eq!(error, expected),
            other => panic!("expected a request for {}, got {:?}", text, other),
        }
    }
    assert_eq!(get_from("http://%C3%A9.a/").into_outgoing().uri, "http://xn--9ca.a/");
    let uncounted = format!("http://{}/", uncountable());
    assert!(Request::get_from(&uncounted).is_none());
    assert!(Request::post_from(&uncounted).is_none());
    let refused = format!("http://a{}/", uncountable());
    assert!(matches!(
        Request::get_from(&refused),
        Some(Err(Error::Url(url::ParseError::IdnaError)))
    ));
    let query = format!("http://localhost/?{}", "a".repeat(5000));
    assert_eq!(get_from(&query).into_outgoing().uri, query);
}

#[test]
fn redirect_locations_are_joined() {
    let base = Url::parse("http://localhost/a/b").unwrap();
    let headers = one_header(LOCATION, b"../c?d");
    let response = Response::new(base.clone(), 307, headers, Abort::default());
    assert!(response.is_location_usable(&base));
    let expected = Url::parse("http://localhost/c?d").unwrap();
    assert_eq!(redirect_location(&base, &response), Some((expected, true)));
}

#[test]
fn content_length_is_checked() {
    match follow(200, one_header(CONTENT_LENGTH, b"67108864"), false) {
        Some(Ok(FetchLoop::Break(_))) => {}
        other => panic!("expected a response, got {:?}", other),
    }
    match follow(200, one_header(CONTENT_LENGTH, b"67108865"), false) {
        Some(Err(Error::SizeLimit)) => {}
        other => panic!("expected the size limit, got {:?}", other),
    }
    match follow(200, one_header(CONTENT_LENGTH, b"many"), false) {
        Some(Err(Error::ContentLengthParseFailed(error))) => {
            let expected = "many".parse::<u64>().unwrap_err();
            assert_eq!(error, expected);
            let message = Error::ContentLengthParseFailed(error).message();
            assert_eq!(message, expected.to_string());
        }
        other => panic!("expected a number error, got {:?}", other),
    }
    match follow(200, one_header(CONTENT_LENGTH, b"1\xff"), false) {
        Some(Err(error)) => {
            assert!(matches!(error, Error::ContentLengthToStrFailed(_)));
            assert_eq!(error.message(), "failed to convert header to a str");
        }
        other => panic!("expected a header error, got {:?}", other),
    }
}

#[test]
fn content_length_is_a_decimal_number() {
    let length = |text: &[u8]| content_length(&one_header(CONTENT_LENGTH, text));
    assert_eq!(length(b"0").unwrap(), Some(0));
    assert_eq!(length(b"+12").unwrap(), Some(12));
    assert_eq!(length(b"007").unwrap(), Some(7));
    assert_eq!(length(b"18446744073709551615").unwrap(), Some(u64::max_value()));
    for text in vec!["", "+", "-1", " 1", "1 ", "0x1", "18446744073709551616"] {
        assert!(length(text.as_bytes()).is_err(), "{:?} is not a number", text);
    }
    assert_eq!(content_length(&HeaderMap::new()).unwrap(), None);
    let mut twice = HeaderMap::new();
    twice.append(CONTENT_LENGTH, HeaderValue::from_static("1"));
    twice.append(CONTENT_LENGTH, HeaderValue::from_static("2"));
    assert_eq!(content_length(&twice).unwrap(), Some(1));
}

#[test]
fn content_types() {
    let url = Url::parse("http://localhost/").unwrap();
    let with = |headers| Response::new(url.clone(), 200, headers, Abort::default());
    let html = with(one_header(CONTENT_TYPE, b"text/html"));
    assert!(html.is_success());
    assert!(html.is_html());
    assert_eq!(html.content_type().unwrap(), "text/html");
    assert!(!with(one_header(CONTENT_TYPE, b"text/html; charset=utf-8")).is_html());
    assert!(!with(one_header(CONTENT_TYPE, b"text/htm\xec")).is_html());
    assert!(!with(HeaderMap::new()).is_html());
    assert!(with(HeaderMap::new()).content_type().is_none());
}

#[test]
fn response_hands_on_up_to_the_limit() {
    let url = Url::parse("http://localhost/").unwrap();
    let abort = Abort::default().with_max_size(10);
    let mut response = Response::new(url, 200, HeaderMap::new(), abort);
    assert!(response.check_abort().is_ok());
    assert_eq!(response.poll(false, BodyEvent::NotReady).unwrap(), Polled::NotReady);
    assert_eq!(response.poll(false, BodyEvent::Chunk(6)).unwrap(), Polled::Chunk);
    assert!(matches!(response.poll(false, BodyEvent::Chunk(5)), Err(Error::SizeLimit)));
    let huge = BodyEvent::Chunk(usize::max_value());
    assert!(matches!(response.poll(false, huge), Err(Error::SizeLimit)));
    assert_eq!(response.poll(false, BodyEvent::Chunk(4)).unwrap(), Polled::Chunk);
    assert!(matches!(response.poll(false, BodyEvent::Chunk(1)), Err(Error::SizeLimit)));
    assert!(matches!(response.poll(true, BodyEvent::Chunk(0)), Err(Error::Aborted)));
    assert_eq!(response.poll(false, BodyEvent::End).unwrap(), Polled::End);
}

/// Reads once, with a body that comes in the given chunks. The error is a text.
fn read(
    reader: &mut BodyReader,
    chunks: &mut Vec<ChunkEvent>,
    buf: &mut [u8],
) -> Result<usize, &'static str> {
    let mut n = 0;
    loop {
        match reader.read(buf, n) {
            ReadStep::Done(k) => return Ok(k),
            ReadStep::SizeLimit => return Err(size_limit_message()),
            ReadStep::NeedChunk(k) => {
                n = k;
                if let Some(end) = reader.chunk_arrived(chunks.remove(0), n) {
                    return end;
                }
            }
        }
    }
}

#[test]
fn reader_keeps_bytes_in_order() {
    let mut chunks = vec![
        ChunkEvent::Chunk(b"abc".to_vec()),
        ChunkEvent::Chunk(Vec::new()),
        ChunkEvent::Chunk(b"defgh".to_vec()),
        ChunkEvent::End,
    ];
    let mut reader = BodyReader::new(Abort::default());
    let mut buf = [0u8; 4];
    assert_eq!(read(&mut reader, &mut chunks, &mut buf), Ok(4));
    assert_eq!(&buf, b"abcd");
    assert_eq!(read(&mut reader, &mut chunks, &mut []), Ok(0));
    assert_eq!(read(&mut reader, &mut chunks, &mut buf[1..3]), Ok(2));
    assert_eq!(&buf, b"aefd");
    assert_eq!(read(&mut reader, &mut chunks, &mut buf), Ok(2));
    assert_eq!(&buf, b"ghfd");
    assert!(chunks.is_empty());
    assert_eq!(read(&mut reader, &mut chunks, &mut buf), Ok(0));
}

#[test]
fn reader_stops_at_the_limit() {
    let mut chunks = vec![ChunkEvent::Chunk(b"abcdef".to_vec())];
    let mut reader = BodyReader::new(Abort::default().with_max_size(4));
    let mut buf = [0u8; 3];
    assert_eq!(read(&mut reader, &mut chunks, &mut buf), Ok(3));
    assert_eq!(read(&mut reader, &mut chunks, &mut buf), Err("size limit exceeded"));
    assert_eq!(read(&mut reader, &mut chunks, &mut buf), Err("size limit exceeded"));
    assert_eq!(&buf, b"abc");
    assert_eq!(read(&mut reader, &mut chunks, &mut buf[..1]), Ok(1));
    assert_eq!(&buf, b"dbc");
}

#[test]
fn reader_reports_failures_once() {
    let mut chunks = vec![ChunkEvent::Chunk(b"ab".to_vec()), ChunkEvent::Failed];
    let mut reader = BodyReader::new(Abort::default());
    let mut buf = [0u8; 3];
    assert_eq!(read(&mut reader, &mut chunks, &mut buf), Err("failed to read body chunk"));
    assert_eq!(&buf, b"ab\0");
    assert_eq!(read(&mut reader, &mut chunks, &mut buf), Ok(0));
}

#[test]
fn error_messages() {
    assert_eq!(Error::Aborted.message(), "The request has been aborted.");
    assert_eq!(Error::BackgroundThreadDead.message(), "background thread gone");
    assert_eq!(Error::TooManyRedirects.message(), "too many redirects");
    assert_eq!(Error::Timeout.message(), "request timed out");
    assert_eq!(Error::SizeLimit.message(), "size limit reached");
    let io = std::io::Error::new(std::io::ErrorKind::Other, "broken pipe");
    assert_eq!(Error::from(io).message(), "broken pipe");
    assert_eq!(Error::from(url::ParseError::EmptyHost).message(), "empty host");
    let timer = Error::from_timeout(Some(tokio_timer::TimerError::NoCapacity));
    assert!(matches!(timer, Error::Timer(_)));
    assert_eq!(timer.message(), "timer out of capacity");
    assert!(matches!(Error::from_timeout(None), Error::Timeout));
}

#[test]
fn hyper_errors_are_kept() {
    let url = Url::parse("http://localhost/").unwrap();
    let mut response = Response::new(url, 200, HeaderMap::new(), Abort::default());
    let body = hyper::Body::wrap_stream(futures::stream::once::<hyper::Chunk, std::io::Error>(Err(
        std::io::Error::new(std::io::ErrorKind::Other, "cut off"),
    )));
    let failure = futures::Future::wait(futures::Stream::concat2(body)).unwrap_err();
    let text = failure.to_string();
    match response.poll(false, BodyEvent::Failed(failure)) {
        Err(error) => {
            assert!(matches!(error, Error::Hyper(_)));
            assert_eq!(error.message(), text);
        }
        other => panic!("expected an error, got {:?}", other),
    }
}
