//! Fetch error cases.

use vstd::prelude::*;

use hyper::header::ToStrError;
use hyper::Error as HyperError;
use std::io::Error as IoError;
use std::num::ParseIntError;
use tokio_timer::TimerError;
use url::ParseError;

verus! {

#[verifier::external_type_specification]
#[verifier::external_body]
pub struct ExHyperError(HyperError);

#[verifier::external_type_specification]
#[verifier::external_body]
pub struct ExIoError(IoError);

#[verifier::external_type_specification]
#[verifier::external_body]
pub struct ExUrlError(url::ParseError);

#[verifier::external_type_specification]
#[verifier::external_body]
pub struct ExTimerError(tokio_timer::TimerError);

#[verifier::external_type_specification]
#[verifier::external_body]
pub struct ExParseIntError(std::num::ParseIntError);

#[verifier::external_type_specification]
#[verifier::external_body]
pub struct ExToStrError(hyper::header::ToStrError);

/// Fetch error cases.
#[derive(Debug)]
pub enum Error {
    /// Hyper gave us an error.
    Hyper(HyperError),
    /// Some I/O error occured.
    Io(IoError),
    /// Invalid URLs where attempted to parse.
    Url(ParseError),
    /// Calling code invoked `Abort::abort`.
    Aborted,
    /// Too many redirects have been encountered.
    TooManyRedirects,
    /// tokio-timer gave us an error.
    Timer(TimerError),
    /// The maximum duration was reached.
    Timeout,
    /// The response body is too large.
    SizeLimit,
    /// The background processing thread does not run.
    BackgroundThreadDead,
    /// The CONTENT_LENGTH header could not be converted to a number
    ContentLengthParseFailed(ParseIntError),
    /// The CONTENT_LENGTH header could not be converted to a string by hyper
    ContentLengthToStrFailed(ToStrError),
}

/// The text of a URL error, as its `Display` writes it.
pub uninterp spec fn url_error_text(error: ParseError) -> Seq<char>;

/// The text of a timer error, as its `Display` writes it.
pub uninterp spec fn timer_error_text(error: TimerError) -> Seq<char>;

/// The text of a number error, as its `Display` writes it.
pub uninterp spec fn number_error_text(error: ParseIntError) -> Seq<char>;

/// Writes a `hyper::Error` through its `Display`. The text can hold that of the operating system,
/// so nothing is stated of it.
#[verifier::external_body]
fn write_hyper_error(error: &HyperError) -> (text: String) {
    format!("{}", error)
}

/// Writes a `std::io::Error` through its `Display`. The text can be that of the operating system,
/// so nothing is stated of it.
#[verifier::external_body]
fn write_io_error(error: &IoError) -> (text: String) {
    format!("{}", error)
}

/// Writes a `url::ParseError` through its `Display`: the text depends on the error alone.
#[verifier::external_body]
fn write_url_error(error: &ParseError) -> (text: String)
    ensures
        text@ == url_error_text(*error),
{
    format!("{}", error)
}

/// Writes a `tokio_timer::TimerError` through its `Display`: the text depends on the error alone.
#[verifier::external_body]
fn write_timer_error(error: &TimerError) -> (text: String)
    ensures
        text@ == timer_error_text(*error),
{
    format!("{}", error)
}

/// Writes a `std::num::ParseIntError` through its `Display`: the text depends on the error alone.
#[verifier::external_body]
fn write_number_error(error: &ParseIntError) -> (text: String)
    ensures
        text@ == number_error_text(*error),
{
    format!("{}", error)
}

/// Writes a `hyper::header::ToStrError` through its `Display`: the text is always the same.
#[verifier::external_body]
fn write_header_error(error: &ToStrError) -> (text: String)
    ensures
        text@ == "failed to convert header to a str"@,
{
    format!("{}", error)
}

impl Error {
    /// The text for the user, except where it is that of a hyper or an I/O error.
    pub open spec fn text(self) -> Option<Seq<char>> {
        match self {
            Error::Aborted => Some("The request has been aborted."@),
            Error::Hyper(_) => None,
            Error::Url(e) => Some(url_error_text(e)),
            Error::Io(_) => None,
            Error::BackgroundThreadDead => Some("background thread gone"@),
            Error::TooManyRedirects => Some("too many redirects"@),
            Error::Timer(e) => Some(timer_error_text(e)),
            Error::Timeout => Some("request timed out"@),
            Error::SizeLimit => Some("size limit reached"@),
            Error::ContentLengthParseFailed(e) => Some(number_error_text(e)),
            Error::ContentLengthToStrFailed(_) => Some(
                "failed to convert header to a str"@,
            ),
        }
    }

    /// The text for the user.
    pub fn message(&self) -> (text: String)
        ensures
            self.text() matches Some(t) ==> text@ == t,
    {
        match self {
            Error::Aborted => "The request has been aborted.".to_owned(),
            Error::Hyper(e) => write_hyper_error(e),
            Error::Url(e) => write_url_error(e),
            Error::Io(e) => write_io_error(e),
            Error::BackgroundThreadDead => "background thread gone".to_owned(),
            Error::TooManyRedirects => "too many redirects".to_owned(),
            Error::Timer(e) => write_timer_error(e),
            Error::Timeout => "request timed out".to_owned(),
            Error::SizeLimit => "size limit reached".to_owned(),
            Error::ContentLengthParseFailed(e) => write_number_error(e),
            Error::ContentLengthToStrFailed(e) => write_header_error(e),
        }
    }

    /// The error for a request that ran out of time, or whose timer failed.
    pub fn from_timeout(timer: Option<TimerError>) -> (error: Error)
        ensures
            error == match timer {
                Some(e) => Error::Timer(e),
                None => Error::Timeout,
            },
    {
        match timer {
            Some(e) => Error::Timer(e),
            None => Error::Timeout,
        }
    }
}

impl From<HyperError> for Error {
    fn from(e: HyperError) -> (error: Error) {
        Error::Hyper(e)
    }
}

impl vstd::std_specs::convert::FromSpecImpl<HyperError> for Error {
    open spec fn obeys_from_spec() -> bool {
        true
    }

    open spec fn from_spec(e: HyperError) -> Error {
        Error::Hyper(e)
    }
}

impl From<IoError> for Error {
    fn from(e: IoError) -> (error: Error) {
        Error::Io(e)
    }
}

impl vstd::std_specs::convert::FromSpecImpl<IoError> for Error {
    open spec fn obeys_from_spec() -> bool {
        true
    }

    open spec fn from_spec(e: IoError) -> Error {
        Error::Io(e)
    }
}

impl From<ParseError> for Error {
    fn from(e: ParseError) -> (error: Error) {
        Error::Url(e)
    }
}

impl vstd::std_specs::convert::FromSpecImpl<ParseError> for Error {
    open spec fn obeys_from_spec() -> bool {
        true
    }

    open spec fn from_spec(e: ParseError) -> Error {
        Error::Url(e)
    }
}

/// Errors have a text for the user: their own, or that of the error that they stand for.
pub proof fn law_error_texts(error: Error, text: String)
    requires
        call_ensures(Error::message, (&error,), text),
    ensures
        match error {
            Error::Aborted => text@ == "The request has been aborted."@,
            Error::TooManyRedirects => text@ == "too many redirects"@,
            Error::Timeout => text@ == "request timed out"@,
            Error::SizeLimit => text@ == "size limit reached"@,
            Error::BackgroundThreadDead => text@ == "background thread gone"@,
            Error::ContentLengthToStrFailed(_) => text@ == "failed to convert header to a str"@,
            Error::Url(e) => text@ == url_error_text(e),
            Error::Timer(e) => text@ == timer_error_text(e),
            Error::ContentLengthParseFailed(e) => text@ == number_error_text(e),
            Error::Hyper(_) => true,
            Error::Io(_) => true,
        },
{
}

/// A timer that failed is told from a request that ran out of time.
pub proof fn law_timeouts(timer: Option<TimerError>, error: Error)
    requires
        call_ensures(Error::from_timeout, (timer,), error),
    ensures
        error is Timeout <==> timer is None,
        timer matches Some(e) ==> error == Error::Timer(e),
{
}

/// An error stands for the one that it comes from.
pub proof fn law_errors_wrapped(
    hyper: HyperError,
    io: IoError,
    url: ParseError,
    from_hyper: Error,
    from_io: Error,
    from_url: Error,
)
    requires
        call_ensures(<Error as From<HyperError>>::from, (hyper,), from_hyper),
        call_ensures(<Error as From<IoError>>::from, (io,), from_io),
        call_ensures(<Error as From<ParseError>>::from, (url,), from_url),
    ensures
        from_hyper == Error::Hyper(hyper),
        from_io == Error::Io(io),
        from_url == Error::Url(url),
{
}

} // verus!
