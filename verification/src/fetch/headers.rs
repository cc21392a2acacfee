//! HTTP headers.

use vstd::prelude::*;

use super::error::Error;
use hyper::header::{HeaderMap, HeaderName, HeaderValue, ToStrError};
use std::num::ParseIntError;

verus! {

#[verifier::external_type_specification]
#[verifier::external_body]
#[verifier::reject_recursive_types(T)]
pub struct ExHeaderMap<T>(hyper::header::HeaderMap<T>);

#[verifier::external_type_specification]
#[verifier::external_body]
pub struct ExHeaderName(hyper::header::HeaderName);

#[verifier::external_type_specification]
#[verifier::external_body]
pub struct ExHeaderValue(hyper::header::HeaderValue);

/// How many different names a header map can hold.
pub const MAX_HEADER_NAMES: usize = 32768;

/// What a header map holds: by the name of a header, in lower case, the bytes of its values in
/// the order in which they were added.
pub uninterp spec fn header_contents(headers: HeaderMap) -> Map<Seq<char>, Seq<Seq<u8>>>;

/// The name of a header in lower case, as `HeaderName::as_str` gives it.
pub uninterp spec fn header_name_text(name: HeaderName) -> Seq<char>;

/// The bytes of a header value, as `HeaderValue::as_bytes` gives them.
pub uninterp spec fn header_value_bytes(value: HeaderValue) -> Seq<u8>;

/// The error of `str::parse` for a text that is not a number.
pub uninterp spec fn parse_number_error(text: Seq<char>) -> ParseIntError;

/// The error of `HeaderValue::to_str` for bytes that are not all visible.
pub uninterp spec fn to_str_error(bytes: Seq<u8>) -> ToStrError;

/// The text of ASCII bytes.
pub open spec fn ascii_text(bytes: Seq<u8>) -> Seq<char> {
    bytes.map_values(|byte: u8| byte as char)
}

/// Whether all bytes are visible ASCII characters, spaces or tabs.
pub open spec fn visible_ascii(bytes: Seq<u8>) -> bool {
    forall|i: int| 0 <= i < bytes.len() ==> 32 <= #[trigger] bytes[i] < 127 || bytes[i] == 9
}

/// The contents of a header map without headers.
pub open spec fn no_headers() -> Map<Seq<char>, Seq<Seq<u8>>> {
    Map::empty()
}

/// The contents of a header map after a value was added.
pub open spec fn with_value(
    contents: Map<Seq<char>, Seq<Seq<u8>>>,
    name: Seq<char>,
    value: Seq<u8>,
) -> Map<Seq<char>, Seq<Seq<u8>>> {
    let values = if contents.contains_key(name) {
        contents[name]
    } else {
        Seq::empty()
    };
    contents.insert(name, values.push(value))
}

/// Whether a value can be added for a name: one that is there already, or another one within the
/// capacity.
pub open spec fn has_room(contents: Map<Seq<char>, Seq<Seq<u8>>>, name: Seq<char>) -> bool {
    contents.contains_key(name) || contents.dom().len() < MAX_HEADER_NAMES
}

/// The first value of a header, if there is one.
pub open spec fn first_value(contents: Map<Seq<char>, Seq<Seq<u8>>>, name: Seq<char>) -> Option<
    Seq<u8>,
> {
    if contents.contains_key(name) {
        Some(contents[name][0])
    } else {
        None
    }
}

/// Whether a text can be the name of a header in lower case: letters and hyphens.
pub open spec fn is_header_name(name: Seq<char>) -> bool {
    &&& 0 < name.len() < 64
    &&& forall|i: int| 0 <= i < name.len() ==> 'a' <= #[trigger] name[i] <= 'z' || name[i] == '-'
}

/// The number that decimal digits denote.
pub open spec fn decimal_digits(text: Seq<char>) -> Option<nat>
    decreases text.len(),
{
    if text.len() == 0 {
        Some(0)
    } else {
        match decimal_digits(text.drop_last()) {
            Some(high) => if '0' <= text.last() <= '9' {
                Some((10 * high + (text.last() as int - '0' as int)) as nat)
            } else {
                None
            },
            None => None,
        }
    }
}

/// The number that a text denotes: at least one digit, after a plus sign or none.
pub open spec fn decimal_number(text: Seq<char>) -> Option<nat> {
    let digits = if text.len() > 0 && text[0] == '+' {
        text.drop_first()
    } else {
        text
    };
    if digits.len() == 0 {
        None
    } else {
        decimal_digits(digits)
    }
}

/// Calls `hyper::header::HeaderMap::new`.
#[verifier::external_body]
pub(crate) fn new_headers() -> (headers: HeaderMap)
    ensures
        header_contents(headers) == no_headers(),
{
    HeaderMap::new()
}

/// Calls the `clone` of `hyper::header::HeaderMap`: the copy holds the same headers.
#[verifier::external_body]
pub(crate) fn clone_headers(headers: &HeaderMap) -> (copy: HeaderMap)
    ensures
        header_contents(copy) == header_contents(*headers),
{
    headers.clone()
}

/// Calls `hyper::header::HeaderMap::append`, which panics when a new name exceeds the capacity:
/// the value is added behind the other values of the header.
#[verifier::external_body]
pub(crate) fn append_header(headers: &mut HeaderMap, name: HeaderName, value: HeaderValue)
    requires
        has_room(header_contents(*old(headers)), header_name_text(name)),
    ensures
        header_contents(*final(headers)) == with_value(
            header_contents(*old(headers)),
            header_name_text(name),
            header_value_bytes(value),
        ),
{
    headers.append(name, value);
}

/// Calls `hyper::header::HeaderMap::keys_len`: the number of different names.
#[verifier::external_body]
pub(crate) fn count_names(headers: &HeaderMap) -> (number: usize)
    ensures
        number == header_contents(*headers).dom().len(),
{
    headers.keys_len()
}

/// Calls `hyper::header::HeaderMap::contains_key`.
#[verifier::external_body]
pub(crate) fn has_header(headers: &HeaderMap, name: &HeaderName) -> (found: bool)
    ensures
        found == header_contents(*headers).contains_key(header_name_text(*name)),
{
    headers.contains_key(name)
}

/// Calls `hyper::header::HeaderMap::get` for a name in lower case, and copies the first value of
/// the header.
#[verifier::external_body]
pub(crate) fn get_header(headers: &HeaderMap, name: &str) -> (value: Option<HeaderValue>)
    requires
        is_header_name(name@),
    ensures
        (match value {
            Some(v) => Some(header_value_bytes(v)),
            None => None,
        }) == first_value(header_contents(*headers), name@),
{
    headers.get(name).cloned()
}

/// Calls `hyper::header::HeaderValue::to_str`: the text of the bytes if all of them are visible,
/// and otherwise an error.
#[verifier::external_body]
pub(crate) fn header_text(value: &HeaderValue) -> (text: Result<String, ToStrError>)
    ensures
        match text {
            Ok(t) => visible_ascii(header_value_bytes(*value)) && t@ == ascii_text(
                header_value_bytes(*value),
            ),
            Err(error) => !visible_ascii(header_value_bytes(*value)) && error == to_str_error(
                header_value_bytes(*value),
            ),
        },
{
    value.to_str().map(|text| text.to_owned())
}

/// Compares a `hyper::header::HeaderValue` with an ASCII text by its `==`: whether the bytes are
/// those of the text.
#[verifier::external_body]
pub(crate) fn header_is(value: &HeaderValue, text: &str) -> (equal: bool)
    requires
        forall|i: int| 0 <= i < text@.len() ==> (#[trigger] text@[i] as int) < 128,
    ensures
        equal == (ascii_text(header_value_bytes(*value)) == text@),
{
    *value == *text
}

/// Calls `str::parse` for a `u64`: the number that the text denotes, if it denotes one that fits,
/// and otherwise an error that depends on the text alone.
#[verifier::external_body]
fn parse_number(text: &str) -> (number: Result<u64, ParseIntError>)
    ensures
        match number {
            Ok(n) => decimal_number(text@) == Some(n as nat),
            Err(error) => {
                &&& decimal_number(text@) matches Some(n) ==> n > u64::MAX
                &&& error == parse_number_error(text@)
            },
        },
{
    text.parse::<u64>()
}

/// What the content-length header announces: nothing if it is missing, and an error if its value is
/// not a number.
pub open spec fn announced_length(contents: Map<Seq<char>, Seq<Seq<u8>>>) -> Result<
    Option<nat>,
    Error,
> {
    match first_value(contents, "content-length"@) {
        None => Ok(None),
        Some(bytes) => if !visible_ascii(bytes) {
            Err(Error::ContentLengthToStrFailed(to_str_error(bytes)))
        } else {
            match decimal_number(ascii_text(bytes)) {
                Some(number) if number <= u64::MAX => Ok(Some(number)),
                _ => Err(Error::ContentLengthParseFailed(parse_number_error(ascii_text(bytes)))),
            }
        },
    }
}

/// Reads the content-length header.
pub fn content_length(headers: &HeaderMap) -> (length: Result<Option<u64>, Error>)
    ensures
        match (length, announced_length(header_contents(*headers))) {
            (Ok(None), Ok(None)) => true,
            (Ok(Some(l)), Ok(Some(announced))) => l == announced,
            (Err(error), Err(expected)) => error == expected,
            _ => false,
        },
{
    proof {
        reveal_strlit("content-length");
    }
    let value = match get_header(headers, "content-length") {
        Some(value) => value,
        None => return Ok(None),
    };
    let text = match header_text(&value) {
        Ok(text) => text,
        Err(error) => return Err(Error::ContentLengthToStrFailed(error)),
    };
    match parse_number(text.as_str()) {
        Ok(number) => Ok(Some(number)),
        Err(error) => Err(Error::ContentLengthParseFailed(error)),
    }
}

/// A value is added behind the others of its name, and other names keep their values.
pub proof fn law_value_added(
    contents: Map<Seq<char>, Seq<Seq<u8>>>,
    name: Seq<char>,
    value: Seq<u8>,
    other: Seq<char>,
)
    requires
        contents.contains_key(name) ==> contents[name].len() > 0,
    ensures
        with_value(contents, name, value).contains_key(name),
        with_value(contents, name, value)[name].last() == value,
        contents.contains_key(name) ==> with_value(contents, name, value)[name].drop_last()
            == contents[name],
        !contents.contains_key(name) ==> with_value(contents, name, value)[name].len() == 1,
        other != name ==> with_value(contents, name, value).contains_key(other)
            == contents.contains_key(other) && with_value(contents, name, value)[other]
            == contents[other],
        first_value(with_value(contents, name, value), name) == Some(
            if contents.contains_key(name) {
                contents[name][0]
            } else {
                value
            },
        ),
        other != name ==> first_value(with_value(contents, name, value), other) == first_value(
            contents,
            other,
        ),
        first_value(no_headers(), name) is None,
{
    if contents.contains_key(name) {
        assert(with_value(contents, name, value)[name].drop_last() =~= contents[name]);
    }
}

/// Decimal digits are read from the left: one more digit makes the number ten times as large and adds
/// the digit. Anything else among them denotes no number.
pub proof fn law_decimal_digits(text: Seq<char>, next: char)
    ensures
        decimal_digits(Seq::empty()) == Some(0nat),
        decimal_digits(text) matches Some(number) ==> ('0' <= next <= '9' ==> decimal_digits(
            text.push(next),
        ) == Some((number * 10 + (next as int - 48)) as nat)),
        decimal_digits(text) is None || next < '0' || next > '9' ==> decimal_digits(
            text.push(next),
        ) is None,
{
    assert(text.push(next).drop_last() =~= text);
}

/// A number has at least one digit. A plus sign before it does not matter.
pub proof fn law_decimal_number(text: Seq<char>)
    ensures
        decimal_number(Seq::empty()) is None,
        decimal_number(seq!['+']) is None,
        text.len() > 0 && text[0] != '+' ==> decimal_number(text) == decimal_digits(text),
        text.len() > 0 && text[0] != '+' ==> decimal_number(seq!['+'] + text) == decimal_digits(
            text,
        ),
{
    assert((seq!['+'] + text).drop_first() =~= text);
    assert(seq!['+'].drop_first() =~= Seq::<char>::empty());
}

/// The length that is announced is the number in the first content-length header, if there is one.
/// A value that is no text, and a text that is no number of 64 bits, are errors of their own.
pub proof fn law_content_length(headers: HeaderMap, length: Result<Option<u64>, Error>)
    requires
        call_ensures(content_length, (&headers,), length),
    ensures
        match first_value(header_contents(headers), "content-length"@) {
            None => length matches Ok(None),
            Some(bytes) => {
                &&& !(length matches Ok(None))
                &&& (length matches Err(Error::ContentLengthToStrFailed(_))) <==> exists|i: int|
                    0 <= i < bytes.len() && !(32 <= (#[trigger] bytes[i]) < 127 || bytes[i] == 9)
                &&& length matches Ok(Some(number)) ==> decimal_number(ascii_text(bytes)) == Some(
                    number as nat,
                )
                &&& length matches Err(error) ==> error is ContentLengthToStrFailed
                    || error is ContentLengthParseFailed
                &&& length matches Err(Error::ContentLengthParseFailed(_)) ==> (decimal_number(
                    ascii_text(bytes),
                ) matches Some(number) ==> number > 0xffff_ffff_ffff_ffff)
            },
        },
{
}

/// The text of ASCII bytes has a character for each of them.
pub proof fn law_ascii_text(bytes: Seq<u8>)
    ensures
        ascii_text(bytes).len() == bytes.len(),
        forall|i: int|
            0 <= i < bytes.len() ==> (#[trigger] ascii_text(bytes)[i]) == bytes[i] as char,
{
}

/// What is announced is what the first content-length header says.
pub proof fn law_announced_length(contents: Map<Seq<char>, Seq<Seq<u8>>>)
    ensures
        match first_value(contents, "content-length"@) {
            None => announced_length(contents) == Ok::<Option<nat>, Error>(None),
            Some(bytes) => match announced_length(contents) {
                Ok(None) => false,
                Ok(Some(number)) => decimal_number(ascii_text(bytes)) == Some(number) && number
                    <= 0xffff_ffff_ffff_ffff && forall|i: int|
                    0 <= i < bytes.len() ==> 32 <= (#[trigger] bytes[i]) < 127 || bytes[i] == 9,
                Err(Error::ContentLengthToStrFailed(error)) => error == to_str_error(bytes)
                    && exists|i: int|
                    0 <= i < bytes.len() && !(32 <= (#[trigger] bytes[i]) < 127 || bytes[i] == 9),
                Err(Error::ContentLengthParseFailed(error)) => error == parse_number_error(
                    ascii_text(bytes),
                ) && (decimal_number(ascii_text(bytes)) matches Some(number) ==> number
                    > 0xffff_ffff_ffff_ffff),
                Err(_) => false,
            },
        },
{
}

} // verus!
