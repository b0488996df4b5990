//! HTTP headers, as they are given in text and as they are sent.

use std::collections::HashMap;

use vstd::multiset::Multiset;
use vstd::prelude::*;

verus! {

/// How many headers can be converted at once. The table of an `http::HeaderMap` has at most 2^15
/// slots. It can ask for more, and then panics, once it holds more than a fifth of that number.
pub const MAX_HEADERS: usize = 6554;

/// The length of the longest header name.
pub const MAX_HEADER_NAME: usize = 65535;

/// A character that a header name may hold.
pub open spec fn is_name_char(c: char) -> bool {
    ||| 'a' <= c && c <= 'z'
    ||| 'A' <= c && c <= 'Z'
    ||| '0' <= c && c <= '9'
    ||| c == '!' || c == '#' || c == '$' || c == '%' || c == '&' || c == '\''
    ||| c == '*' || c == '+' || c == '-' || c == '.' || c == '^' || c == '_'
    ||| c == '`' || c == '|' || c == '~'
}

/// A text that is a header name.
pub open spec fn is_header_name(name: Seq<char>) -> bool {
    &&& 0 < name.len() <= MAX_HEADER_NAME
    &&& forall|i: int| 0 <= i < name.len() ==> is_name_char(#[trigger] name[i])
}

/// A text that is a header value: no control character but the tab.
pub open spec fn is_header_value(value: Seq<char>) -> bool {
    forall|i: int|
        0 <= i < value.len() ==> (' ' <= #[trigger] value[i] && value[i] != '\u{7f}') || value[i]
            == '\t'
}

/// The lower-case form of an ASCII letter; every other character stays.
pub open spec fn lower_char(c: char) -> char {
    if 'A' <= c && c <= 'Z' {
        ((c as u32) + 32) as char
    } else {
        c
    }
}

/// A header as it is sent: the name in lower case, the value as UTF-8.
pub open spec fn sent_header(name: Seq<char>, value: Seq<char>) -> (Seq<char>, Seq<u8>) {
    (name.map_values(|c: char| lower_char(c)), vstd::utf8::encode_utf8(value))
}

/// Whether all of the headers, given as texts, have a proper name and a proper value.
pub open spec fn all_proper(headers: Map<String, String>) -> bool {
    forall|name: String| #[trigger]
        headers.contains_key(name) ==> is_header_name(name@) && is_header_value(headers[name]@)
}

/// Whether `message` complains rightly about the headers, given as texts: in the words of the `http`
/// crate it says that a name is not proper, or a value, and there is such a one.
pub open spec fn is_complaint_about(message: Seq<char>, headers: Map<String, String>) -> bool {
    ||| {
        &&& message == "invalid HTTP header name"@
        &&& exists|name: String| #[trigger]
            headers.contains_key(name) && !is_header_name(name@)
    }
    ||| {
        &&& message == "failed to parse header value"@
        &&& exists|name: String| #[trigger]
            headers.contains_key(name) && !is_header_value(headers[name]@)
    }
}

/// How many of the headers, given as texts, are sent as `header`. It can be more than one, for
/// names that differ in case alone.
pub open spec fn times_sent(headers: Map<String, String>, header: (Seq<char>, Seq<u8>)) -> nat {
    headers.dom().filter(|name: String| sent_header(name@, headers[name]@) == header).len()
}

/// The value of a header.
#[verifier::external_type_specification]
#[verifier::external_body]
pub struct ExHeaderValue(http::HeaderValue);

/// A collection of headers.
#[verifier::external_type_specification]
#[verifier::external_body]
#[verifier::reject_recursive_types(T)]
pub struct ExHeaderMap<T>(http::HeaderMap<T>);

/// The headers that an `http::HeaderMap` holds.
pub uninterp spec fn held_headers(map: http::HeaderMap) -> Multiset<(Seq<char>, Seq<u8>)>;

/// An error of the `http` crate.
#[verifier::external_type_specification]
#[verifier::external_body]
pub struct ExHttpError(http::Error);

/// What an `http::Error` says.
pub uninterp spec fn error_text(error: http::Error) -> Seq<char>;

/// The conversion of a map of texts into an `http::HeaderMap`, by its `TryFrom`. It succeeds where
/// every name and every value is proper, and then holds each header once for each text that is sent
/// as it. Its error says that a name or a value is not proper, in the words of the `http` crate;
/// which one of several is complained about is left open. With more than `MAX_HEADERS` headers it
/// can panic.
#[verifier::external_body]
pub(crate) fn header_map(headers: &HashMap<String, String>) -> (converted: Result<
    http::HeaderMap,
    http::Error,
>)
    requires
        headers@.len() <= MAX_HEADERS,
    ensures
        match converted {
            Ok(map) => {
                &&& all_proper(headers@)
                &&& forall|header: (Seq<char>, Seq<u8>)| #[trigger]
                    held_headers(map).count(header) == times_sent(headers@, header)
            },
            Err(error) => is_complaint_about(error_text(error), headers@),
        },
{
    http::HeaderMap::try_from(headers)
}

/// `http::Error`'s `Display`: what the error says.
#[verifier::external_body]
pub(crate) fn error_message(error: &http::Error) -> (message: String)
    ensures
        message@ == error_text(*error),
{
    error.to_string()
}

/// The characters of header names are the visible ASCII characters but for the delimiters.
pub proof fn names_hold_visible_characters_but_delimiters(c: char)
    ensures
        is_name_char(c) <==> 0x21 <= c as u32 <= 0x7e && !(c == '"' || c == '(' || c == ')' || c
            == ',' || c == '/' || c == ':' || c == ';' || c == '<' || c == '=' || c == '>' || c
            == '?' || c == '@' || c == '[' || c == '\\' || c == ']' || c == '{' || c == '}'),
{
}

/// A header name is made of such characters, at least one and at most 65535 of them; a header value
/// may hold anything but control characters other than the tab.
pub proof fn proper_headers(name: Seq<char>, value: Seq<char>)
    ensures
        is_header_name(name) <==> 1 <= name.len() <= 65535 && (forall|i: int|
            0 <= i < name.len() ==> is_name_char(#[trigger] name[i])),
        is_header_value(value) <==> !(exists|i: int|
            0 <= i < value.len() && (#[trigger] value[i] < ' ' || value[i] == '\u{7f}')
                && value[i] != '\t'),
{
}

/// Headers are proper exactly where no name and no value of them is improper, and a complaint about
/// them is in the words for a name where some name is improper, or in those for a value where some
/// value is.
pub proof fn complaints_are_justified(message: Seq<char>, headers: Map<String, String>)
    ensures
        all_proper(headers) <==> !(exists|name: String| #[trigger]
            headers.contains_key(name) && (!is_header_name(name@) || !is_header_value(
                headers[name]@,
            ))),
        is_complaint_about(message, headers) ==> {
            ||| message == "invalid HTTP header name"@ && exists|name: String| #[trigger]
                headers.contains_key(name) && !is_header_name(name@)
            ||| message == "failed to parse header value"@ && exists|name: String| #[trigger]
                headers.contains_key(name) && !is_header_value(headers[name]@)
        },
        is_complaint_about(message, headers) ==> !all_proper(headers),
{
}

} // verus!
