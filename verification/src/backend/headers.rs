//! The parts of the `http` crate that request preparation relies on.

use vstd::prelude::*;

verus! {

/// `http::Method`, carried through unopened.
#[verifier::external_type_specification]
#[verifier::external_body]
pub struct ExMethod(http::Method);

/// `http::header::HeaderName`, carried through unopened.
#[verifier::external_type_specification]
#[verifier::external_body]
pub struct ExHeaderName(http::header::HeaderName);

/// `http::header::HeaderValue`, carried through unopened.
#[verifier::external_type_specification]
#[verifier::external_body]
pub struct ExHeaderValue(http::header::HeaderValue);

/// `http::header::HeaderMap`, filled and carried through unopened.
#[verifier::external_type_specification]
#[verifier::external_body]
#[verifier::reject_recursive_types(T)]
pub struct ExHeaderMap<T>(http::header::HeaderMap<T>);

/// The text of a method, as `http::Method::as_str` gives it.
pub uninterp spec fn method_text(method: http::Method) -> Seq<char>;

/// The normalised text of a header name, as `HeaderName::as_str` gives it.
pub uninterp spec fn header_name_text(name: http::header::HeaderName) -> Seq<char>;

/// The bytes of a header value, as `HeaderValue::as_bytes` gives them.
pub uninterp spec fn header_value_bytes(value: http::header::HeaderValue) -> Seq<u8>;

/// What a header map holds: for each name in it, the bytes of the values
/// under that name, in the order in which they were put there.
pub uninterp spec fn header_map_entries(
    headers: http::header::HeaderMap<http::header::HeaderValue>,
) -> Map<Seq<char>, Seq<Seq<u8>>>;

/// The entries of a header map that holds nothing.
pub open spec fn no_entries() -> Map<Seq<char>, Seq<Seq<u8>>> {
    Map::empty()
}

/// The values that `entries` hold under `name`: none where the name is not
/// in it.
pub open spec fn values_under(entries: Map<Seq<char>, Seq<Seq<u8>>>, name: Seq<char>) -> Seq<
    Seq<u8>,
> {
    if entries.contains_key(name) {
        entries[name]
    } else {
        Seq::empty()
    }
}

/// `entries` with `value` behind the values that are under `name` already.
pub open spec fn appended(
    entries: Map<Seq<char>, Seq<Seq<u8>>>,
    name: Seq<char>,
    value: Seq<u8>,
) -> Map<Seq<char>, Seq<Seq<u8>>> {
    entries.insert(name, values_under(entries, name).push(value))
}

/// A character that a header name may hold: a letter, a digit, or one of
/// the fifteen signs that a token admits.
pub open spec fn is_token_char(c: char) -> bool {
    ||| 'a' <= c <= 'z'
    ||| 'A' <= c <= 'Z'
    ||| '0' <= c <= '9'
    ||| c == '!'
    ||| c == '#'
    ||| c == '$'
    ||| c == '%'
    ||| c == '&'
    ||| c == '\''
    ||| c == '*'
    ||| c == '+'
    ||| c == '-'
    ||| c == '.'
    ||| c == '^'
    ||| c == '_'
    ||| c == '`'
    ||| c == '|'
    ||| c == '~'
}

/// The longest header name, in characters.
pub const MAX_HEADER_NAME_LEN: usize = 65535;

/// A text that `HeaderName::from_str` admits: one to 65535 token
/// characters.
pub open spec fn is_header_name(text: Seq<char>) -> bool {
    &&& 1 <= text.len() <= MAX_HEADER_NAME_LEN
    &&& forall|i: int| 0 <= i < text.len() ==> is_token_char(#[trigger] text[i])
}

/// A character with an upper-case letter of the ASCII alphabet made lower
/// case.
pub open spec fn lowered(c: char) -> char {
    if 'A' <= c <= 'Z' {
        ((c as u8 + 32) as u8) as char
    } else {
        c
    }
}

/// The spelling in which a header name is kept: its ASCII letters in lower
/// case.
pub open spec fn normalised(text: Seq<char>) -> Seq<char> {
    Seq::new(text.len(), |i: int| lowered(text[i]))
}

/// The header name that `text` stands for, in the spelling in which it is
/// kept, or `None` where it is no header name.
pub open spec fn parsed_header_name(text: Seq<char>) -> Option<Seq<char>> {
    if is_header_name(text) {
        Some(normalised(text))
    } else {
        None
    }
}

/// The nine methods that a tunnelled request may name.
pub open spec fn is_known_method(name: Seq<char>) -> bool {
    ||| name == "GET"@
    ||| name == "POST"@
    ||| name == "PUT"@
    ||| name == "DELETE"@
    ||| name == "HEAD"@
    ||| name == "OPTIONS"@
    ||| name == "TRACE"@
    ||| name == "CONNECT"@
    ||| name == "PATCH"@
}

/// A character that `HeaderValue::from_str` admits: a tab, or anything from
/// the space upwards but the delete character.
pub open spec fn is_header_value_char(c: char) -> bool {
    c == '\t' || (c >= ' ' && c != '\x7f')
}

/// A text that `HeaderValue::from_str` admits.
pub open spec fn is_header_value(text: Seq<char>) -> bool {
    forall|i: int| 0 <= i < text.len() ==> is_header_value_char(#[trigger] text[i])
}

/// The number of names below which a header map surely takes one more.
pub const HEADER_MAP_ROOM: usize = 6554;

/// `http::Method::from_bytes`: a method whose text is the name it was parsed
/// from. Each of the nine known names is accepted.
#[verifier::external_body]
pub(crate) fn method_from_name(name: &str) -> (r: Option<http::Method>)
    ensures
        is_known_method(name@) ==> r is Some,
        r matches Some(m) ==> method_text(m) == name@,
{
    http::Method::from_bytes(name.as_bytes()).ok()
}

/// `HeaderName::from_str`: a header name for a text of one to 65535 token
/// characters, and for no other. The name is kept with its ASCII letters in
/// lower case.
#[verifier::external_body]
pub(crate) fn header_name_from_str(text: &str) -> (r: Option<http::header::HeaderName>)
    ensures
        r is Some <==> is_header_name(text@),
        r matches Some(name) ==> header_name_text(name) == normalised(text@),
{
    text.parse::<http::header::HeaderName>().ok()
}

/// `HeaderValue::from_str`: a value that holds the bytes of the text, for a
/// text made of admitted characters only.
#[verifier::external_body]
pub(crate) fn header_value_from_str(text: &str) -> (r: Option<http::header::HeaderValue>)
    ensures
        r is Some <==> is_header_value(text@),
        r matches Some(value) ==> header_value_bytes(value) == vstd::utf8::encode_utf8(text@),
{
    http::header::HeaderValue::from_str(text).ok()
}

/// `HeaderMap::new`: a map without entries.
#[verifier::external_body]
pub(crate) fn header_map_new() -> (r: http::header::HeaderMap<http::header::HeaderValue>)
    ensures
        header_map_entries(r) == no_entries(),
{
    http::header::HeaderMap::new()
}

/// `HeaderMap::try_append`: the value goes behind the values that the map
/// holds under the name already. The map refuses only when it is out of
/// room, and then stays as it was; below `HEADER_MAP_ROOM` names it does not
/// refuse.
#[verifier::external_body]
pub(crate) fn header_map_append(
    headers: &mut http::header::HeaderMap<http::header::HeaderValue>,
    name: http::header::HeaderName,
    value: http::header::HeaderValue,
) -> (r: bool)
    ensures
        r ==> header_map_entries(*final(headers)) == appended(
            header_map_entries(*old(headers)),
            header_name_text(name),
            header_value_bytes(value),
        ),
        !r ==> header_map_entries(*final(headers)) == header_map_entries(*old(headers)),
        header_map_entries(*old(headers)).dom().finite() && header_map_entries(
            *old(headers),
        ).dom().len() < HEADER_MAP_ROOM ==> r,
{
    headers.try_append(name, value).is_ok()
}

} // verus!
