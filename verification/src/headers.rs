use http::{HeaderMap, HeaderValue};
use vstd::multiset::Multiset;
use vstd::prelude::*;

verus! {

#[verifier::external_type_specification]
#[verifier::external_body]
pub struct ExHeaderValue(HeaderValue);

#[verifier::external_type_specification]
#[verifier::external_body]
#[verifier::reject_recursive_types(T)]
pub struct ExHeaderMap<T>(HeaderMap<T>);

/// What a header map holds: one `(name, value)` pair for each value stored,
/// the name in the lower case form that `http` keeps names in.
pub uninterp spec fn header_entries(map: HeaderMap) -> Multiset<(Seq<char>, Seq<u8>)>;

/// Whether `http` counts two header maps as equal (`==` on `HeaderMap`).
pub uninterp spec fn same_headers(a: HeaderMap, b: HeaderMap) -> bool;

/// A character that may stand in a header name (an HTTP token character).
pub open spec fn is_token_char(c: char) -> bool {
    ||| 'a' <= c && c <= 'z'
    ||| 'A' <= c && c <= 'Z'
    ||| '0' <= c && c <= '9'
    ||| c == '!' || c == '#' || c == '$' || c == '%' || c == '&' || c == '\''
    ||| c == '*' || c == '+' || c == '-' || c == '.' || c == '^' || c == '_'
    ||| c == '`' || c == '|' || c == '~'
}

/// A header name that `http` takes from a static string without panicking and
/// reads from its short-name table: 1 to 64 token characters.
pub open spec fn valid_header_name(name: Seq<char>) -> bool {
    &&& 0 < name.len() <= 64
    &&& forall|i: int| 0 <= i < name.len() ==> is_token_char(#[trigger] name[i])
}

/// A header value that `HeaderValue::from_static` accepts: visible ASCII or tab.
pub open spec fn valid_header_value(value: Seq<char>) -> bool {
    forall|i: int|
        0 <= i < value.len() ==> ((' ' <= #[trigger] value[i] && value[i] <= '~') || value[i] == '\t')
}

/// `c` in lower case, for ASCII letters.
pub open spec fn lower_char(c: char) -> char {
    if 'A' <= c && c <= 'Z' {
        ((c as int) + 32) as char
    } else {
        c
    }
}

/// The lower case form of an ASCII header name.
pub open spec fn lower_name(name: Seq<char>) -> Seq<char> {
    name.map_values(|c: char| lower_char(c))
}

/// The bytes of an ASCII text.
pub open spec fn ascii_bytes(text: Seq<char>) -> Seq<u8> {
    text.map_values(|c: char| c as u8)
}

/// The most values this library lets a map hold before it adds one; well
/// under the capacity beyond which `HeaderMap::append` panics.
pub const MAX_HEADERS: usize = 4096;

/// Calls `HeaderMap::new`, which makes an empty map without allocating.
#[verifier::external_body]
pub(crate) fn empty_headers() -> (map: HeaderMap)
    ensures
        header_entries(map) =~= Multiset::empty(),
{
    HeaderMap::new()
}

/// Calls `HeaderMap::len`, the number of values stored in the map.
#[verifier::external_body]
pub(crate) fn header_count(map: &HeaderMap) -> (n: usize)
    ensures
        n == header_entries(*map).len(),
{
    map.len()
}

/// Whether one more header may be added to `map`: it holds fewer than
/// `MAX_HEADERS` values.
pub fn has_header_room(map: &HeaderMap) -> (r: bool)
    ensures
        r == (header_entries(*map).len() < MAX_HEADERS),
{
    header_count(map) < MAX_HEADERS
}

/// Calls `HeaderMap::append` with a static name and a value made by
/// `HeaderValue::from_static`: the map then holds one more value, under the
/// lower case form of the name, and keeps every value it held.
#[verifier::external_body]
pub(crate) fn append_header(map: &mut HeaderMap, name: &'static str, value: &'static str)
    requires
        valid_header_name(name@),
        valid_header_value(value@),
        header_entries(*old(map)).len() < MAX_HEADERS,
    ensures
        header_entries(*final(map)) == header_entries(*old(map)).insert(
            (lower_name(name@), ascii_bytes(value@)),
        ),
{
    map.append(name, HeaderValue::from_static(value));
}

/// Calls `==` on two header maps.
#[verifier::external_body]
pub(crate) fn headers_equal(a: &HeaderMap, b: &HeaderMap) -> (r: bool)
    ensures
        r == same_headers(*a, *b),
{
    a == b
}

} // verus!
