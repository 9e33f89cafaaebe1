//! The header map of a response, as far as the middleware writes to it.

use vstd::prelude::*;

verus! {

/// `http::HeaderValue`: the value of one header, an opaque value here.
#[verifier::external_type_specification]
#[verifier::external_body]
pub struct ExHeaderValue(http::HeaderValue);

/// `http::HeaderMap`: the headers of a request or a response. What it holds
/// is spoken of through `header_values`.
#[verifier::external_type_specification]
#[verifier::external_body]
#[verifier::reject_recursive_types(T)]
pub struct ExHeaderMap<T>(http::HeaderMap<T>);

/// What a header map holds: under each name the values set for it, oldest
/// first, each value as its bytes.
pub uninterp spec fn header_values(headers: http::HeaderMap<http::HeaderValue>) -> Map<
    Seq<char>,
    Seq<Seq<u8>>,
>;

/// The number of names under which a header map holds values, which is
/// what `HeaderMap::keys_len` counts.
pub uninterp spec fn header_count(headers: http::HeaderMap<http::HeaderValue>) -> nat;

/// A header map that holds fewer names than this always has room for one
/// more. The map refuses a name only where its table, which has at most
/// 32768 slots, would have to grow beyond that, and it grows no sooner than
/// when names fill a fifth of the slots.
pub const AMPLE_ROOM: usize = 4096;

/// A lower-case letter, a digit or a hyphen.
pub open spec fn name_char(c: char) -> bool {
    ('a' <= c && c <= 'z') || ('0' <= c && c <= '9') || c == '-'
}

/// A header name of one to 64 characters, each a lower-case letter, a digit
/// or a hyphen.
pub open spec fn plain_name(name: Seq<char>) -> bool {
    &&& 1 <= name.len() <= 64
    &&& forall|i: int| 0 <= i < name.len() ==> name_char(#[trigger] name[i])
}

/// A header value of printable ASCII characters.
pub open spec fn plain_value(value: Seq<char>) -> bool {
    forall|i: int| 0 <= i < value.len() ==> ' ' <= #[trigger] value[i] && value[i] <= '~'
}

/// The bytes of an ASCII string.
pub open spec fn bytes_of(value: Seq<char>) -> Seq<u8> {
    Seq::new(value.len(), |i: int| value[i] as u8)
}

/// Calls `HeaderValue::from_static` on `value` and `HeaderMap::try_insert`
/// with the result under `name`. On success the map holds under `name` this
/// one value, what it held under other names is as before, and it holds at
/// most one name more. The call fails only where the map cannot grow any
/// more, which a map of fewer than `AMPLE_ROOM` names always can; the map
/// is then left as it was, since `try_insert` reports the failure before it
/// touches an entry.
#[verifier::external_body]
pub(crate) fn set_header(
    headers: &mut http::HeaderMap<http::HeaderValue>,
    name: &'static str,
    value: &'static str,
) -> (set: bool)
    requires
        plain_name(name@),
        plain_value(value@),
    ensures
        header_count(*old(headers)) < AMPLE_ROOM ==> set,
        set ==> header_values(*final(headers)) == header_values(*old(headers)).insert(
            name@,
            seq![bytes_of(value@)],
        ),
        set ==> header_count(*final(headers)) <= header_count(*old(headers)) + 1,
        !set ==> header_values(*final(headers)) == header_values(*old(headers)),
        !set ==> header_count(*final(headers)) == header_count(*old(headers)),
{
    headers.try_insert(name, http::HeaderValue::from_static(value)).is_ok()
}

} // verus!
