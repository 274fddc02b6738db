use vstd::prelude::*;

use http::HeaderMap;

verus! {

#[verifier::external_type_specification]
#[verifier::external_body]
#[verifier::reject_recursive_types(T)]
pub struct ExHeaderMap<T>(http::HeaderMap<T>);

#[verifier::external_type_specification]
#[verifier::external_body]
pub struct ExHeaderValue(http::HeaderValue);

/// What a header map holds: each lower-case name with its values, in order.
pub uninterp spec fn header_entries(m: HeaderMap) -> Map<Seq<char>, Seq<Seq<u8>>>;

/// A bound on distinct names well below the point where a header map stops growing.
pub const MAX_HEADER_NAMES: usize = 6400;

/// Characters that a static header value may hold: visible ASCII and tab.
pub open spec fn visible_ascii(s: Seq<char>) -> bool {
    forall|i: int|
        0 <= i < s.len() ==> ((32 <= #[trigger] (s[i] as u32) && (s[i] as u32) < 127) || s[i]
            == '\t')
}

/// The bytes of an ASCII string.
pub open spec fn ascii_bytes(s: Seq<char>) -> Seq<u8> {
    s.map_values(|c: char| c as u8)
}

/// Room for one more name in a header map.
pub open spec fn has_room(m: HeaderMap) -> bool {
    header_entries(m).dom().finite() && header_entries(m).dom().len() < MAX_HEADER_NAMES
}

pub open spec fn accept_encoding_name() -> Seq<char> {
    seq!['a', 'c', 'c', 'e', 'p', 't', '-', 'e', 'n', 'c', 'o', 'd', 'i', 'n', 'g']
}

/// Relies on http's `HeaderMap::insert`, which replaces all values of a name by
/// the one given and leaves the other names as they were, and on
/// `HeaderValue::from_static`, which keeps the bytes of a visible-ASCII string.
/// `insert` panics only when the map cannot grow, far above `MAX_HEADER_NAMES`.
#[verifier::external_body]
fn insert_accept_encoding(headers: &mut HeaderMap, value: &'static str)
    requires
        visible_ascii(value@),
        has_room(*old(headers)),
    ensures
        header_entries(*final(headers)) == header_entries(*old(headers)).insert(
            accept_encoding_name(),
            seq![ascii_bytes(value@)],
        ),
{
    headers.insert(http::header::ACCEPT_ENCODING, http::HeaderValue::from_static(value));
}

/// The encodings that the profile advertises.
pub open spec fn cronet_accept_encoding() -> Seq<char> {
    seq![
        'g', 'z', 'i', 'p', ',', ' ', 'd', 'e', 'f', 'l', 'a', 't', 'e', ',', ' ', 'b', 'r', ',',
        ' ', 'z', 's', 't', 'd'
    ]
}

/// Sets the accept-encoding header of a request's default headers, replacing
/// any value it had; every other header is kept.
pub fn create_headers(headers: HeaderMap) -> (r: HeaderMap)
    requires
        has_room(headers),
    ensures
        header_entries(r) == header_entries(headers).insert(
            accept_encoding_name(),
            seq![ascii_bytes(cronet_accept_encoding())],
        ),
{
    let mut headers = headers;
    let value = "gzip, deflate, br, zstd";
    proof {
        reveal_strlit("gzip, deflate, br, zstd");
        assert(value@ =~= cronet_accept_encoding());
    }
    insert_accept_encoding(&mut headers, value);
    headers
}

} // verus!
