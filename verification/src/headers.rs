//! The header set that every request to the panel carries.

use reqwest::header::{HeaderMap, HeaderName, HeaderValue};
use vstd::prelude::*;
use vstd::utf8::encode_utf8;

verus! {

/// A header value as the HTTP library holds it; opaque here.
#[verifier::external_type_specification]
#[verifier::external_body]
pub struct ExHeaderValue(reqwest::header::HeaderValue);

/// The HTTP library's header multimap; what it holds is [`header_entries`].
#[verifier::external_type_specification]
#[verifier::external_body]
#[verifier::reject_recursive_types(T)]
pub struct ExHeaderMap<T>(reqwest::header::HeaderMap<T>);

/// What a header map holds: under each header name, in lower case, the bytes
/// of every value stored for it, in the order in which the map yields them.
pub uninterp spec fn header_entries(map: HeaderMap<HeaderValue>) -> Map<Seq<char>, Seq<Seq<u8>>>;

/// Largest number of names that a map may hold before [`insert_header`] is
/// called on it. The map gives up only once its table has grown to its
/// largest size, which takes several thousand names.
const MAX_HEADER_NAMES: usize = 1024;

/// Whether a byte may stand in a header value: anything from the space up
/// except DEL, and the horizontal tab.
pub open spec fn is_value_byte(byte: u8) -> bool {
    (byte >= 32 && byte != 127) || byte == 9
}

/// Whether a text, once encoded, consists of bytes that may stand in a header
/// value.
pub open spec fn is_header_value(text: Seq<char>) -> bool {
    forall|i: int| 0 <= i < encode_utf8(text).len() ==> is_value_byte(#[trigger] encode_utf8(text)[i])
}

/// Whether a text is a plain header name: one to sixty-four lower-case
/// letters and hyphens.
spec fn is_plain_name(name: Seq<char>) -> bool {
    &&& 1 <= name.len() <= 64
    &&& forall|i: int| 0 <= i < name.len() ==> is_plain_name_char(#[trigger] name[i])
}

/// Whether a character is a lower-case letter or a hyphen.
spec fn is_plain_name_char(c: char) -> bool {
    ('a' <= c && c <= 'z') || c == '-'
}

/// The media type of the bodies that go to the panel and come back.
pub const JSON: &'static str = "application/json";

/// The name under which the watchdog introduces itself.
pub const USER_AGENT: &'static str = "guardian/0.1.0";

/// The entries of a map that holds nothing.
pub open spec fn no_headers() -> Map<Seq<char>, Seq<Seq<u8>>> {
    Map::empty()
}

/// Calls `HeaderMap::new`: the new map holds nothing.
#[verifier::external_body]
fn empty_header_map() -> (headers: HeaderMap)
    ensures
        header_entries(headers) == no_headers(),
{
    HeaderMap::new()
}

/// Calls `HeaderMap::insert` with a name made by `HeaderName::from_bytes` and
/// a value made by `HeaderValue::from_str`.
///
/// Believed of the HTTP library: a plain name parses to itself; a text whose
/// bytes may all stand in a header value parses to those bytes; and `insert`
/// on a map of fewer than [`MAX_HEADER_NAMES`] names leaves exactly the new
/// value under the name, whatever was stored for it before, and touches no
/// other name. None of the three calls fails on such arguments.
#[verifier::external_body]
fn insert_header(headers: &mut HeaderMap, name: &str, value: &str)
    requires
        is_plain_name(name@),
        is_header_value(value@),
        header_entries(*old(headers)).dom().finite(),
        header_entries(*old(headers)).dom().len() < MAX_HEADER_NAMES,
    ensures
        header_entries(*final(headers)) == header_entries(*old(headers)).insert(
            name@,
            seq![encode_utf8(value@)],
        ),
{
    let name = HeaderName::from_bytes(name.as_bytes()).unwrap();
    let value = HeaderValue::from_str(value).unwrap();
    headers.insert(name, value);
}

/// Tells whether `text` can be sent as a header value.
pub fn is_header_value_text(text: &str) -> (ok: bool)
    ensures
        ok == is_header_value(text@),
{
    let bytes = text.as_bytes();
    let mut i: usize = 0;
    while i < bytes.len()
        invariant
            i <= bytes.len(),
            bytes@ == encode_utf8(text@),
            forall|j: int| 0 <= j < i ==> is_value_byte(#[trigger] bytes@[j]),
        decreases bytes.len() - i,
    {
        let byte = bytes[i];
        if !((byte >= 32 && byte != 127) || byte == 9) {
            return false;
        }
        i += 1;
    }
    true
}

/// The entries of the header set that goes with every request, where
/// `authorization` is the text of the credential header.
pub open spec fn request_headers(authorization: Seq<char>) -> Map<Seq<char>, Seq<Seq<u8>>> {
    no_headers().insert("authorization"@, seq![encode_utf8(authorization)]).insert(
        "content-type"@,
        seq![encode_utf8(JSON@)],
    ).insert("accept"@, seq![encode_utf8(JSON@)]).insert("user-agent"@, seq![encode_utf8(USER_AGENT@)])
}

/// A text of printable ASCII characters can be sent as a header value.
pub proof fn lemma_printable_is_header_value(text: Seq<char>)
    requires
        forall|i: int| 0 <= i < text.len() ==> ' ' <= #[trigger] text[i] <= '~',
    ensures
        is_header_value(text),
{
    vstd::utf8::is_ascii_chars_encode_utf8(text);
    assert forall|i: int| 0 <= i < encode_utf8(text).len() implies is_value_byte(
        #[trigger] encode_utf8(text)[i],
    ) by {
        assert(text[i] as u8 == encode_utf8(text)[i]);
    }
}

/// Makes the header set around a credential that is known to fit in a header.
pub(crate) fn header_set(authorization: &str) -> (headers: HeaderMap)
    requires
        is_header_value(authorization@),
    ensures
        header_entries(headers) == request_headers(authorization@),
{
    proof {
        reveal_strlit("authorization");
        reveal_strlit("content-type");
        reveal_strlit("accept");
        reveal_strlit("user-agent");
        reveal_strlit("application/json");
        reveal_strlit("guardian/0.1.0");
        lemma_printable_is_header_value(JSON@);
        lemma_printable_is_header_value(USER_AGENT@);
    }
    let mut headers = empty_header_map();
    insert_header(&mut headers, "authorization", authorization);
    insert_header(&mut headers, "content-type", JSON);
    insert_header(&mut headers, "accept", JSON);
    insert_header(&mut headers, "user-agent", USER_AGENT);
    headers
}

/// Sets all the headers for a request to the panel: the credential `key`
/// under `authorization`, JSON as the content type and as the accepted type,
/// and the user agent of this watchdog.
///
/// Returns `None` exactly when `key` holds a byte that no header value may
/// hold.
pub fn set_headers(key: String) -> (headers: Option<HeaderMap>)
    ensures
        headers is Some <==> is_header_value(key@),
        headers matches Some(h) ==> header_entries(h) == request_headers(key@),
{
    if is_header_value_text(key.as_str()) {
        Some(header_set(key.as_str()))
    } else {
        None
    }
}

} // verus!
