//! URLs, status codes and header maps, as the HTTP stack underneath sees them.
//!
//! The few functions here that are marked as trusted are the library's whole
//! contact with that stack; everything else reasons from their contracts.

use reqwest::header::HeaderMap;
use reqwest::header::HeaderValue;
use vstd::prelude::*;
use vstd::string::*;

use crate::text::opt_text;

verus! {

/// The most bytes that a URL, or a name or value added to its query, may have here.
pub const URL_PART_MAX: usize = 0x1000_0000;

/// Whether a status code reports success.
pub open spec fn success_status(status: u16) -> bool {
    200 <= status < 300
}

/// Whether a status code reports success.
pub fn is_success(status: u16) -> (r: bool)
    ensures
        r == success_status(status),
{
    200 <= status && status < 300
}

/// The normal form of an absolute URL, where `input` is one.
pub uninterp spec fn url_normalized(input: Seq<char>) -> Option<Seq<char>>;

/// The URL that `reference` denotes when it is read against `base`.
pub uninterp spec fn url_joined(base: Seq<char>, reference: Seq<char>) -> Option<Seq<char>>;

/// `url` with one more name and value at the end of its query.
pub uninterp spec fn url_with_pair(url: Seq<char>, name: Seq<char>, value: Seq<char>) -> Option<
    Seq<char>,
>;

/// How a status code is written: the number and its usual reason phrase.
pub uninterp spec fn status_line(status: u16) -> Seq<char>;

/// Parses an absolute URL and writes it back in normal form.
///
/// Trusted: what `Url::parse` makes of a text depends on the text alone.
#[verifier::external_body]
pub(crate) fn normalize_url(input: &str) -> (r: Option<String>)
    ensures
        opt_text(r) == url_normalized(input@),
{
    match reqwest::Url::parse(input) {
        Ok(url) => Some(url.into()),
        Err(_) => None,
    }
}

/// Resolves `reference` against `base`.
///
/// Trusted: what `Url::join` gives depends on the base and the reference
/// alone; a base that is no URL gives nothing.
#[verifier::external_body]
pub(crate) fn join_url(base: &str, reference: &str) -> (r: Option<String>)
    ensures
        opt_text(r) == url_joined(base@, reference@),
{
    match reqwest::Url::parse(base) {
        Ok(url) => match url.join(reference) {
            Ok(joined) => Some(joined.into()),
            Err(_) => None,
        },
        Err(_) => None,
    }
}

/// Appends `name=value` to the query of `url`.
///
/// Trusted: what `Serializer::append_pair` on `Url::query_pairs_mut` leaves
/// depends on the three texts alone; a `url` that is no URL gives nothing.
/// The bound keeps the URL within the 32-bit offsets that the URL type keeps.
#[verifier::external_body]
pub(crate) fn append_query_pair(url: &str, name: &str, value: &str) -> (r: Option<String>)
    requires
        url.spec_bytes().len() <= URL_PART_MAX,
        name.spec_bytes().len() <= URL_PART_MAX,
        value.spec_bytes().len() <= URL_PART_MAX,
    ensures
        opt_text(r) == url_with_pair(url@, name@, value@),
{
    match reqwest::Url::parse(url) {
        Ok(mut parsed) => {
            parsed.query_pairs_mut().append_pair(name, value);
            Some(parsed.into())
        },
        Err(_) => None,
    }
}

/// Writes a status code as the HTTP stack prints it.
///
/// Trusted: the text that a `StatusCode` made by `StatusCode::from_u16`
/// displays depends on the number alone; a number that is no status code
/// is written bare.
#[verifier::external_body]
pub(crate) fn status_text(status: u16) -> (r: String)
    ensures
        r@ == status_line(status),
{
    match reqwest::StatusCode::from_u16(status) {
        Ok(code) => format!("{}", code),
        Err(_) => format!("{}", status),
    }
}

/// The header fields that a request of this library sets.
#[derive(Clone, Copy, Debug, PartialEq, Eq, Structural)]
pub enum HeaderField {
    ContentType,
    Authorization,
}

impl HeaderField {
    /// The field's name, in lower case.
    pub open spec fn name(self) -> Seq<char> {
        match self {
            HeaderField::ContentType => "content-type"@,
            HeaderField::Authorization => "authorization"@,
        }
    }
}

/// The header map of the HTTP stack, `http::HeaderMap`. Nothing of its
/// inside is known here; [`header_lines`] names what it holds.
#[verifier::external_type_specification]
#[verifier::external_body]
#[verifier::reject_recursive_types(T)]
pub struct ExHeaderMap<T>(reqwest::header::HeaderMap<T>);

/// The header value of the HTTP stack, `http::HeaderValue`. It occurs
/// here only as what a header map holds.
#[verifier::external_type_specification]
#[verifier::external_body]
pub struct ExHeaderValue(reqwest::header::HeaderValue);

/// What a header map holds: under each field name, in lower case, the
/// values of that field from first to last, each as its bytes.
pub uninterp spec fn header_lines(map: HeaderMap<HeaderValue>) -> Map<Seq<char>, Seq<Seq<u8>>>;

/// A header map that holds nothing.
pub open spec fn no_header_lines() -> Map<Seq<char>, Seq<Seq<u8>>> {
    Map::empty()
}

/// The most field names that a header map may hold before one is added here.
pub const HEADER_FIELDS_MAX: usize = 1024;

/// Whether a byte may stand in a header value.
pub open spec fn header_value_byte(b: u8) -> bool {
    (b >= 32 && b != 127) || b == 9
}

/// Whether bytes form a header value: no control character but the tab.
pub open spec fn header_value_ok(bytes: Seq<u8>) -> bool {
    forall|i: int| 0 <= i < bytes.len() ==> header_value_byte(#[trigger] bytes[i])
}

/// An empty header map.
///
/// Trusted: `HeaderMap::new` holds no field.
#[verifier::external_body]
pub(crate) fn header_map_new() -> (map: HeaderMap<HeaderValue>)
    ensures
        header_lines(map) == no_header_lines(),
{
    HeaderMap::new()
}

/// Sets `field` to `value`, replacing what the field held; `false`, and
/// nothing changed, where `value` is no header value.
///
/// Trusted: `HeaderValue::from_str` accepts a text exactly when each of its
/// bytes is at least 32 and not 127, or is a tab; `HeaderMap::insert` leaves
/// the field with that one value and the other fields as they were. The
/// bound keeps the map far below the size at which `insert` gives up.
#[verifier::external_body]
pub(crate) fn header_map_insert(
    map: &mut HeaderMap<HeaderValue>,
    field: HeaderField,
    value: &str,
) -> (ok: bool)
    requires
        header_lines(*old(map)).dom().finite(),
        header_lines(*old(map)).dom().len() < HEADER_FIELDS_MAX,
    ensures
        ok == header_value_ok(value.spec_bytes()),
        ok ==> header_lines(*final(map)) == header_lines(*old(map)).insert(
            field.name(),
            seq![value.spec_bytes()],
        ),
        !ok ==> header_lines(*final(map)) == header_lines(*old(map)),
{
    let name = match field {
        HeaderField::ContentType => reqwest::header::CONTENT_TYPE,
        HeaderField::Authorization => reqwest::header::AUTHORIZATION,
    };
    match HeaderValue::from_str(value) {
        Ok(v) => {
            map.insert(name, v);
            true
        },
        Err(_) => false,
    }
}

} // verus!
