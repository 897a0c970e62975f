//! Correlation identifiers: every request gets one, its own or a fresh one.

use crate::text::text_of;
use vstd::prelude::*;

verus! {

/// Name of the header that carries the correlation identifier, on requests
/// and on responses.
pub const REQUEST_ID_HEADER: &'static str = "x-request-id";

/// `c` is a hexadecimal digit in lower case.
pub open spec fn is_lower_hex(c: char) -> bool {
    ('0' <= c && c <= '9') || ('a' <= c && c <= 'f')
}

/// The places of the four hyphens in the text of a UUID.
pub open spec fn is_hyphen_position(i: int) -> bool {
    i == 8 || i == 13 || i == 18 || i == 23
}

/// `text` is a version 4 UUID in canonical form: 36 characters, hyphens at
/// 8, 13, 18 and 23, lower-case hexadecimal digits elsewhere, the version
/// digit 4 at 14 and a variant digit of 8, 9, a or b at 19.
pub open spec fn is_uuid_v4_text(text: Seq<char>) -> bool {
    &&& text.len() == 36
    &&& forall|i: int|
        0 <= i < 36 ==> if is_hyphen_position(i) {
            #[trigger] text[i] == '-'
        } else {
            is_lower_hex(text[i])
        }
    &&& text[14] == '4'
    &&& (text[19] == '8' || text[19] == '9' || text[19] == 'a' || text[19] == 'b')
}

/// The identifier that a request brings along: the value of its
/// correlation header, unless the header is missing or empty.
pub open spec fn supplied_id(header: Option<Seq<char>>) -> Option<Seq<char>> {
    match header {
        Some(value) => if value.len() != 0 {
            Some(value)
        } else {
            None
        },
        None => None,
    }
}

/// The value of a header that may be missing, as plain text.
pub open spec fn header_text(header: Option<&str>) -> Option<Seq<char>> {
    match header {
        Some(value) => Some(value@),
        None => None,
    }
}

/// `id` is a correlation identifier that a request with the header value
/// `header` may get: its own where it brings one, else a version 4 UUID.
pub open spec fn identifies(header: Option<Seq<char>>, id: Seq<char>) -> bool {
    match supplied_id(header) {
        Some(own) => id == own,
        None => is_uuid_v4_text(id),
    }
}

/// The response header that echoes the identifier `id`: name and value.
pub open spec fn echo_of(id: Seq<char>) -> (Seq<char>, Seq<char>) {
    (REQUEST_ID_HEADER@, id)
}

/// Makes a random identifier with `uuid::Uuid::new_v4` and writes it with
/// its `Display` impl. Which identifier comes out is left open; the
/// contract states only its form, which holds of every outcome: `new_v4`
/// fixes the version and the variant bits, and `Display` writes the
/// hyphenated form in lower case. The call panics where the operating
/// system cannot supply random bytes.
#[verifier::external_body]
fn fresh_uuid_v4() -> (id: String)
    ensures
        is_uuid_v4_text(id@),
{
    ::uuid::Uuid::new_v4().to_string()
}

/// The identifier that the request itself brings, if any: the value of its
/// correlation header, verbatim, unless the header is missing or empty.
pub fn reusable_id(header: Option<&str>) -> (id: Option<String>)
    ensures
        text_of(id) == supplied_id(header_text(header)),
{
    match header {
        Some(value) => {
            if value.is_empty() {
                None
            } else {
                Some(value.to_owned())
            }
        },
        None => None,
    }
}

/// A header of a response.
#[derive(Debug, Clone, PartialEq, Eq)]
pub struct ResponseHeader {
    pub name: String,
    pub value: String,
}

impl View for ResponseHeader {
    type V = (Seq<char>, Seq<char>);

    /// Name and value as plain text.
    open spec fn view(&self) -> (Seq<char>, Seq<char>) {
        (self.name@, self.value@)
    }
}

/// What a request carries through the pipeline.
#[derive(Debug, Clone, PartialEq, Eq)]
pub struct RequestContext {
    /// The correlation identifier of the request.
    pub request_id: String,
}

impl RequestContext {
    /// The response header that echoes the identifier.
    pub fn response_header(&self) -> (header: ResponseHeader)
        ensures
            header@ == echo_of(self.request_id@),
    {
        ResponseHeader { name: String::from_str(REQUEST_ID_HEADER), value: self.request_id.clone() }
    }
}

/// Gives a request its correlation identifier. `header` is the value of
/// the request's correlation header, if it has one. A value that is not
/// empty is kept as it is, whatever its form; otherwise a fresh version 4
/// UUID is made.
pub fn identify(header: Option<&str>) -> (context: RequestContext)
    ensures
        identifies(header_text(header), context.request_id@),
{
    match reusable_id(header) {
        Some(own) => RequestContext { request_id: own },
        None => RequestContext { request_id: fresh_uuid_v4() },
    }
}

/// A request without a correlation header, or with an empty one, gets a
/// version 4 UUID in canonical form, and the response echoes it under the
/// correlation header's name.
pub proof fn law_missing_id_is_generated(header: Option<Seq<char>>, id: Seq<char>)
    requires
        header is None || header == Some(Seq::<char>::empty()),
        identifies(header, id),
    ensures
        echo_of(id).0 == REQUEST_ID_HEADER@,
        is_uuid_v4_text(echo_of(id).1),
        echo_of(id).1.len() == 36,
        echo_of(id).1[8] == '-' && echo_of(id).1[13] == '-' && echo_of(id).1[18] == '-'
            && echo_of(id).1[23] == '-',
        echo_of(id).1[14] == '4',
{
    assert(is_hyphen_position(8) && is_hyphen_position(13) && is_hyphen_position(18)
        && is_hyphen_position(23));
}

/// A request that brings an identifier gets exactly that identifier back,
/// whether or not it has the form of a UUID.
pub proof fn law_supplied_id_is_echoed(value: Seq<char>, id: Seq<char>)
    requires
        value.len() != 0,
        identifies(Some(value), id),
    ensures
        echo_of(id) == (REQUEST_ID_HEADER@, value),
{
}

} // verus!
