use vstd::prelude::*;

verus! {

/// A store-assigned document identifier: twelve raw bytes.
#[derive(Clone, Copy, Debug)]
pub struct DocId {
    pub bytes: [u8; 12],
}

pub open spec fn is_hex_digit(c: char) -> bool {
    ('0' <= c && c <= '9') || ('a' <= c && c <= 'f') || ('A' <= c && c <= 'F')
}

pub open spec fn hex_value(c: char) -> int {
    if '0' <= c && c <= '9' {
        c as int - '0' as int
    } else if 'a' <= c && c <= 'f' {
        c as int - 'a' as int + 10
    } else {
        c as int - 'A' as int + 10
    }
}

/// The textual form of an identifier: exactly 24 hex digits, in either case.
pub open spec fn is_object_id_text(s: Seq<char>) -> bool {
    s.len() == 24 && forall|i: int| 0 <= i < s.len() ==> #[trigger] is_hex_digit(s[i])
}

/// The bytes that 24 hex digits spell, two digits per byte, high digit first.
pub open spec fn object_id_bytes(s: Seq<char>) -> Seq<u8> {
    Seq::new(12, |i: int| (hex_value(s[2 * i]) * 16 + hex_value(s[2 * i + 1])) as u8)
}

/// Relies on `mongodb::bson::oid::ObjectId::parse_str`, which hex-decodes the text and
/// accepts it only when that gives exactly twelve bytes.
#[verifier::external_body]
fn parse_object_id(s: &str) -> (r: Option<DocId>)
    ensures
        r is Some <==> is_object_id_text(s@),
        r matches Some(d) ==> d.bytes@ == object_id_bytes(s@),
{
    match mongodb::bson::oid::ObjectId::parse_str(s) {
        Ok(oid) => Some(DocId { bytes: oid.bytes() }),
        Err(_) => None,
    }
}

/// Parses a client-supplied identifier. Text that is not an identifier is
/// rejected as such, which callers keep apart from a missing document.
pub fn parse_id(s: &str) -> (r: Result<DocId, crate::error::ApiError>)
    ensures
        r is Ok <==> is_object_id_text(s@),
        r matches Ok(d) ==> d.bytes@ == object_id_bytes(s@),
        r is Err ==> r == Err::<DocId, crate::error::ApiError>(crate::error::ApiError::InvalidIdentifier),
{
    match parse_object_id(s) {
        Some(d) => Ok(d),
        None => Err(crate::error::ApiError::InvalidIdentifier),
    }
}

} // verus!
