use vstd::prelude::*;

verus! {

/// A character is a hexadecimal digit, in either case.
pub open spec fn is_hex_char(c: char) -> bool {
    ('0' <= c && c <= '9') || ('a' <= c && c <= 'f') || ('A' <= c && c <= 'F')
}

/// The value of a hexadecimal digit.
pub open spec fn hex_value(c: char) -> int {
    if '0' <= c && c <= '9' {
        c as int - '0' as int
    } else if 'a' <= c && c <= 'f' {
        c as int - 'a' as int + 10
    } else {
        c as int - 'A' as int + 10
    }
}

/// Text of a well-formed identifier: 24 hexadecimal digits.
pub open spec fn is_id_text(s: Seq<char>) -> bool {
    s.len() == 24 && forall|i: int| 0 <= i < 24 ==> is_hex_char(#[trigger] s[i])
}

/// The twelve bytes that well-formed identifier text stands for, two digits
/// each, high digit first.
pub open spec fn id_bytes_of(s: Seq<char>) -> Seq<u8> {
    Seq::new(12, |k: int| (16 * hex_value(s[2 * k]) + hex_value(s[2 * k + 1])) as u8)
}

/// What `str::to_lowercase` makes of a string.
pub uninterp spec fn lower_of(s: Seq<char>) -> Seq<char>;

/// `needle` stands somewhere in `hay` as a contiguous run.
pub open spec fn is_infix(needle: Seq<char>, hay: Seq<char>) -> bool {
    exists|i: int|
        0 <= i && i + needle.len() <= hay.len() && #[trigger] hay.subrange(i, i + needle.len())
            == needle
}

/// Relies on bson's `ObjectId::parse_str`: it hex-decodes the text (either
/// case) and accepts it exactly when that gives twelve bytes.
#[verifier::external_body]
pub(crate) fn parse_object_id(s: &str) -> (r: Option<[u8; 12]>)
    ensures
        r is Some <==> is_id_text(s@),
        r matches Some(b) ==> b@ == id_bytes_of(s@),
{
    mongodb::bson::oid::ObjectId::parse_str(s).ok().map(|o| o.bytes())
}

/// Relies on bson's `ObjectId::new`: a fresh identifier from the time, the
/// process and a counter. Nothing is promised of its bytes.
#[verifier::external_body]
pub(crate) fn fresh_object_id() -> (r: [u8; 12]) {
    mongodb::bson::oid::ObjectId::new().bytes()
}

/// Relies on chrono's `Utc::now` for the current time, in milliseconds since
/// the Unix epoch. It depends on the clock: only that it is not before the
/// epoch is promised.
#[verifier::external_body]
pub(crate) fn now_millis() -> (r: i64)
    ensures
        r >= 0,
{
    chrono::Utc::now().timestamp_millis()
}

/// Relies on `str::to_lowercase`: the result depends on the characters alone,
/// and an empty string stays empty.
#[verifier::external_body]
pub(crate) fn lowercase(s: &str) -> (r: String)
    ensures
        r@ == lower_of(s@),
        s@.len() == 0 ==> r@.len() == 0,
{
    s.to_lowercase()
}

/// Relies on `str::contains` with a string pattern: whether the pattern
/// matches a sub-slice of the string.
#[verifier::external_body]
pub(crate) fn contains_str(hay: &str, needle: &str) -> (r: bool)
    ensures
        r == is_infix(needle@, hay@),
{
    hay.contains(needle)
}

} // verus!
