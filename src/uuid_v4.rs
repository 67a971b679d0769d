//! Random version 4 UUIDs in hyphenated text form.
use vstd::prelude::*;

verus! {

/// A lower-case hexadecimal digit, `[0-9a-f]`.
pub open spec fn is_lower_hex_digit(c: char) -> bool {
    ('0' <= c <= '9') || ('a' <= c <= 'f')
}

/// The hyphenated text of a version 4 UUID: 32 lower-case hex digits in
/// groups of 8, 4, 4, 4 and 12, the version digit `4` opening the third group
/// and one of `8`, `9`, `a`, `b` opening the fourth.
pub open spec fn is_v4_uuid_text(s: Seq<char>) -> bool {
    &&& s.len() == 36
    &&& forall|i: int|
        0 <= i < 36 ==> if i == 8 || i == 13 || i == 18 || i == 23 {
            #[trigger] s[i] == '-'
        } else {
            is_lower_hex_digit(s[i])
        }
    &&& s[14] == '4'
    &&& s[19] == '8' || s[19] == '9' || s[19] == 'a' || s[19] == 'b'
}

/// Relies on `uuid::Uuid::new_v4`, which sets the version bits to 4 and the
/// variant bits to `10`, and on its `Display`, which writes the hyphenated
/// lower-case form.
#[verifier::external_body]
fn new_v4_text() -> (r: String)
    ensures
        is_v4_uuid_text(r@),
{
    uuid::Uuid::new_v4().to_string()
}

/// A random version 4 UUID, as hyphenated lower-case text.
pub fn random_uuid() -> (r: String)
    ensures
        is_v4_uuid_text(r@),
{
    new_v4_text()
}

} // verus!
