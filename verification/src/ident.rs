//! Fresh task ids.

use vstd::prelude::*;

verus! {

/// Whether `c` is one of `0`..`9`, `a`..`f`.
pub open spec fn is_lower_hex(c: char) -> bool {
    ('0' <= c && c <= '9') || ('a' <= c && c <= 'f')
}

/// Whether `text` has the shape of a random (version 4) UUID in its usual
/// writing: 36 characters, hyphens after the 8th, 12th, 16th and 20th digit,
/// lower-case hexadecimal digits elsewhere, the version digit `4` and a
/// variant digit of `8`, `9`, `a` or `b`.
pub open spec fn is_uuid_v4_text(text: Seq<char>) -> bool {
    &&& text.len() == 36
    &&& forall|i: int|
        0 <= i < 36 ==> if i == 8 || i == 13 || i == 18 || i == 23 {
            #[trigger] text[i] == '-'
        } else {
            is_lower_hex(#[trigger] text[i])
        }
    &&& text[14] == '4'
    &&& (text[19] == '8' || text[19] == '9' || text[19] == 'a' || text[19] == 'b')
}

/// A new random id: `uuid::Uuid::new_v4()`, written out by its `Display`.
///
/// The digits come from the operating system's random source, so nothing is
/// claimed of them but the shape that every version 4 UUID has; the call
/// panics where that source cannot be read. Two calls give two ids that
/// differ but for a chance of about one in 2^122: that is no theorem, and
/// nothing here relies on it.
#[verifier::external_body]
pub(crate) fn fresh_id() -> (id: String)
    ensures
        is_uuid_v4_text(id@),
{
    uuid::Uuid::new_v4().to_string()
}

} // verus!
