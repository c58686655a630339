//! Fresh identifiers for runs and templates, from `uuid`.
use vstd::prelude::*;

verus! {

pub open spec fn is_lower_hex(c: char) -> bool {
    ('0' <= c && c <= '9') || ('a' <= c && c <= 'f')
}

/// The text of a random (version 4) UUID in hyphenated lower-case form:
/// 36 characters, hyphens at 8, 13, 18 and 23, the version digit `4` at
/// 14, lower-case hexadecimal digits elsewhere.
pub open spec fn is_uuid_v4_text(s: Seq<char>) -> bool {
    &&& s.len() == 36
    &&& forall|i: int|
        0 <= i < 36 ==> if i == 8 || i == 13 || i == 18 || i == 23 {
            s[i] == '-'
        } else {
            is_lower_hex(#[trigger] s[i])
        }
    &&& s[14] == '4'
}

/// `uuid::Uuid::new_v4().to_string()`: a random UUID, hyphenated in lower
/// case. Which UUID comes out is left open, as the random source decides it.
#[verifier::external_body]
pub(crate) fn new_uuid() -> (r: String)
    ensures
        is_uuid_v4_text(r@),
{
    uuid::Uuid::new_v4().to_string()
}

} // verus!
