//! Fresh identifiers for sessions, requests and jobs.

use crate::text::{is_blank, is_whitespace};
use vstd::prelude::*;

verus! {

/// Whether `c` is a decimal digit or one of the letters `a` to `f`.
pub open spec fn is_lower_hex(c: char) -> bool {
    ('0' <= c && c <= '9') || ('a' <= c && c <= 'f')
}

/// Whether `s` has the hyphenated form of a UUID: thirty-two lower-case hexadecimal
/// digits in groups of 8, 4, 4, 4 and 12, separated by hyphens.
pub open spec fn is_uuid_text(s: Seq<char>) -> bool {
    &&& s.len() == 36
    &&& forall|i: int|
        0 <= i < 36 ==> if i == 8 || i == 13 || i == 18 || i == 23 {
            #[trigger] s[i] == '-'
        } else {
            is_lower_hex(s[i])
        }
}

/// An identifier in UUID form is never blank.
pub proof fn lemma_uuid_text_not_blank(s: Seq<char>)
    requires
        is_uuid_text(s),
    ensures
        !is_blank(s),
{
    assert(s[8] == '-');
    assert(!is_whitespace(s[8]));
}

/// Draws a random version-4 UUID with `uuid::Uuid::new_v4` and formats it with the
/// type's `Display`. Trusted: the text is in the hyphenated lower-case form. Nothing
/// is claimed about which identifier comes out.
#[verifier::external_body]
pub(crate) fn fresh_uuid() -> (id: String)
    ensures
        is_uuid_text(id@),
{
    uuid::Uuid::new_v4().to_string()
}

} // verus!
