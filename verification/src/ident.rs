//! Fresh identifiers for new dogs.

use vstd::prelude::*;

verus! {

/// Whether `c` is one of `0` to `9` or `a` to `f`.
pub open spec fn is_lower_hex(c: char) -> bool {
    ('0' as u32 <= c as u32 && c as u32 <= '9' as u32) || ('a' as u32 <= c as u32 && c as u32
        <= 'f' as u32)
}

/// Whether `text` has the shape of a random identifier: 36 characters, a
/// hyphen after the 8th, 12th, 16th and 20th hexadecimal digit, lower-case
/// hexadecimal digits elsewhere, the version digit `4` and a variant digit
/// from `8` to `b`.
pub open spec fn is_random_id(text: Seq<char>) -> bool {
    &&& text.len() == 36
    &&& forall|i: int|
        0 <= i < 36 ==> if i == 8 || i == 13 || i == 18 || i == 23 {
            text[i] == '-'
        } else {
            is_lower_hex(#[trigger] text[i])
        }
    &&& text[14] == '4'
    &&& text[19] == '8' || text[19] == '9' || text[19] == 'a' || text[19] == 'b'
}

/// Draws a random identifier.
///
/// Trusted: the body calls `uuid::Uuid::new_v4` and writes the result out
/// with `to_string`. The contract claims only the shape of the text, which
/// is the same for every identifier that `new_v4` can return; it claims
/// nothing on which identifier comes, and two calls may well return the
/// same one. `new_v4` panics when the operating system cannot supply random
/// bytes.
#[verifier::external_body]
pub(crate) fn fresh_id() -> (id: String)
    ensures
        is_random_id(id@),
{
    uuid::Uuid::new_v4().to_string()
}

} // verus!
