//! Identifiers that tell the blocks of one bar apart.

use vstd::prelude::*;

verus! {

/// One of the digits `0` to `9` or the letters `a` to `f`.
pub open spec fn is_lower_hex(c: char) -> bool {
    ('0' <= c && c <= '9') || ('a' <= c && c <= 'f')
}

/// What every block identifier looks like: thirty-two lower-case
/// hexadecimal digits.
pub open spec fn is_block_id(id: Seq<char>) -> bool {
    &&& id.len() == 32
    &&& forall|i: int| 0 <= i < id.len() ==> is_lower_hex(#[trigger] id[i])
}

/// Draws a fresh identifier with `uuid::Uuid::new_v4` and renders it through
/// `Uuid::to_simple`, whose text is the sixteen random bytes as thirty-two
/// lower-case hexadecimal digits without hyphens. Which digits come out is
/// up to the system's random source, so nothing more is claimed; the call
/// aborts when the system hands out no random bytes.
#[verifier::external_body]
pub(crate) fn new_id() -> (id: String)
    ensures
        is_block_id(id@),
{
    uuid::Uuid::new_v4().to_simple().to_string()
}

} // verus!
