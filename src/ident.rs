//! Fresh identifiers for newly created entities.

use vstd::prelude::*;

verus! {

/// Number of characters of a generated identifier.
pub const ID_LEN: usize = 21;

/// A character of the URL-safe alphabet that identifiers are drawn from.
pub open spec fn is_id_char(c: char) -> bool {
    c == '_' || c == '-' || ('0' <= c && c <= '9') || ('a' <= c && c <= 'z') || ('A' <= c
        && c <= 'Z')
}

/// What every generated identifier looks like.
pub open spec fn is_generated_id(s: Seq<char>) -> bool {
    s.len() == ID_LEN && forall|i: int| 0 <= i < s.len() ==> is_id_char(#[trigger] s[i])
}

/// Relies on nanoid::format, called with nanoid::rngs::default and
/// nanoid::alphabet::SAFE: it returns `size` characters, each taken from that
/// alphabet. It only returns once `size` characters were produced, so `size`
/// must be positive.
#[verifier::external_body]
fn random_id(size: usize) -> (r: String)
    requires
        size > 0,
    ensures
        r@.len() == size,
        forall|i: int| 0 <= i < r@.len() ==> is_id_char(#[trigger] r@[i]),
{
    nanoid::format(nanoid::rngs::default, &nanoid::alphabet::SAFE, size)
}

/// A fresh random identifier.
pub fn new_id() -> (r: String)
    ensures
        is_generated_id(r@),
{
    random_id(ID_LEN)
}

} // verus!
