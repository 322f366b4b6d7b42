//! Random identifiers drawn from the URL-safe alphabet.
use vstd::prelude::*;

verus! {

/// A character of the URL-safe alphabet: `_`, `-`, the ten digits and the
/// fifty-two ASCII letters.
pub open spec fn is_url_safe_char(c: char) -> bool {
    ||| c == '_'
    ||| c == '-'
    ||| ('0' <= c && c <= '9')
    ||| ('a' <= c && c <= 'z')
    ||| ('A' <= c && c <= 'Z')
}

/// Every character of `s` is in the URL-safe alphabet.
pub open spec fn all_url_safe(s: Seq<char>) -> bool {
    forall|i: int| 0 <= i < s.len() ==> is_url_safe_char(#[trigger] s[i])
}

/// Calls `nanoid::format` with the crate's secure random source
/// `nanoid::rngs::default` and its alphabet `nanoid::alphabet::SAFE`, as the
/// `nanoid!` macro does.
///
/// Claimed of it: the id has exactly `size` characters, each one of the
/// sixty-four characters of `SAFE`. Which characters come out rests on
/// chance and is not stated. `format` loops forever when `size` is zero and
/// computes `8 * size`, so both are ruled out by `requires`; it panics when
/// the system gives no entropy, which no argument can rule out.
#[verifier::external_body]
fn nanoid_safe(size: usize) -> (id: String)
    requires
        0 < size,
        size <= usize::MAX / 8,
    ensures
        id@.len() == size,
        all_url_safe(id@),
{
    nanoid::format(nanoid::rngs::default, &nanoid::alphabet::SAFE, size)
}

/// Length of the id of a paste.
pub const PASTE_ID_LEN: usize = 10;

/// A fresh random paste id: ten characters of the URL-safe alphabet.
pub fn new_paste_id() -> (id: String)
    ensures
        id@.len() == PASTE_ID_LEN,
        all_url_safe(id@),
{
    nanoid_safe(PASTE_ID_LEN)
}

} // verus!
