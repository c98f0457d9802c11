//! Helpers for names derived from table and column names.
use vstd::prelude::*;

verus! {

/// The upper-case form of a character, as std's Unicode case mapping gives it
/// (one or more characters).
pub uninterp spec fn upper_of(c: char) -> Seq<char>;

/// Relies on `char::to_uppercase`: the upper-case mapping of `c`, which depends
/// on `c` alone.
#[verifier::external_body]
fn uppercase_char(c: char) -> (r: String)
    ensures
        r@ == upper_of(c),
{
    c.to_uppercase().collect::<String>()
}

/// `s` with its first character in upper case and the rest unchanged.
pub open spec fn capitalized(s: Seq<char>) -> Seq<char> {
    if s.len() == 0 {
        Seq::empty()
    } else {
        upper_of(s[0]) + s.drop_first()
    }
}

/// `s` with its first character replaced by `first`; empty when `s` is.
pub fn replace_first(s: &str, first: &str) -> (r: String)
    ensures
        s@.len() == 0 ==> r@.len() == 0,
        s@.len() > 0 ==> r@ == first@ + s@.drop_first(),
{
    let n = s.unicode_len();
    if n == 0 {
        return String::new();
    }
    let mut r = String::from_str(first);
    r.append(s.substring_char(1, n));
    assert(s@.subrange(1, n as int) =~= s@.drop_first());
    r
}

/// Upper-cases the first character of `s`, as type names derived from table
/// and column names are written.
pub fn capitalize(s: &str) -> (r: String)
    ensures
        r@ == capitalized(s@),
{
    if s.is_empty() {
        return String::new();
    }
    let upper = uppercase_char(s.get_char(0));
    let r = replace_first(s, upper.as_str());
    assert(r@ =~= capitalized(s@));
    r
}

} // verus!
