//! Character-level helpers shared by the parsers of this crate.

use vstd::prelude::*;

verus! {

/// An ASCII capital letter becomes its small letter; every other character
/// stays as it is.
pub open spec fn spec_to_lower(c: char) -> char {
    if 'A' <= c && c <= 'Z' {
        ((c as u32) + 32) as char
    } else {
        c
    }
}

/// The text with each of its characters made lower case.
pub open spec fn ascii_lowercase(s: Seq<char>) -> Seq<char> {
    Seq::new(s.len(), |i: int| spec_to_lower(s[i]))
}

/// The characters of a string, in order.
pub fn chars_of(s: &str) -> (chars: Vec<char>)
    ensures
        chars@ == s@,
{
    let mut chars: Vec<char> = Vec::new();
    for c in it: s.chars()
        invariant
            it.seq() == s@,
            chars@ == s@.take(it.index() as int),
    {
        chars.push(c);
    }
    chars
}

/// The lower-case form of one character.
pub fn to_lower(c: char) -> (l: char)
    ensures
        l == spec_to_lower(c),
{
    if 'A' <= c && c <= 'Z' {
        (((c as u32) + 32) as u8) as char
    } else {
        c
    }
}

/// Whether `s`, once made lower case, reads exactly as `name`.
pub fn lowercase_is(s: &str, name: &str) -> (same: bool)
    ensures
        same == (ascii_lowercase(s@) == name@),
{
    let given = chars_of(s);
    let wanted = chars_of(name);
    if given.len() != wanted.len() {
        return false;
    }
    let mut i: usize = 0;
    while i < given.len()
        invariant
            i <= given.len(),
            given.len() == wanted.len(),
            given@ == s@,
            wanted@ == name@,
            forall|j: int| 0 <= j < i ==> spec_to_lower(s@[j]) == name@[j],
        decreases given.len() - i,
    {
        if to_lower(given[i]) != wanted[i] {
            return false;
        }
        i += 1;
    }
    assert(ascii_lowercase(s@) =~= name@);
    true
}

} // verus!
