//! ASCII case folding and small string-building helpers.
//!
//! Lookup keys are normalized by lower-casing only: no trimming and no other
//! rewriting, so that matching stays exactly case-insensitive.

use vstd::prelude::*;

verus! {

/// Case folding of one character: an ASCII uppercase letter maps to its
/// lowercase counterpart, every other character is unchanged.
pub open spec fn lower_char(c: char) -> char {
    if 'A' <= c && c <= 'Z' {
        ((c as u32) + 32) as char
    } else {
        c
    }
}

/// Case folding of a whole string, character by character.
pub open spec fn lower_of(s: Seq<char>) -> Seq<char> {
    s.map_values(|c: char| lower_char(c))
}

/// Relies on `String::push`: appends the given character to the end of the
/// string.
#[verifier::external_body]
pub(crate) fn push_char(s: &mut String, c: char)
    ensures
        final(s)@ == old(s)@.push(c),
{
    s.push(c)
}

/// Returns the case-folded copy of `s`: uppercase ASCII letters are
/// lowered, everything else is kept as it is.
pub fn to_lower(s: &str) -> (r: String)
    ensures
        r@ == lower_of(s@),
{
    let mut out = String::new();
    for c in it: s.chars()
        invariant
            it.seq() == s@,
            out@ == lower_of(s@.take(it.index() as int)),
    {
        let ghost done = s@.take(it.index() as int);
        let low = lower_char_exec(c);
        push_char(&mut out, low);
        proof {
            assert(lower_of(s@.take(it.index() as int + 1)) =~= lower_of(done).push(
                lower_char(c),
            ));
        }
    }
    proof {
        assert(s@.take(s@.len() as int) =~= s@);
    }
    out
}

/// Returns the case folding of one character, as `lower_char` states it.
fn lower_char_exec(c: char) -> (r: char)
    ensures
        r == lower_char(c),
{
    if 'A' <= c && c <= 'Z' {
        let u: u32 = c as u32;
        let b: u8 = (u + 32) as u8;
        assert(b as u32 == u + 32) by (bit_vector)
            requires
                65 <= u <= 90,
                b == (u + 32) as u8,
        ;
        b as char
    } else {
        c
    }
}

} // verus!
