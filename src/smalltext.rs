//! Superscript rendering: a display-only substitution that turns digits and a
//! few symbols into their smaller superscript glyphs.
use vstd::prelude::*;
use crate::text::{chars_of, string_from_chars};

verus! {

/// The superscript glyph for `c`, or `c` itself where the table has none.
pub open spec fn sup_char(c: char) -> char {
    if c == '0' { '\u{2070}' }
    else if c == '1' { '\u{00B9}' }
    else if c == '2' { '\u{00B2}' }
    else if c == '3' { '\u{00B3}' }
    else if c == '4' { '\u{2074}' }
    else if c == '5' { '\u{2075}' }
    else if c == '6' { '\u{2076}' }
    else if c == '7' { '\u{2077}' }
    else if c == '8' { '\u{2078}' }
    else if c == '9' { '\u{2079}' }
    else if c == '+' { '\u{207A}' }
    else if c == '-' { '\u{207B}' }
    else if c == '=' { '\u{207C}' }
    else if c == '(' { '\u{207D}' }
    else if c == ')' { '\u{207E}' }
    else if c == '%' { '\u{FE6A}' }
    else { c }
}

/// `s` with every character replaced by its superscript glyph.
pub open spec fn superscript(s: Seq<char>) -> Seq<char> {
    s.map_values(|c: char| sup_char(c))
}

pub fn superscript_char(c: char) -> (r: char)
    ensures
        r == sup_char(c),
{
    match c {
        '0' => '\u{2070}',
        '1' => '\u{00B9}',
        '2' => '\u{00B2}',
        '3' => '\u{00B3}',
        '4' => '\u{2074}',
        '5' => '\u{2075}',
        '6' => '\u{2076}',
        '7' => '\u{2077}',
        '8' => '\u{2078}',
        '9' => '\u{2079}',
        '+' => '\u{207A}',
        '-' => '\u{207B}',
        '=' => '\u{207C}',
        '(' => '\u{207D}',
        ')' => '\u{207E}',
        '%' => '\u{FE6A}',
        _ => c,
    }
}

/// Appends the superscript rendering of `s`.
pub fn push_superscript(out: &mut Vec<char>, s: &Vec<char>)
    ensures
        final(out)@ == old(out)@ + superscript(s@),
{
    let mut i: usize = 0;
    while i < s.len()
        invariant
            i <= s@.len(),
            out@ == old(out)@ + superscript(s@.subrange(0, i as int)),
        decreases s@.len() - i,
    {
        out.push(superscript_char(s[i]));
        i = i + 1;
        assert(superscript(s@.subrange(0, i as int)) =~= superscript(s@.subrange(0, i - 1 as int)).push(sup_char(s@[i - 1])));
        assert(out@ =~= old(out)@ + superscript(s@.subrange(0, i as int)));
    }
    assert(s@.subrange(0, s@.len() as int) =~= s@);
}

/// The superscript rendering of `s`.
pub fn to_superscript(s: &str) -> (r: String)
    ensures
        r@ == superscript(s@),
{
    let cs = chars_of(s);
    let mut out: Vec<char> = Vec::new();
    push_superscript(&mut out, &cs);
    assert(out@ =~= superscript(s@));
    string_from_chars(&out)
}

} // verus!
