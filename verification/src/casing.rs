//! Sentence-casing of hyphen- or underscore-delimited labels: delimiters
//! become single spaces, the leading character is uppercased, every other
//! character is lowercased (ASCII letters only; anything else is kept).

use vstd::prelude::*;

verus! {

/// A label delimiter: hyphen or underscore.
pub open spec fn is_delimiter(c: char) -> bool {
    c == '-' || c == '_'
}

/// The ASCII-lowercased form of one character.
pub open spec fn lower_char(c: char) -> char {
    if 'A' <= c && c <= 'Z' {
        ((c as u8 + 32) as u8) as char
    } else {
        c
    }
}

/// The ASCII-uppercased form of one character.
pub open spec fn upper_char(c: char) -> char {
    if 'a' <= c && c <= 'z' {
        ((c as u8 - 32) as u8) as char
    } else {
        c
    }
}

/// How one character of a label reads after sentence-casing: delimiters
/// become spaces, the first character is uppercased, the rest lowercased.
pub open spec fn sentence_char(c: char, first: bool) -> char {
    if is_delimiter(c) {
        ' '
    } else if first {
        upper_char(c)
    } else {
        lower_char(c)
    }
}

/// The sentence-cased form of a whole label.
pub open spec fn sentence_cased(s: Seq<char>) -> Seq<char> {
    Seq::new(s.len(), |i: int| sentence_char(s[i], i == 0))
}

fn lower_char_exec(c: char) -> (r: char)
    ensures
        r == lower_char(c),
{
    if 'A' <= c && c <= 'Z' {
        let b: u8 = c as u8;
        (b + 32) as char
    } else {
        c
    }
}

fn upper_char_exec(c: char) -> (r: char)
    ensures
        r == upper_char(c),
{
    if 'a' <= c && c <= 'z' {
        let b: u8 = c as u8;
        (b - 32) as char
    } else {
        c
    }
}

/// Relies on `String::from_iter`: the collected string holds exactly the
/// characters of the iterator, in order.
#[verifier::external_body]
fn chars_to_string(v: Vec<char>) -> (r: String)
    ensures
        r@ == v@,
{
    v.into_iter().collect()
}

/// Turns a delimited label into a sentence-cased one, character by
/// character: `"output-dir"` becomes `"Output dir"`.
pub fn to_sentence_case(s: &str) -> (r: String)
    ensures
        r@ == sentence_cased(s@),
{
    let n: usize = s.unicode_len();
    let mut out: Vec<char> = Vec::new();
    let mut i: usize = 0;
    while i < n
        invariant
            n == s@.len(),
            i <= n,
            out@ == sentence_cased(s@).subrange(0, i as int),
        decreases n - i,
    {
        let c = s.get_char(i);
        let mapped: char = if c == '-' || c == '_' {
            ' '
        } else if i == 0 {
            upper_char_exec(c)
        } else {
            lower_char_exec(c)
        };
        out.push(mapped);
        i = i + 1;
        proof {
            assert(out@ =~= sentence_cased(s@).subrange(0, i as int));
        }
    }
    proof {
        assert(out@ =~= sentence_cased(s@));
    }
    chars_to_string(out)
}

} // verus!
