//! Escaping text for log lines.

use crate::text::{numeral, push_numeral};
use vstd::prelude::*;

verus! {

/// Whether the character stands for itself in escaped text: the printable
/// ASCII characters, but for the quotes and the backslash.
pub open spec fn is_plain(c: char) -> bool {
    0x20 <= c as u32 <= 0x7e && c != '\'' && c != '"' && c != '\\'
}

/// The escape of one character: a backslash form for tab, carriage return,
/// line feed, the two quotes and the backslash; the character itself where it
/// is printable ASCII; `\u{..}` with its code point in hexadecimal otherwise.
pub open spec fn escaped_char(c: char) -> Seq<char> {
    if c == '\t' {
        seq!['\\', 't']
    } else if c == '\r' {
        seq!['\\', 'r']
    } else if c == '\n' {
        seq!['\\', 'n']
    } else if c == '\'' || c == '"' || c == '\\' {
        seq!['\\', c]
    } else if is_plain(c) {
        seq![c]
    } else {
        seq!['\\', 'u', '{'] + numeral(c as nat, 16) + seq!['}']
    }
}

/// The escapes of the characters of `s`, one after the other.
pub open spec fn escaped(s: Seq<char>) -> Seq<char> {
    s.map_values(|c: char| escaped_char(c)).flatten()
}

fn push_escaped(out: &mut String, c: char)
    ensures
        final(out)@ == old(out)@ + escaped_char(c),
{
    if c == '\t' {
        out.push('\\');
        out.push('t');
    } else if c == '\r' {
        out.push('\\');
        out.push('r');
    } else if c == '\n' {
        out.push('\\');
        out.push('n');
    } else if c == '\'' || c == '"' || c == '\\' {
        out.push('\\');
        out.push(c);
    } else if 0x20 <= c as u32 && c as u32 <= 0x7e {
        out.push(c);
    } else {
        out.push('\\');
        out.push('u');
        out.push('{');
        push_numeral(out, c as usize, 16);
        out.push('}');
    }
}

/// Escapes every character of `s` that is not printable ASCII, and the quotes
/// and the backslash, so that the text can stand between quotes on one line.
pub fn escape_default(s: &str) -> (out: String)
    ensures
        out@ == escaped(s@),
{
    let mut out = String::new();
    for c in it: s.chars()
        invariant
            it.seq() == s@,
            out@ == escaped(s@.take(it.index())),
    {
        proof {
            let done = s@.take(it.index()).map_values(|c: char| escaped_char(c));
            assert(s@.take(it.index() + 1).map_values(|c: char| escaped_char(c)) =~= done.push(
                escaped_char(c),
            ));
            done.lemma_flatten_push(escaped_char(c));
        }
        push_escaped(&mut out, c);
    }
    assert(s@.take(s@.len() as int) =~= s@);
    out
}

} // verus!
