//! JSON string literals, written by serde_json.

use vstd::prelude::*;
use crate::text::digit_char;

verus! {

/// The lower-case hexadecimal digit for `d` (for `d` below sixteen).
pub open spec fn hex_digit(d: nat) -> char {
    if d < 10 {
        digit_char(d)
    } else if d == 10 {
        'a'
    } else if d == 11 {
        'b'
    } else if d == 12 {
        'c'
    } else if d == 13 {
        'd'
    } else if d == 14 {
        'e'
    } else {
        'f'
    }
}

/// How serde_json writes the character `c` inside a string literal: quote and
/// backslash escaped, the usual short escapes for backspace, form feed, line
/// feed, carriage return and tab, other control characters as `\u00XX`, and
/// everything else as it is.
pub open spec fn json_escape(c: char) -> Seq<char> {
    if c == '"' {
        seq!['\\', '"']
    } else if c == '\\' {
        seq!['\\', '\\']
    } else if c == '\u{8}' {
        seq!['\\', 'b']
    } else if c == '\u{c}' {
        seq!['\\', 'f']
    } else if c == '\n' {
        seq!['\\', 'n']
    } else if c == '\r' {
        seq!['\\', 'r']
    } else if c == '\t' {
        seq!['\\', 't']
    } else if (c as nat) < 0x20 {
        seq!['\\', 'u', '0', '0', hex_digit((c as nat) / 16), hex_digit((c as nat) % 16)]
    } else {
        seq![c]
    }
}

/// The characters of `s`, each escaped as [`json_escape`] says.
pub open spec fn json_escaped(s: Seq<char>) -> Seq<char>
    decreases s.len(),
{
    if s.len() == 0 {
        Seq::empty()
    } else {
        json_escaped(s.drop_last()) + json_escape(s.last())
    }
}

/// The JSON string literal that stands for `s`.
pub open spec fn json_string(s: Seq<char>) -> Seq<char> {
    seq!['"'] + json_escaped(s) + seq!['"']
}

/// Whether no character of `s` needs escaping in a JSON string: no quote, no
/// backslash, no control character.
pub open spec fn json_plain(s: Seq<char>) -> bool {
    forall|i: int| 0 <= i < s.len() ==> {
        let c = #[trigger] s[i];
        c != '"' && c != '\\' && (c as nat) >= 0x20
    }
}

/// Text without quotes, backslashes and control characters stands in a JSON
/// string as it is.
pub proof fn lemma_json_plain_unescaped(s: Seq<char>)
    requires
        json_plain(s),
    ensures
        json_escaped(s) == s,
    decreases s.len(),
{
    if s.len() > 0 {
        let init = s.drop_last();
        assert forall|i: int| 0 <= i < init.len() implies {
            let c = #[trigger] init[i];
            c != '"' && c != '\\' && (c as nat) >= 0x20
        } by {
            assert(init[i] == s[i]);
        }
        lemma_json_plain_unescaped(init);
        let c = s.last();
        assert(c == s[s.len() - 1]);
        assert(json_escape(c) == seq![c]);
        assert(init.push(c) =~= s);
    }
}

/// Calls `serde_json::to_string` on a string slice. Its contract claims what
/// serde_json's serializer writes for a `str` (`format_escaped_str` and its
/// `ESCAPE` table): the text between double quotes, each character escaped as
/// [`json_escape`] says. Serializing a `str` into memory does not fail.
#[verifier::external_body]
pub(crate) fn json_string_literal(s: &str) -> (res: String)
    ensures
        res@ == json_string(s@),
{
    match serde_json::to_string(s) {
        Ok(text) => text,
        Err(_) => String::new(),
    }
}

} // verus!
