//! Encoding paste metadata as a JSON object, for the config editor's
//! transportable string form. The encoder is written and verified here:
//! `spec_metadata_json` states the exact output, and the encoder is total,
//! so encoding a metadata value never fails.

use vstd::prelude::*;
use vstd::string::{StrSliceExecFns, StringExecFns};
use crate::model::PasteMetadata;

verus! {

/// The hexadecimal digit character for a value below sixteen.
pub open spec fn hex_digit(value: u32) -> char {
    if value == 0 {
        '0'
    } else if value == 1 {
        '1'
    } else if value == 2 {
        '2'
    } else if value == 3 {
        '3'
    } else if value == 4 {
        '4'
    } else if value == 5 {
        '5'
    } else if value == 6 {
        '6'
    } else if value == 7 {
        '7'
    } else if value == 8 {
        '8'
    } else if value == 9 {
        '9'
    } else if value == 10 {
        'a'
    } else if value == 11 {
        'b'
    } else if value == 12 {
        'c'
    } else if value == 13 {
        'd'
    } else if value == 14 {
        'e'
    } else {
        'f'
    }
}

/// How one character appears inside a JSON string literal: quotes and
/// backslashes are escaped, control characters become a `\u00` escape,
/// and every other character stands as itself.
pub open spec fn escaped_char(c: char) -> Seq<char> {
    if c == '"' {
        ("\\\"")@
    } else if c == '\\' {
        ("\\\\")@
    } else if (c as u32) < 32 {
        ("\\u00")@ + seq![hex_digit((c as u32) / 16), hex_digit((c as u32) % 16)]
    } else {
        seq![c]
    }
}

/// A whole text escaped character by character.
pub open spec fn escaped(s: Seq<char>) -> Seq<char>
    decreases s.len(),
{
    if s.len() == 0 {
        Seq::empty()
    } else {
        escaped(s.drop_last()) + escaped_char(s.last())
    }
}

/// A JSON string literal: the escaped text between double quotes.
pub open spec fn quoted(s: Seq<char>) -> Seq<char> {
    ("\"")@ + escaped(s) + ("\"")@
}

/// The JSON object that encodes a metadata value: its title and its view
/// password, each as a JSON string literal.
pub open spec fn spec_metadata_json(metadata: PasteMetadata) -> Seq<char> {
    ("{\"title\":")@ + quoted(metadata.title@) + (",\"view_password\":")@ + quoted(
        metadata.view_password@,
    ) + ("}")@
}

/// The one-character string for a hexadecimal digit below sixteen.
fn hex_digit_str(value: u32) -> (digit: &'static str)
    requires
        value < 16,
    ensures
        digit@ == seq![hex_digit(value)],
{
    let digit: &'static str = if value == 0 {
        "0"
    } else if value == 1 {
        "1"
    } else if value == 2 {
        "2"
    } else if value == 3 {
        "3"
    } else if value == 4 {
        "4"
    } else if value == 5 {
        "5"
    } else if value == 6 {
        "6"
    } else if value == 7 {
        "7"
    } else if value == 8 {
        "8"
    } else if value == 9 {
        "9"
    } else if value == 10 {
        "a"
    } else if value == 11 {
        "b"
    } else if value == 12 {
        "c"
    } else if value == 13 {
        "d"
    } else if value == 14 {
        "e"
    } else {
        "f"
    };
    proof {
        reveal_strlit("0");
        reveal_strlit("1");
        reveal_strlit("2");
        reveal_strlit("3");
        reveal_strlit("4");
        reveal_strlit("5");
        reveal_strlit("6");
        reveal_strlit("7");
        reveal_strlit("8");
        reveal_strlit("9");
        reveal_strlit("a");
        reveal_strlit("b");
        reveal_strlit("c");
        reveal_strlit("d");
        reveal_strlit("e");
        reveal_strlit("f");
        assert(digit@ =~= seq![hex_digit(value)]);
    }
    digit
}

/// Appends the escaped form of a text to the output.
fn append_escaped(out: &mut String, s: &str)
    ensures
        final(out)@ == old(out)@ + escaped(s@),
{
    let n = s.unicode_len();
    let mut i: usize = 0;
    while i < n
        invariant
            n == s@.len(),
            i <= n,
            out@ == old(out)@ + escaped(s@.subrange(0, i as int)),
        decreases n - i,
    {
        let c = s.get_char(i);
        if c == '"' {
            out.append("\\\"");
        } else if c == '\\' {
            out.append("\\\\");
        } else if (c as u32) < 32 {
            out.append("\\u00");
            out.append(hex_digit_str((c as u32) / 16));
            out.append(hex_digit_str((c as u32) % 16));
        } else {
            let one = s.substring_char(i, i + 1);
            out.append(one);
        }
        proof {
            assert(s@.subrange(0, (i + 1) as int).drop_last() =~= s@.subrange(0, i as int));
            assert(s@.subrange(0, (i + 1) as int).last() == s@[i as int]);
            assert(escaped(s@.subrange(0, (i + 1) as int)) == escaped(s@.subrange(0, i as int))
                + escaped_char(s@[i as int]));
            assert(out@ =~= old(out)@ + escaped(s@.subrange(0, (i + 1) as int)));
        }
        i = i + 1;
    }
    proof {
        assert(s@.subrange(0, n as int) =~= s@);
    }
}

/// Appends a JSON string literal holding the given text to the output.
fn append_quoted(out: &mut String, s: &str)
    ensures
        final(out)@ == old(out)@ + quoted(s@),
{
    out.append("\"");
    append_escaped(out, s);
    out.append("\"");
    proof {
        assert(out@ =~= old(out)@ + quoted(s@));
    }
}

/// Encodes a metadata value as a JSON object. Total: every metadata value
/// has an encoding, so the config flow never meets a serialization
/// failure.
pub fn metadata_json(metadata: &PasteMetadata) -> (encoded: String)
    ensures
        encoded@ == spec_metadata_json(*metadata),
{
    let mut out = String::new();
    out.append("{\"title\":");
    append_quoted(&mut out, metadata.title.as_str());
    out.append(",\"view_password\":");
    append_quoted(&mut out, metadata.view_password.as_str());
    out.append("}");
    proof {
        assert(out@ =~= spec_metadata_json(*metadata));
    }
    out
}

} // verus!
