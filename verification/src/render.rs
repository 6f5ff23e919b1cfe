//! The two response-body shapes the generated code produces at run time: a
//! JSON object with the display text under `error` (and the error-code text
//! under `error_code` when one was annotated), or the display text verbatim.

use vstd::prelude::*;
use vstd::string::{StrSliceExecFns, StringExecFns};
use crate::expand::BodyFormat;
use crate::text::push_char;

verus! {

/// The hexadecimal digit characters, in order of value.
pub open spec fn spec_hex_digit(d: nat) -> char {
    if d == 0 {
        '0'
    } else if d == 1 {
        '1'
    } else if d == 2 {
        '2'
    } else if d == 3 {
        '3'
    } else if d == 4 {
        '4'
    } else if d == 5 {
        '5'
    } else if d == 6 {
        '6'
    } else if d == 7 {
        '7'
    } else if d == 8 {
        '8'
    } else if d == 9 {
        '9'
    } else if d == 10 {
        'a'
    } else if d == 11 {
        'b'
    } else if d == 12 {
        'c'
    } else if d == 13 {
        'd'
    } else if d == 14 {
        'e'
    } else {
        'f'
    }
}

/// How one character appears inside a JSON string: quotes and backslashes are
/// escaped, the common control characters get their short forms, any other
/// control character gets a four-digit escape, and everything else stands as
/// it is.
pub open spec fn spec_escape_char(c: char) -> Seq<char> {
    if c == '"' {
        "\\\""@
    } else if c == '\\' {
        "\\\\"@
    } else if c == '\n' {
        "\\n"@
    } else if c == '\r' {
        "\\r"@
    } else if c == '\t' {
        "\\t"@
    } else if c == '\u{8}' {
        "\\b"@
    } else if c == '\u{c}' {
        "\\f"@
    } else if (c as u32) < 32 {
        "\\u00"@ + seq![
            spec_hex_digit(((c as u32) / 16) as nat),
            spec_hex_digit(((c as u32) % 16) as nat),
        ]
    } else {
        seq![c]
    }
}

/// A text as it appears inside a JSON string, character by character.
pub open spec fn spec_json_escape(s: Seq<char>) -> Seq<char>
    decreases s.len(),
{
    if s.len() == 0 {
        Seq::empty()
    } else {
        spec_json_escape(s.drop_last()) + spec_escape_char(s.last())
    }
}

/// The exact JSON body: the `error` field carries the display text, and the
/// `error_code` field is present exactly when an error code was annotated.
pub open spec fn spec_json_body(display: Seq<char>, error_code: Option<Seq<char>>) -> Seq<char> {
    "{\"error\":\""@ + spec_json_escape(display) + "\""@ + (match error_code {
        Some(c) => ",\"error_code\":\""@ + spec_json_escape(c) + "\""@,
        None => Seq::empty(),
    }) + "}"@
}

/// The body for a format: the JSON object, or the display text verbatim.
pub open spec fn spec_render_body(
    fmt: BodyFormat,
    display: Seq<char>,
    error_code: Option<Seq<char>>,
) -> Seq<char> {
    match fmt {
        BodyFormat::Json => spec_json_body(display, error_code),
        BodyFormat::Text => display,
    }
}

/// The content kind each format declares.
pub open spec fn spec_content_kind(fmt: BodyFormat) -> Seq<char> {
    match fmt {
        BodyFormat::Json => "application/json"@,
        BodyFormat::Text => "text/plain"@,
    }
}

fn hex_digit(d: u32) -> (c: char)
    requires
        d < 16,
    ensures
        c == spec_hex_digit(d as nat),
{
    match d {
        0 => '0',
        1 => '1',
        2 => '2',
        3 => '3',
        4 => '4',
        5 => '5',
        6 => '6',
        7 => '7',
        8 => '8',
        9 => '9',
        10 => 'a',
        11 => 'b',
        12 => 'c',
        13 => 'd',
        14 => 'e',
        _ => 'f',
    }
}

/// Appends one character in its JSON-string form.
fn push_escaped_char(out: &mut String, c: char)
    ensures
        final(out)@ == old(out)@ + spec_escape_char(c),
{
    if c == '"' {
        out.append("\\\"");
    } else if c == '\\' {
        out.append("\\\\");
    } else if c == '\n' {
        out.append("\\n");
    } else if c == '\r' {
        out.append("\\r");
    } else if c == '\t' {
        out.append("\\t");
    } else if c == '\u{8}' {
        out.append("\\b");
    } else if c == '\u{c}' {
        out.append("\\f");
    } else if (c as u32) < 32 {
        out.append("\\u00");
        push_char(out, hex_digit((c as u32) / 16));
        push_char(out, hex_digit((c as u32) % 16));
        proof {
            assert(final(out)@ =~= old(out)@ + spec_escape_char(c));
        }
    } else {
        push_char(out, c);
        proof {
            assert(old(out)@.push(c) =~= old(out)@ + seq![c]);
        }
    }
}

/// Appends a text in its JSON-string form.
fn push_json_escaped(out: &mut String, s: &String)
    ensures
        final(out)@ == old(out)@ + spec_json_escape(s@),
{
    let text = s.as_str();
    let n = text.unicode_len();
    let mut i: usize = 0;
    proof {
        assert(s@.take(0) =~= Seq::<char>::empty());
        assert(old(out)@ + spec_json_escape(s@.take(0)) =~= old(out)@);
    }
    while i < n
        invariant
            n == s@.len(),
            text@ == s@,
            i <= n,
            out@ == old(out)@ + spec_json_escape(s@.take(i as int)),
        decreases n - i,
    {
        let c = text.get_char(i);
        push_escaped_char(out, c);
        proof {
            let taken = s@.take(i as int + 1);
            assert(taken.drop_last() =~= s@.take(i as int));
            assert(taken.last() == s@[i as int]);
        }
        i = i + 1;
    }
    proof {
        assert(s@.take(s@.len() as int) =~= s@);
    }
}

/// Builds the exact JSON body for a display text and an optional error code.
pub fn json_body(display: &String, error_code: &Option<String>) -> (r: String)
    ensures
        r@ == spec_json_body(
            display@,
            match error_code {
                Some(c) => Some(c@),
                None => None,
            },
        ),
{
    let mut out = String::new();
    out.append("{\"error\":\"");
    push_json_escaped(&mut out, display);
    out.append("\"");
    match error_code {
        Some(code) => {
            out.append(",\"error_code\":\"");
            push_json_escaped(&mut out, code);
            out.append("\"");
        },
        None => {},
    }
    out.append("}");
    out
}

} // verus!
