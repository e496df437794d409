//! The small JSON writer behind every machine-readable record the tool emits:
//! event payloads, sidecar files and review listings.
use vstd::prelude::*;
use crate::text::{copy_str, decimal, decimal_string, push_char};

verus! {

pub open spec fn hex_digit(d: int) -> char {
    if d < 10 {
        (d + 48) as char
    } else {
        (d + 87) as char
    }
}

/// How one character is written inside a JSON string literal.
pub open spec fn json_char(c: char) -> Seq<char> {
    if c == '"' {
        seq!['\\', '"']
    } else if c == '\\' {
        seq!['\\', '\\']
    } else if c == '\n' {
        seq!['\\', 'n']
    } else if c == '\r' {
        seq!['\\', 'r']
    } else if c == '\t' {
        seq!['\\', 't']
    } else if (c as u32) <= 0x1f {
        seq!['\\', 'u', '0', '0', hex_digit((c as int) / 16), hex_digit((c as int) % 16)]
    } else {
        seq![c]
    }
}

/// The escaped body of a JSON string literal.
pub open spec fn json_body(s: Seq<char>) -> Seq<char>
    decreases s.len(),
{
    if s.len() == 0 {
        Seq::empty()
    } else {
        json_body(s.drop_last()) + json_char(s.last())
    }
}

/// A JSON string literal holding `s`.
pub open spec fn json_quoted(s: Seq<char>) -> Seq<char> {
    seq!['"'] + json_body(s) + seq!['"']
}

fn push_escaped(out: &mut String, c: char)
    ensures
        final(out)@ == old(out)@ + json_char(c),
{
    let ghost start = out@;
    if c == '"' {
        push_char(out, '\\');
        push_char(out, '"');
    } else if c == '\\' {
        push_char(out, '\\');
        push_char(out, '\\');
    } else if c == '\n' {
        push_char(out, '\\');
        push_char(out, 'n');
    } else if c == '\r' {
        push_char(out, '\\');
        push_char(out, 'r');
    } else if c == '\t' {
        push_char(out, '\\');
        push_char(out, 't');
    } else if c <= '\u{1f}' {
        let code: u8 = c as u8;
        let high: u8 = code / 16;
        let low: u8 = code % 16;
        push_char(out, '\\');
        push_char(out, 'u');
        push_char(out, '0');
        push_char(out, '0');
        push_char(out, (high + 48) as char);
        let low_char = if low < 10 {
            (low + 48) as char
        } else {
            (low + 87) as char
        };
        push_char(out, low_char);
    } else {
        push_char(out, c);
    }
    assert(out@ =~= start + json_char(c));
}

/// Appends the escaped body of a JSON string literal holding `value`.
pub fn append_json_body(out: &mut String, value: &str)
    ensures
        final(out)@ == old(out)@ + json_body(value@),
{
    let ghost start = out@;
    let n = value.unicode_len();
    let mut i: usize = 0;
    assert(value@.subrange(0, 0) =~= Seq::<char>::empty());
    assert(start + json_body(Seq::<char>::empty()) =~= start);
    while i < n
        invariant
            n == value@.len(),
            i <= n,
            out@ == start + json_body(value@.subrange(0, i as int)),
        decreases n - i,
    {
        let c = value.get_char(i);
        push_escaped(out, c);
        proof {
            let pre = value@.subrange(0, i as int);
            let next = value@.subrange(0, i + 1);
            assert(next.drop_last() =~= pre);
            assert(next.last() == c);
            assert(out@ =~= start + json_body(next));
        }
        i = i + 1;
    }
    assert(value@.subrange(0, n as int) =~= value@);
}

/// Serializes a string as a JSON string literal.
pub fn json_string(value: &str) -> (r: String)
    ensures
        r@ == json_quoted(value@),
{
    let mut out = String::new();
    push_char(&mut out, '"');
    append_json_body(&mut out, value);
    push_char(&mut out, '"');
    assert(out@ =~= json_quoted(value@));
    out
}

/// `null`, or a JSON string literal.
pub fn json_optional_string(value: Option<&str>) -> (r: String)
    ensures
        r@ == (match value {
            Some(v) => json_quoted(v@),
            None => "null"@,
        }),
{
    match value {
        Some(v) => json_string(v),
        None => copy_str("null"),
    }
}

/// `null`, or the number in decimal.
pub fn json_optional_u32(value: Option<u32>) -> (r: String)
    ensures
        r@ == (match value {
            Some(v) => decimal(v as nat),
            None => "null"@,
        }),
{
    match value {
        Some(v) => decimal_string(v as u64),
        None => copy_str("null"),
    }
}

/// `null`, or the number in decimal.
pub fn json_optional_usize(value: Option<usize>) -> (r: String)
    ensures
        r@ == (match value {
            Some(v) => decimal(v as nat),
            None => "null"@,
        }),
{
    match value {
        Some(v) => decimal_string(v as u64),
        None => copy_str("null"),
    }
}

/// `null`, or the number in decimal.
pub fn json_optional_u64(value: Option<u64>) -> (r: String)
    ensures
        r@ == (match value {
            Some(v) => decimal(v as nat),
            None => "null"@,
        }),
{
    match value {
        Some(v) => decimal_string(v),
        None => copy_str("null"),
    }
}

} // verus!
