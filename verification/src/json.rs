//! Rendering a time-entry creation request as its JSON document.
//!
//! The document is fully determined by the entry's fields: object keys come
//! in a fixed order, numbers are printed in decimal without padding, and
//! string values are escaped as JSON requires (quote, backslash, and the
//! named control characters by their short escapes, every other control
//! character as a `\u00..` sequence).

use vstd::prelude::*;
use vstd::string::StrSliceExecFns;
use vstd::string::StringExecFns;
use crate::entry::TimeEntry;
use crate::entry::TimeEntryRequest;

verus! {

/// The single character `d` stands for as a decimal digit.
pub open spec fn dec_digit_view(d: nat) -> Seq<char> {
    if d == 0 {
        "0"@
    } else if d == 1 {
        "1"@
    } else if d == 2 {
        "2"@
    } else if d == 3 {
        "3"@
    } else if d == 4 {
        "4"@
    } else if d == 5 {
        "5"@
    } else if d == 6 {
        "6"@
    } else if d == 7 {
        "7"@
    } else if d == 8 {
        "8"@
    } else {
        "9"@
    }
}

/// The decimal rendering of `n`: most significant digit first, no sign, no
/// leading zeroes (a single `0` for zero itself).
pub open spec fn dec_digits(n: nat) -> Seq<char>
    decreases n,
{
    if n < 10 {
        dec_digit_view(n)
    } else {
        dec_digits(n / 10) + dec_digit_view(n % 10)
    }
}

/// The single character `d` stands for as a lower-case hexadecimal digit.
pub open spec fn hex_digit_view(d: nat) -> Seq<char> {
    if d < 10 {
        dec_digit_view(d)
    } else if d == 10 {
        "a"@
    } else if d == 11 {
        "b"@
    } else if d == 12 {
        "c"@
    } else if d == 13 {
        "d"@
    } else if d == 14 {
        "e"@
    } else {
        "f"@
    }
}

/// What one character contributes to a JSON string value: itself, unless
/// JSON requires an escape for it.
pub open spec fn escape_char(c: char) -> Seq<char> {
    if c == '"' {
        "\\\""@
    } else if c == '\\' {
        "\\\\"@
    } else if c == '\u{8}' {
        "\\b"@
    } else if c == '\t' {
        "\\t"@
    } else if c == '\n' {
        "\\n"@
    } else if c == '\u{c}' {
        "\\f"@
    } else if c == '\r' {
        "\\r"@
    } else if (c as u32) < 32 {
        "\\u00"@ + hex_digit_view((c as u32) as nat / 16) + hex_digit_view((c as u32) as nat % 16)
    } else {
        seq![c]
    }
}

/// The body of a JSON string value holding the text `s`.
pub open spec fn escape_chars(s: Seq<char>) -> Seq<char>
    decreases s.len(),
{
    if s.len() == 0 {
        Seq::empty()
    } else {
        escape_char(s[0]) + escape_chars(s.drop_first())
    }
}

proof fn lemma_escape_chars_push(s: Seq<char>, c: char)
    ensures
        escape_chars(s.push(c)) == escape_chars(s) + escape_char(c),
    decreases s.len(),
{
    if s.len() == 0 {
        assert(s.push(c)[0] == c);
        assert(s.push(c).drop_first() =~= Seq::<char>::empty());
        assert(escape_chars(Seq::<char>::empty()) == Seq::<char>::empty());
        assert(escape_chars(s.push(c))
            == escape_char(c) + escape_chars(s.push(c).drop_first()));
        assert(escape_chars(s.push(c)) =~= escape_chars(s) + escape_char(c));
    } else {
        assert(s.push(c).drop_first() =~= s.drop_first().push(c));
        lemma_escape_chars_push(s.drop_first(), c);
        assert(escape_chars(s.push(c)) =~= escape_chars(s) + escape_char(c));
    }
}

/// Appends one decimal digit to `out`.
fn append_dec_digit(out: &mut String, d: u64)
    requires
        d < 10,
    ensures
        final(out)@ == old(out)@ + dec_digit_view(d as nat),
{
    if d == 0 {
        out.append("0");
    } else if d == 1 {
        out.append("1");
    } else if d == 2 {
        out.append("2");
    } else if d == 3 {
        out.append("3");
    } else if d == 4 {
        out.append("4");
    } else if d == 5 {
        out.append("5");
    } else if d == 6 {
        out.append("6");
    } else if d == 7 {
        out.append("7");
    } else if d == 8 {
        out.append("8");
    } else {
        out.append("9");
    }
}

/// Appends one lower-case hexadecimal digit to `out`.
fn append_hex_digit(out: &mut String, d: u32)
    requires
        d < 16,
    ensures
        final(out)@ == old(out)@ + hex_digit_view(d as nat),
{
    if d < 10 {
        append_dec_digit(out, d as u64);
    } else if d == 10 {
        out.append("a");
    } else if d == 11 {
        out.append("b");
    } else if d == 12 {
        out.append("c");
    } else if d == 13 {
        out.append("d");
    } else if d == 14 {
        out.append("e");
    } else {
        out.append("f");
    }
}

/// Appends the decimal rendering of `n` to `out`.
fn append_u64(out: &mut String, n: u64)
    ensures
        final(out)@ == old(out)@ + dec_digits(n as nat),
    decreases n,
{
    if n < 10 {
        append_dec_digit(out, n);
    } else {
        append_u64(out, n / 10);
        append_dec_digit(out, n % 10);
        assert(old(out)@ + dec_digits(n as nat / 10) + dec_digit_view(n as nat % 10)
            =~= old(out)@ + dec_digits(n as nat));
    }
}

/// Appends the text `s`, escaped as the body of a JSON string value, to
/// `out`.
fn append_escaped(out: &mut String, s: &str)
    ensures
        final(out)@ == old(out)@ + escape_chars(s@),
{
    let n = s.unicode_len();
    let mut i: usize = 0;
    while i < n
        invariant
            i <= n,
            n == s@.len(),
            out@ == old(out)@ + escape_chars(s@.take(i as int)),
        decreases n - i,
    {
        let c = s.get_char(i);
        proof {
            lemma_escape_chars_push(s@.take(i as int), s@[i as int]);
            assert(s@.take(i as int).push(s@[i as int]) =~= s@.take(i as int + 1));
        }
        if c == '"' {
            out.append("\\\"");
        } else if c == '\\' {
            out.append("\\\\");
        } else if c == '\u{8}' {
            out.append("\\b");
        } else if c == '\t' {
            out.append("\\t");
        } else if c == '\n' {
            out.append("\\n");
        } else if c == '\u{c}' {
            out.append("\\f");
        } else if c == '\r' {
            out.append("\\r");
        } else if (c as u32) < 32 {
            let u = c as u32;
            out.append("\\u00");
            append_hex_digit(out, u / 16);
            append_hex_digit(out, u % 16);
        } else {
            let piece = s.substring_char(i, i + 1);
            assert(piece@ =~= seq![s@[i as int]]);
            out.append(piece);
        }
        assert(out@ =~= old(out)@ + escape_chars(s@.take(i as int + 1)));
        i = i + 1;
    }
    proof {
        assert(s@.take(n as int) =~= s@);
    }
}

/// The JSON object holding one time entry's fields, keys in the fixed order
/// the wire format uses.
pub open spec fn spec_time_entry_json(e: TimeEntry) -> Seq<char> {
    "{\"description\":\""@ + escape_chars(e.description@)
        + "\",\"created_with\":\""@ + escape_chars(e.created_with@)
        + "\",\"start\":\""@ + escape_chars(e.start@)
        + "\",\"duration\":"@ + dec_digits(e.duration as nat)
        + ",\"wid\":"@ + dec_digits(e.wid as nat)
        + ",\"pid\":"@ + dec_digits(e.pid as nat)
        + "}"@
}

/// The full request body: the entry's object wrapped under the
/// `time_entry` key.
pub open spec fn spec_time_entry_request_json(r: TimeEntryRequest) -> Seq<char> {
    "{\"time_entry\":"@ + spec_time_entry_json(r.time_entry) + "}"@
}

/// Renders the creation request as the JSON document the service expects.
pub fn time_entry_request_json(req: &TimeEntryRequest) -> (r: String)
    ensures
        r@ == spec_time_entry_request_json(*req),
{
    let mut out = String::new();
    out.append("{\"time_entry\":");
    out.append("{\"description\":\"");
    append_escaped(&mut out, req.time_entry.description.as_str());
    out.append("\",\"created_with\":\"");
    append_escaped(&mut out, req.time_entry.created_with.as_str());
    out.append("\",\"start\":\"");
    append_escaped(&mut out, req.time_entry.start.as_str());
    out.append("\",\"duration\":");
    append_u64(&mut out, req.time_entry.duration);
    out.append(",\"wid\":");
    append_u64(&mut out, req.time_entry.wid as u64);
    out.append(",\"pid\":");
    append_u64(&mut out, req.time_entry.pid as u64);
    out.append("}");
    out.append("}");
    assert(out@ =~= spec_time_entry_request_json(*req));
    out
}

/// The serialized body is a function of the entry's fields alone: two
/// requests whose fields agree serialize to the same document.
pub proof fn lemma_body_deterministic(a: TimeEntryRequest, b: TimeEntryRequest)
    requires
        a.time_entry.description@ == b.time_entry.description@,
        a.time_entry.created_with@ == b.time_entry.created_with@,
        a.time_entry.start@ == b.time_entry.start@,
        a.time_entry.duration == b.time_entry.duration,
        a.time_entry.wid == b.time_entry.wid,
        a.time_entry.pid == b.time_entry.pid,
    ensures
        spec_time_entry_request_json(a) == spec_time_entry_request_json(b),
{
}

} // verus!
