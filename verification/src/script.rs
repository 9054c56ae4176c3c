//! Scripts that the shell evaluates in its window.
//!
//! Every piece of text that reaches a script goes through [`js_string`], so no
//! status line, log line or error can end its literal early.
use crate::text::{chars_of, push_decimal};
use vstd::prelude::*;

verus! {

// --- string literals ---------------------------------------------------------

/// The lower case hexadecimal digit of a value below sixteen.
pub open spec fn hex_digit(n: nat) -> char {
    if n < 10 {
        (48 + n) as char
    } else {
        (87 + n) as char
    }
}

/// How one character stands inside a string literal.
pub open spec fn escaped_char(c: char) -> Seq<char> {
    if c == '"' {
        seq!['\\', '"']
    } else if c == '\\' {
        seq!['\\', '\\']
    } else if c == '\n' {
        seq!['\\', 'n']
    } else if c == '\r' {
        seq!['\\', 'r']
    } else if c == '\t' {
        seq!['\\', 't']
    } else if (c as u32) < 0x20 {
        seq![
            '\\',
            'u',
            '0',
            '0',
            hex_digit((c as u32 / 16) as nat),
            hex_digit((c as u32 % 16) as nat),
        ]
    } else {
        seq![c]
    }
}

/// How a text stands inside a string literal: character by character.
pub open spec fn escaped(s: Seq<char>) -> Seq<char>
    decreases s.len(),
{
    if s.len() == 0 {
        Seq::empty()
    } else {
        escaped(s.drop_last()) + escaped_char(s.last())
    }
}

/// The string literal of a text.
pub open spec fn literal(s: Seq<char>) -> Seq<char> {
    seq!['"'] + escaped(s) + seq!['"']
}

fn push_hex(out: &mut String, n: u32)
    requires
        n < 16,
    ensures
        final(out)@ == old(out)@.push(hex_digit(n as nat)),
{
    let d: u8 = n as u8;
    if d < 10 {
        out.push((48 + d) as char);
    } else {
        out.push((87 + d) as char);
    }
}

fn push_escaped(out: &mut String, c: char)
    ensures
        final(out)@ == old(out)@ + escaped_char(c),
{
    let ghost before = out@;
    let code: u32 = c as u32;
    if c == '"' {
        out.push('\\');
        out.push('"');
    } else if c == '\\' {
        out.push('\\');
        out.push('\\');
    } else if c == '\n' {
        out.push('\\');
        out.push('n');
    } else if c == '\r' {
        out.push('\\');
        out.push('r');
    } else if c == '\t' {
        out.push('\\');
        out.push('t');
    } else if code < 0x20 {
        out.push('\\');
        out.push('u');
        out.push('0');
        out.push('0');
        push_hex(out, code / 16);
        push_hex(out, code % 16);
    } else {
        out.push(c);
    }
    assert(out@ == before + escaped_char(c));
}

/// The string literal of `s`, quotes included.
pub fn js_string(s: &str) -> (r: String)
    ensures
        r@ == literal(s@),
{
    let chars = chars_of(s);
    let mut out = String::new();
    out.push('"');
    let mut i: usize = 0;
    assert(chars@.take(0) == Seq::<char>::empty());
    assert(out@ == seq!['"'] + escaped(chars@.take(0)));
    while i < chars.len()
        invariant
            i <= chars.len(),
            out@ == seq!['"'] + escaped(chars@.take(i as int)),
        decreases chars.len() - i,
    {
        push_escaped(&mut out, chars[i]);
        assert(chars@.take(i + 1).drop_last() == chars@.take(i as int));
        assert(out@ == seq!['"'] + escaped(chars@.take(i + 1)));
        i = i + 1;
    }
    assert(chars@.take(i as int) == s@);
    out.push('"');
    assert(out@ == literal(s@));
    out
}

// --- reading a literal back ----------------------------------------------------

/// The value of a hexadecimal digit.
pub open spec fn hex_value(c: char) -> Option<nat> {
    if '0' <= c <= '9' {
        Some((c as u32 - 48) as nat)
    } else if 'a' <= c <= 'f' {
        Some((c as u32 - 87) as nat)
    } else if 'A' <= c <= 'F' {
        Some((c as u32 - 55) as nat)
    } else {
        None
    }
}

/// The character that an escape stands for, and the length of the escape: `t`
/// starts behind the backslash.
pub open spec fn read_escape(t: Seq<char>) -> Option<(char, nat)> {
    if t.len() == 0 {
        None
    } else if t[0] == '"' || t[0] == '\\' || t[0] == '/' {
        Some((t[0], 1))
    } else if t[0] == 'n' {
        Some(('\n', 1))
    } else if t[0] == 'r' {
        Some(('\r', 1))
    } else if t[0] == 't' {
        Some(('\t', 1))
    } else if t[0] == 'b' {
        Some(('\u{8}', 1))
    } else if t[0] == 'f' {
        Some(('\u{c}', 1))
    } else if t[0] == 'u' && t.len() >= 5 {
        match (hex_value(t[1]), hex_value(t[2]), hex_value(t[3]), hex_value(t[4])) {
            (Some(a), Some(b), Some(c), Some(d)) => {
                let code = a * 4096 + b * 256 + c * 16 + d;
                if 0xd800 <= code <= 0xdfff {
                    None
                } else {
                    Some((code as char, 5))
                }
            },
            _ => None,
        }
    } else {
        None
    }
}

/// Reads a string literal behind its opening quote: the text that it stands
/// for, and what follows the closing quote. A raw control character, an
/// unknown escape or a missing quote is no literal.
pub open spec fn read_body(t: Seq<char>) -> Option<(Seq<char>, Seq<char>)>
    decreases t.len(),
{
    if t.len() == 0 {
        None
    } else if t[0] == '"' {
        Some((Seq::empty(), t.skip(1)))
    } else if t[0] == '\\' {
        match read_escape(t.skip(1)) {
            Some((c, n)) => if 1 + n <= t.len() {
                match read_body(t.skip(1 + n as int)) {
                    Some((s, rest)) => Some((seq![c] + s, rest)),
                    None => None,
                }
            } else {
                None
            },
            None => None,
        }
    } else if (t[0] as u32) < 0x20 {
        None
    } else {
        match read_body(t.skip(1)) {
            Some((s, rest)) => Some((seq![t[0]] + s, rest)),
            None => None,
        }
    }
}

/// Reads the string literal at the start of `t`.
pub open spec fn read_literal(t: Seq<char>) -> Option<(Seq<char>, Seq<char>)> {
    if t.len() > 0 && t[0] == '"' {
        read_body(t.skip(1))
    } else {
        None
    }
}

proof fn escaped_from_front(s: Seq<char>)
    requires
        s.len() > 0,
    ensures
        escaped(s) == escaped_char(s.first()) + escaped(s.drop_first()),
    decreases s.len(),
{
    if s.len() == 1 {
        assert(s.drop_last() == Seq::<char>::empty());
        assert(s.drop_first() == Seq::<char>::empty());
        assert(escaped(s) == escaped_char(s.first()) + escaped(s.drop_first()));
    } else {
        escaped_from_front(s.drop_last());
        assert(s.drop_last().drop_first() == s.drop_first().drop_last());
        assert(s.drop_last().first() == s.first());
        assert(s.drop_first().last() == s.last());
        assert(escaped(s) == escaped_char(s.first()) + (escaped(s.drop_first().drop_last())
            + escaped_char(s.last())));
    }
}

proof fn reads_one(c: char, tail: Seq<char>)
    ensures
        read_body(escaped_char(c) + tail) == match read_body(tail) {
            Some((s, rest)) => Some((seq![c] + s, rest)),
            None => None,
        },
{
    let t = escaped_char(c) + tail;
    let n = escaped_char(c).len() as int;
    assert(t.skip(n) == tail);
    if t[0] == '\\' {
        assert(t[1] == escaped_char(c)[1]);
        let e = t.skip(1);
        assert(e[0] == t[1]);
        if n == 6 {
            assert(e[1] == '0' && e[2] == '0');
            assert(e[3] == hex_digit((c as u32 / 16) as nat));
            assert(e[4] == hex_digit((c as u32 % 16) as nat));
            assert(hex_value(e[3]) == Some((c as u32 / 16) as nat));
            assert(hex_value(e[4]) == Some((c as u32 % 16) as nat));
            assert(read_escape(e) == Some((c, 5nat)));
        } else {
            assert(read_escape(e) == Some((c, 1nat)));
        }
    } else {
        assert(t.skip(1) == tail);
    }
}

/// A string literal gives its text back, whatever follows it: reading
/// `js_string(s)` yields `s`, and nothing of what follows is taken in.
pub proof fn literal_reads_back(s: Seq<char>, rest: Seq<char>)
    ensures
        read_literal(literal(s) + rest) == Some((s, rest)),
{
    body_reads_back(s, rest);
    assert((literal(s) + rest).skip(1) == escaped(s) + (seq!['"'] + rest));
}

proof fn body_reads_back(s: Seq<char>, rest: Seq<char>)
    ensures
        read_body(escaped(s) + (seq!['"'] + rest)) == Some((s, rest)),
    decreases s.len(),
{
    let tail = seq!['"'] + rest;
    if s.len() == 0 {
        assert(escaped(s) + tail == tail);
        assert(tail.skip(1) == rest);
        assert(s == Seq::<char>::empty());
    } else {
        body_reads_back(s.drop_first(), rest);
        escaped_from_front(s);
        assert(escaped(s) + tail == escaped_char(s.first()) + (escaped(s.drop_first()) + tail));
        reads_one(s.first(), escaped(s.drop_first()) + tail);
        assert(seq![s.first()] + s.drop_first() == s);
    }
}

/// Different texts have different literals.
pub proof fn literals_differ(a: Seq<char>, b: Seq<char>)
    ensures
        literal(a) == literal(b) ==> a == b,
{
    literal_reads_back(a, Seq::empty());
    literal_reads_back(b, Seq::empty());
    assert(literal(a) + Seq::<char>::empty() == literal(a));
    assert(literal(b) + Seq::<char>::empty() == literal(b));
}

/// A literal holds no control character, so it stays on one line.
pub proof fn literal_has_no_control(s: Seq<char>)
    ensures
        forall|i: int| 0 <= i < literal(s).len() ==> (#[trigger] literal(s)[i] as u32) >= 0x20,
{
    escaped_has_no_control(s);
}

proof fn escaped_has_no_control(s: Seq<char>)
    ensures
        forall|i: int| 0 <= i < escaped(s).len() ==> (#[trigger] escaped(s)[i] as u32) >= 0x20,
    decreases s.len(),
{
    if s.len() > 0 {
        escaped_has_no_control(s.drop_last());
        let head = escaped(s.drop_last());
        let one = escaped_char(s.last());
        assert forall|i: int| 0 <= i < escaped(s).len() implies (#[trigger] escaped(s)[i] as u32)
            >= 0x20 by {
            if i < head.len() {
                assert(escaped(s)[i] == head[i]);
            } else {
                assert(escaped(s)[i] == one[i - head.len()]);
            }
        }
    }
}

// --- statements ------------------------------------------------------------------

/// The call of a page function with one text.
pub open spec fn call(function: Seq<char>, argument: Seq<char>) -> Seq<char> {
    function + "("@ + literal(argument) + ")"@
}

fn call_with(function: &str, argument: &str) -> (r: String)
    ensures
        r@ == call(function@, argument@),
{
    let mut out = function.to_owned();
    out.append("(");
    let shown = js_string(argument);
    out.append(shown.as_str());
    out.append(")");
    out
}

/// Shows `text` as the status line of the boot page.
pub fn set_status(text: &str) -> (r: String)
    ensures
        r@ == call("setStatus"@, text@),
{
    call_with("setStatus", text)
}

/// Adds `line` to the log of the boot page.
pub fn append_log(line: &str) -> (r: String)
    ensures
        r@ == call("appendLog"@, line@),
{
    call_with("appendLog", line)
}

/// Shows `message` as the error that ended the boot.
pub fn fail(message: &str) -> (r: String)
    ensures
        r@ == call("showError"@, message@),
{
    call_with("showError", message)
}

/// Moves the progress bar of the boot page.
pub fn set_progress(percent: u32) -> (r: String)
    ensures
        r@ == "setProgress("@ + crate::text::decimal(percent as nat) + ")"@,
{
    let mut out = "setProgress(".to_owned();
    push_decimal(&mut out, percent as u64);
    out.append(")");
    out
}

/// What the boot page shows of the versions: both of them, or nothing while
/// the version of the harness is unknown.
pub open spec fn version_script(harness: Option<Seq<char>>, shell: Seq<char>) -> Seq<char> {
    match harness {
        Some(version) => "setVersion("@ + literal(version) + ", "@ + literal(shell) + ")"@,
        None => "document.getElementById('version').style.visibility = 'hidden'"@,
    }
}

/// Shows both versions, or hides the line where the harness version is unknown.
pub fn show_version(harness: Option<String>, shell: &str) -> (r: String)
    ensures
        r@ == version_script(
            match harness {
                Some(version) => Some(version@),
                None => None,
            },
            shell@,
        ),
{
    match harness {
        Some(version) => {
            let mut out = "setVersion(".to_owned();
            let first = js_string(version.as_str());
            out.append(first.as_str());
            out.append(", ");
            let second = js_string(shell);
            out.append(second.as_str());
            out.append(")");
            out
        },
        None => "document.getElementById('version').style.visibility = 'hidden'".to_owned(),
    }
}

/// Runs `script` once the page has a body.
pub fn once_body(script: &str) -> (r: String)
    ensures
        r@ == "if (document.body) { "@ + script@ + " }"@,
{
    let mut out = "if (document.body) { ".to_owned();
    out.append(script);
    out.append(" }");
    out
}

} // verus!
