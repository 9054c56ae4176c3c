//! What the scripts of the shell say once they are read.
use crate::script::{
    append_log, fail, js_string, once_body, set_progress, set_status, show_version,
};
use vstd::prelude::*;

verus! {

/// A literal reads back as the text, whatever follows it, and holds no control
/// character.
pub proof fn a_literal_reads_back(s: &str, r: String, rest: Seq<char>)
    requires
        call_ensures(js_string, (s,), r),
    ensures
        crate::script::read_literal(r@ + rest) == Some((s@, rest)),
        forall|i: int| 0 <= i < r@.len() ==> (#[trigger] r@[i] as u32) >= 0x20,
{
    crate::script::literal_reads_back(s@, rest);
    crate::script::literal_has_no_control(s@);
}

/// A text without quotes, backslashes and control characters stands in its literal
/// as it is.
pub proof fn plain_texts_stand_as_they_are(s: &str, r: String)
    requires
        call_ensures(js_string, (s,), r),
        forall|i: int|
            0 <= i < s@.len() ==> #[trigger] s@[i] != '"' && s@[i] != '\\' && s@[i] as u32 >= 32,
    ensures
        r@ == seq!['"'] + s@ + seq!['"'],
{
    plain_escapes(s@);
}

proof fn plain_escapes(s: Seq<char>)
    requires
        forall|i: int|
            0 <= i < s.len() ==> #[trigger] s[i] != '"' && s[i] != '\\' && s[i] as u32 >= 32,
    ensures
        crate::script::escaped(s) == s,
    decreases s.len(),
{
    if s.len() > 0 {
        plain_escapes(s.drop_last());
        assert(s[s.len() - 1] == s.last());
        assert(s.drop_last() + seq![s.last()] =~= s);
    }
}

/// Literals are made character by character: that of two texts in a row is the
/// first one without its closing quote and the second one without its opening
/// quote.
pub proof fn literals_are_made_character_by_character(
    a: &str,
    b: &str,
    both: &str,
    first: String,
    second: String,
    r: String,
)
    requires
        call_ensures(js_string, (a,), first),
        call_ensures(js_string, (b,), second),
        call_ensures(js_string, (both,), r),
        both@ == a@ + b@,
    ensures
        r@ == first@.drop_last() + second@.drop_first(),
{
    escapes_in_a_row(a@, b@);
    assert(r@ =~= first@.drop_last() + second@.drop_first());
}

proof fn escapes_in_a_row(a: Seq<char>, b: Seq<char>)
    ensures
        crate::script::escaped(a + b) == crate::script::escaped(a) + crate::script::escaped(b),
    decreases b.len(),
{
    if b.len() == 0 {
        assert(a + b =~= a);
        assert(crate::script::escaped(a) + crate::script::escaped(b) =~= crate::script::escaped(a));
    } else {
        escapes_in_a_row(a, b.drop_last());
        assert((a + b).drop_last() =~= a + b.drop_last());
        assert((a + b).last() == b.last());
        assert(crate::script::escaped(a + b) =~= crate::script::escaped(a)
            + crate::script::escaped(b));
    }
}

/// A character that cannot stand as it is has the shortest escape there is for it:
/// two characters for a quote, a backslash and the three usual breaks, and four
/// lower case digits for any other control character.
pub proof fn escapes_are_short(s: &str, r: String, c: char)
    requires
        call_ensures(js_string, (s,), r),
        s@ == seq![c],
    ensures
        c == '"' || c == '\\' ==> r@ == seq!['"', '\\', c, '"'],
        c == '\n' ==> r@ == seq!['"', '\\', 'n', '"'],
        c == '\r' ==> r@ == seq!['"', '\\', 'r', '"'],
        c == '\t' ==> r@ == seq!['"', '\\', 't', '"'],
        (c as u32) < 32 && c != '\n' && c != '\r' && c != '\t' ==> {
            &&& r@.len() == 8
            &&& r@[1] == '\\' && r@[2] == 'u' && r@[3] == '0' && r@[4] == '0'
            &&& r@[5] == '0' || r@[5] == '1'
            &&& '0' <= r@[6] <= '9' || 'a' <= r@[6] <= 'f'
            &&& (r@[5] as u32 - 48) * 16 + (if r@[6] <= '9' {
                r@[6] as u32 - 48
            } else {
                r@[6] as u32 - 87
            }) == c as u32
        },
{
    reveal_with_fuel(crate::script::escaped, 2);
    assert(s@.drop_last() =~= Seq::empty());
    assert(crate::script::escaped(s@) =~= crate::script::escaped_char(c));
    assert(r@ =~= seq!['"'] + crate::script::escaped_char(c) + seq!['"']);
}

/// Whether a script calls this function with one text, and does nothing else.
pub open spec fn calls(script: Seq<char>, opening: Seq<char>, text: Seq<char>) -> bool {
    &&& script.len() >= opening.len()
    &&& script.take(opening.len() as int) == opening
    &&& crate::script::read_literal(script.skip(opening.len() as int)) == Some((text, seq![')']))
}

proof fn call_is_read(function: Seq<char>, opening: Seq<char>, text: Seq<char>)
    requires
        opening == function + "("@,
    ensures
        calls(crate::script::call(function, text), opening, text),
{
    let script = crate::script::call(function, text);
    reveal_strlit(")");
    assert(")"@ =~= seq![')']);
    assert(script.take(opening.len() as int) =~= opening);
    assert(script.skip(opening.len() as int) =~= crate::script::literal(text) + seq![')']);
    crate::script::literal_reads_back(text, seq![')']);
}

/// The three scripts of the boot page that show a text call their function with
/// exactly that text, whatever it holds.
pub proof fn pages_are_told_the_text(
    text: &str,
    status: String,
    log: String,
    error: String,
)
    requires
        call_ensures(set_status, (text,), status),
        call_ensures(append_log, (text,), log),
        call_ensures(fail, (text,), error),
    ensures
        calls(status@, "setStatus("@, text@),
        calls(log@, "appendLog("@, text@),
        calls(error@, "showError("@, text@),
{
    reveal_strlit("(");
    reveal_strlit("setStatus");
    reveal_strlit("setStatus(");
    reveal_strlit("appendLog");
    reveal_strlit("appendLog(");
    reveal_strlit("showError");
    reveal_strlit("showError(");
    assert("setStatus("@ =~= "setStatus"@ + "("@);
    assert("appendLog("@ =~= "appendLog"@ + "("@);
    assert("showError("@ =~= "showError"@ + "("@);
    call_is_read("setStatus"@, "setStatus("@, text@);
    call_is_read("appendLog"@, "appendLog("@, text@);
    call_is_read("showError"@, "showError("@, text@);
}

/// Both versions are shown as they are, that of the harness first; where it is
/// unknown, the same script hides the line whatever the version of the shell.
pub proof fn both_versions_are_shown(
    harness: Option<String>,
    shell: &str,
    r: String,
    other: &str,
    q: String,
)
    requires
        call_ensures(show_version, (harness, shell), r),
        call_ensures(show_version, (None::<String>, other), q),
    ensures
        harness is None ==> r@ == q@,
        harness matches Some(version) ==> {
            &&& r@.len() >= 11
            &&& r@.take(11) == "setVersion("@
            &&& crate::script::read_literal(r@.skip(11)) matches Some((first, rest)) && first
                == version@ && rest.len() >= 2 && rest.take(2) == seq![',', ' ']
                && crate::script::read_literal(rest.skip(2)) == Some((shell@, seq![')']))
        },
{
    if let Some(version) = harness {
        reveal_strlit("setVersion(");
        reveal_strlit(", ");
        reveal_strlit(")");
        let rest = ", "@ + crate::script::literal(shell@) + ")"@;
        assert(r@.take(11) =~= "setVersion("@);
        assert(r@.skip(11) =~= crate::script::literal(version@) + rest);
        crate::script::literal_reads_back(version@, rest);
        assert(rest.take(2) =~= seq![',', ' ']);
        assert(rest.skip(2) =~= crate::script::literal(shell@) + seq![')']);
        crate::script::literal_reads_back(shell@, seq![')']);
    }
}

/// The progress bar is told the number that is reported, and a script that waits
/// for the page is run as it is.
pub proof fn numbers_and_scripts_are_passed_on(
    percent: u32,
    shown: String,
    other: u32,
    seen: String,
    script: &str,
    waits: String,
    another: &str,
    rests: String,
)
    requires
        call_ensures(set_progress, (percent,), shown),
        call_ensures(set_progress, (other,), seen),
        call_ensures(once_body, (script,), waits),
        call_ensures(once_body, (another,), rests),
    ensures
        crate::wording_laws::told_alike(
            shown@,
            crate::text::decimal(percent as nat),
            seen@,
            crate::text::decimal(other as nat),
        ),
        crate::wording_laws::told_alike(waits@, script@, rests@, another@),
{
    crate::wording_laws::alike(
        shown@,
        crate::text::decimal(percent as nat),
        seen@,
        crate::text::decimal(other as nat),
        "setProgress("@,
        ")"@,
    );
    crate::wording_laws::alike(
        waits@,
        script@,
        rests@,
        another@,
        "if (document.body) { "@,
        " }"@,
    );
}

} // verus!
