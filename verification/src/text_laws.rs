//! What the text primitives do, said of what goes in and what comes out.
use crate::search::find_yes;
use crate::text::{
    chars_of, contains_bytes, eq_ignore_ascii_case, parse_u16, push_decimal, same_text, space,
    split_on, split_whitespace, stands_at, text_between, text_or_nothing, trim, trim_end_matches,
    trim_start_matches,
};
use vstd::prelude::*;

verus! {

/// So many times the same character.
pub open spec fn run_of(c: char, n: nat) -> Seq<char> {
    Seq::new(n, |i: int| c)
}

/// Whether a text is white space throughout.
pub open spec fn blank(s: Seq<char>) -> bool {
    forall|i: int| 0 <= i < s.len() ==> crate::text::is_space(#[trigger] s[i])
}

/// Whether a text holds no white space.
pub open spec fn solid(s: Seq<char>) -> bool {
    forall|i: int| 0 <= i < s.len() ==> !crate::text::is_space(#[trigger] s[i])
}

/// White space is what Unicode counts as such: twenty-five characters, and no
/// letter, digit or sign of ASCII is among them.
pub proof fn white_space_is(c: char, r: bool)
    requires
        call_ensures(space, (c,), r),
    ensures
        ({
            let code = c as u32;
            r == (9 <= code <= 13 || code == 32 || code == 133 || code == 160 || code == 5760 || 8192
                <= code <= 8202 || code == 8232 || code == 8233 || code == 8239 || code == 8287 || code
                == 12288)
        }),
        '!' <= c <= '~' ==> !r,
{
}

// --- characters -----------------------------------------------------------------

/// The characters of a text, from one to before another, are the text again where
/// all of them are taken.
pub proof fn characters_make_the_text(s: &str, chars: Vec<char>, r: String)
    requires
        call_ensures(chars_of, (s,), chars),
        call_ensures(text_between, (&chars, 0usize, chars@.len() as usize), r),
        chars@.len() <= usize::MAX,
    ensures
        r@ == s@,
{
    assert(chars@.subrange(0, chars@.len() as int) =~= chars@);
}

/// What is taken out of the characters is as long as the way from the one place to
/// the other, and holds what stands there.
pub proof fn characters_are_taken_in_order(
    chars: &Vec<char>,
    from: usize,
    to: usize,
    r: String,
    i: int,
)
    requires
        from <= to <= chars@.len(),
        call_ensures(text_between, (chars, from, to), r),
        0 <= i < to - from,
    ensures
        r@.len() == to - from,
        r@[i] == chars@[from + i],
{
}

/// Two texts are the same where they are equally long and no place differs.
pub proof fn same_texts_differ_nowhere(a: &str, b: &str, r: bool)
    requires
        call_ensures(same_text, (a, b), r),
    ensures
        r == (a@.len() == b@.len() && forall|i: int|
            0 <= i < a@.len() ==> #[trigger] a@[i] == b@[i]),
{
    if a@.len() == b@.len() && forall|i: int| 0 <= i < a@.len() ==> #[trigger] a@[i] == b@[i] {
        assert(a@ =~= b@);
    }
}

/// The first yes is one, and nothing before it is; where there is none, the number
/// of answers stands for it.
pub proof fn the_first_yes_is_found(answers: &Vec<bool>, r: usize, i: int)
    requires
        call_ensures(find_yes, (answers,), r),
    ensures
        r <= answers@.len(),
        r < answers@.len() ==> answers@[r as int],
        0 <= i < r ==> !answers@[i],
{
    first_yes_of(answers@, i);
}

proof fn first_yes_of(answers: Seq<bool>, i: int)
    ensures
        crate::search::first_yes(answers) <= answers.len(),
        crate::search::first_yes(answers) < answers.len() ==> answers[crate::search::first_yes(
            answers,
        ) as int],
        0 <= i < crate::search::first_yes(answers) ==> !answers[i],
    decreases answers.len(),
{
    if answers.len() > 0 && !answers.first() {
        first_yes_of(answers.drop_first(), i - 1);
    }
}

// --- trimming ----------------------------------------------------------------

/// A text between white space is what trimming leaves of the whole, where it
/// neither begins nor ends with white space itself.
pub proof fn trim_takes_the_ends(
    s: &str,
    r: String,
    before: Seq<char>,
    text: Seq<char>,
    after: Seq<char>,
)
    requires
        call_ensures(trim, (s,), r),
        s@ == before + text + after,
        blank(before),
        blank(after),
        text.len() > 0 ==> !crate::text::is_space(text.first()) && !crate::text::is_space(
            text.last(),
        ),
    ensures
        r@ == text,
{
    trimmed_between(before, text, after);
}

/// What trimming leaves of a text between white space.
pub proof fn trimmed_between(before: Seq<char>, text: Seq<char>, after: Seq<char>)
    requires
        blank(before),
        blank(after),
        text.len() > 0 ==> !crate::text::is_space(text.first()) && !crate::text::is_space(
            text.last(),
        ),
    ensures
        crate::text::trimmed(before + text + after) == text,
    decreases before.len() + after.len(),
{
    let s = before + text + after;
    if before.len() > 0 {
        assert(s.first() == before[0]);
        assert(s.drop_first() =~= before.drop_first() + text + after);
        trimmed_between(before.drop_first(), text, after);
    } else if text.len() == 0 && after.len() > 0 {
        assert(s.first() == after[0]);
        assert(s.drop_first() =~= before + text + after.drop_first());
        trimmed_between(before, text, after.drop_first());
    } else if after.len() > 0 {
        assert(s.first() == text.first());
        assert(s.last() == after.last());
        assert(crate::text::is_space(after[after.len() - 1]));
        assert(s.drop_last() =~= before + text + after.drop_last());
        trimmed_between(before, text, after.drop_last());
    } else {
        assert(s =~= text);
    }
}

/// A run of the character at the start is what `trim_start_matches` takes, and
/// nothing else.
pub proof fn leading_run_is_taken(s: &str, c: char, r: String, n: nat, text: Seq<char>)
    requires
        call_ensures(trim_start_matches, (s, c), r),
        s@ == run_of(c, n) + text,
        text.len() > 0 ==> text.first() != c,
    ensures
        r@ == text,
{
    without_leading_run(n, c, text);
}

/// What is left of a text behind a run of the character.
pub proof fn without_leading_run(n: nat, c: char, text: Seq<char>)
    requires
        text.len() > 0 ==> text.first() != c,
    ensures
        crate::text::without_leading(run_of(c, n) + text, c) == text,
    decreases n,
{
    let s = run_of(c, n) + text;
    if n > 0 {
        assert(s.first() == c);
        assert(s.drop_first() =~= run_of(c, (n - 1) as nat) + text);
        without_leading_run((n - 1) as nat, c, text);
    } else {
        assert(s =~= text);
    }
}

/// A run of the character at the end is what `trim_end_matches` takes, and
/// nothing else.
pub proof fn trailing_run_is_taken(s: &str, c: char, r: String, n: nat, text: Seq<char>)
    requires
        call_ensures(trim_end_matches, (s, c), r),
        s@ == text + run_of(c, n),
        text.len() > 0 ==> text.last() != c,
    ensures
        r@ == text,
{
    without_trailing_run(n, c, text);
}

/// What is left of a text before a run of the character.
pub proof fn without_trailing_run(n: nat, c: char, text: Seq<char>)
    requires
        text.len() > 0 ==> text.last() != c,
    ensures
        crate::text::without_trailing(text + run_of(c, n), c) == text,
    decreases n,
{
    let s = text + run_of(c, n);
    if n > 0 {
        assert(s.last() == c);
        assert(s.drop_last() =~= text + run_of(c, (n - 1) as nat));
        without_trailing_run((n - 1) as nat, c, text);
    } else {
        assert(s =~= text);
    }
}

/// A text that may be missing is kept as it is, and is empty where it is
/// missing.
pub proof fn missing_text_is_empty(text: Option<String>, r: String)
    requires
        call_ensures(text_or_nothing, (text,), r),
    ensures
        text matches Some(s) ==> r@ == s@,
        text is None ==> r@.len() == 0,
{
}

// --- splitting -----------------------------------------------------------------

/// The parts with the character between them.
pub open spec fn joined(parts: Seq<Seq<char>>, c: char) -> Seq<char>
    decreases parts.len(),
{
    if parts.len() == 0 {
        Seq::empty()
    } else if parts.len() == 1 {
        parts[0]
    } else {
        parts[0] + seq![c] + joined(parts.drop_first(), c)
    }
}

/// Splitting is undone by joining, and no part holds the character any more.
pub proof fn split_joins_again(s: &str, c: char, r: Vec<String>)
    requires
        call_ensures(split_on, (s, c), r),
    ensures
        r@.len() > 0,
        joined(r.deep_view(), c) == s@,
        forall|i: int| 0 <= i < r@.len() ==> !(#[trigger] r@[i])@.contains(c),
{
    split_is_joined(s@, c);
    assert forall|i: int| 0 <= i < r@.len() implies !(#[trigger] r@[i])@.contains(c) by {
        assert(r.deep_view()[i] == r@[i]@);
    }
}

/// The parts of a text, joined again, are the text.
pub proof fn split_is_joined(s: Seq<char>, c: char)
    ensures
        crate::text::split(s, c).len() > 0,
        joined(crate::text::split(s, c), c) == s,
        forall|i: int|
            0 <= i < crate::text::split(s, c).len() ==> !(#[trigger] crate::text::split(
                s,
                c,
            )[i]).contains(c),
    decreases s.len(),
{
    crate::text::position_in(s, c);
    let n = crate::text::position(s, c) as int;
    let parts = crate::text::split(s, c);
    if n < s.len() {
        let tail = crate::text::split(s.skip(n + 1), c);
        split_is_joined(s.skip(n + 1), c);
        assert(parts.drop_first() =~= tail);
        assert(parts[0] == s.take(n));
        assert(joined(parts, c) =~= s);
        assert forall|i: int| 0 <= i < parts.len() implies !(#[trigger] parts[i]).contains(c) by {
            if i > 0 {
                assert(parts[i] == tail[i - 1]);
            }
        }
    }
}

/// White space alone has no words.
pub proof fn blank_has_no_words(s: &str, r: Vec<String>)
    requires
        call_ensures(split_whitespace, (s,), r),
        blank(s@),
    ensures
        r@.len() == 0,
{
    words_of_blank(s@);
    assert(r.deep_view().len() == r@.len());
}

/// White space alone has no words.
pub proof fn words_of_blank(s: Seq<char>)
    requires
        blank(s),
    ensures
        crate::text::words(s) == Seq::<Seq<char>>::empty(),
    decreases s.len(),
{
    if s.len() > 0 {
        assert(crate::text::is_space(s[0]));
        words_of_blank(s.drop_first());
    }
}

/// The words of a text are its first word and the words of what follows it.
pub proof fn words_come_one_by_one(
    s: &str,
    r: Vec<String>,
    before: Seq<char>,
    word: Seq<char>,
    rest: &str,
    q: Vec<String>,
)
    requires
        call_ensures(split_whitespace, (s,), r),
        call_ensures(split_whitespace, (rest,), q),
        s@ == before + word + rest@,
        blank(before),
        solid(word),
        word.len() > 0,
        rest@.len() > 0 ==> crate::text::is_space(rest@.first()),
    ensures
        r.deep_view() == seq![word] + q.deep_view(),
{
    first_word(before, word, rest@);
}

/// The words of a text are its first word and the words of what follows it.
pub proof fn first_word(before: Seq<char>, word: Seq<char>, rest: Seq<char>)
    requires
        blank(before),
        solid(word),
        word.len() > 0,
        rest.len() > 0 ==> crate::text::is_space(rest.first()),
    ensures
        crate::text::words(before + word + rest) == seq![word] + crate::text::words(rest),
    decreases before.len(),
{
    let s = before + word + rest;
    if before.len() > 0 {
        assert(s.first() == before[0]);
        assert(s.drop_first() =~= before.drop_first() + word + rest);
        first_word(before.drop_first(), word, rest);
    } else {
        assert(s =~= word + rest);
        assert(s.first() == word[0]);
        assert forall|i: int| 0 <= i < word.len() implies !crate::text::is_space(s[i]) by {
            assert(s[i] == word[i]);
        }
        crate::text::word_length_is(s, word.len() as int);
        assert(s.take(word.len() as int) =~= word);
        assert(s.skip(word.len() as int) =~= rest);
    }
}

// --- case ------------------------------------------------------------------------

/// Whether two characters are the same letter in the two cases of ASCII, the
/// first in upper case.
pub open spec fn upper_and_lower(a: char, b: char) -> bool {
    'A' <= a <= 'Z' && b as u32 == a as u32 + 32
}

/// Two texts are equal up to ASCII case where they are equally long and every
/// character is the same, or the same letter in the other case.
pub proof fn case_alone_is_ignored(a: &str, b: &str, r: bool)
    requires
        call_ensures(eq_ignore_ascii_case, (a, b), r),
    ensures
        r == (a@.len() == b@.len() && forall|i: int|
            0 <= i < a@.len() ==> (#[trigger] a@[i] == b@[i] || upper_and_lower(a@[i], b@[i])
                || upper_and_lower(b@[i], a@[i]))),
{
    assert forall|x: char, y: char|
        (#[trigger] crate::text::lower(x) == #[trigger] crate::text::lower(y)) == (x == y
            || upper_and_lower(x, y) || upper_and_lower(y, x)) by {}
    if a@.len() == b@.len() {
        assert forall|i: int| 0 <= i < a@.len() implies (crate::text::lower(#[trigger] a@[i])
            == crate::text::lower(b@[i])) == (a@[i] == b@[i] || upper_and_lower(a@[i], b@[i])
            || upper_and_lower(b@[i], a@[i])) by {}
        if r {
            assert forall|i: int| 0 <= i < a@.len() implies (#[trigger] a@[i] == b@[i]
                || upper_and_lower(a@[i], b@[i]) || upper_and_lower(b@[i], a@[i])) by {
                assert(crate::text::lower(a@[i]) == crate::text::lower(b@[i]));
            }
        }
    }
}

// --- searching -------------------------------------------------------------------

/// A pattern stands at a place where every byte of it is found there.
pub proof fn stands_where_its_bytes_are(bytes: &[u8], pattern: &[u8], at: usize, r: bool)
    requires
        call_ensures(stands_at, (bytes, pattern, at), r),
    ensures
        r == (at + pattern@.len() <= bytes@.len() && forall|i: int|
            0 <= i < pattern@.len() ==> bytes@[at + i] == #[trigger] pattern@[i]),
{
    occurs_bytewise(bytes@, pattern@, at as int);
}

proof fn occurs_bytewise(bytes: Seq<u8>, pattern: Seq<u8>, at: int)
    requires
        0 <= at,
    ensures
        crate::text::occurs_at(bytes, pattern, at) == (at + pattern.len() <= bytes.len() && forall|
            i: int,
        |
            0 <= i < pattern.len() ==> bytes[at + i] == #[trigger] pattern[i]),
{
    if at + pattern.len() <= bytes.len() {
        let part = bytes.subrange(at, at + pattern.len());
        assert forall|i: int| 0 <= i < pattern.len() implies part[i] == bytes[at + i] by {}
        if forall|i: int| 0 <= i < pattern.len() ==> bytes[at + i] == #[trigger] pattern[i] {
            assert(part =~= pattern);
        }
        if part == pattern {
            assert forall|i: int| 0 <= i < pattern.len() implies bytes[at + i]
                == #[trigger] pattern[i] by {
                assert(part[i] == pattern[i]);
            }
        }
    }
}

/// A pattern is found in whatever stands around it.
pub proof fn found_within(bytes: &[u8], pattern: &[u8], r: bool, before: Seq<u8>, after: Seq<u8>)
    requires
        call_ensures(contains_bytes, (bytes, pattern), r),
        bytes@ == before + pattern@ + after,
    ensures
        r,
{
    let at = before.len() as int;
    assert(bytes@.subrange(at, at + pattern@.len()) =~= pattern@);
    assert(crate::text::occurs_at(bytes@, pattern@, at));
}

/// What is found stands somewhere.
pub proof fn found_stands_somewhere(bytes: &[u8], pattern: &[u8], r: bool)
    requires
        call_ensures(contains_bytes, (bytes, pattern), r),
        r,
    ensures
        exists|before: Seq<u8>, after: Seq<u8>| bytes@ == #[trigger] (before + pattern@ + after),
{
    let at = choose|at: int| crate::text::occurs_at(bytes@, pattern@, at);
    let before = bytes@.take(at);
    let after = bytes@.skip(at + pattern@.len());
    assert(bytes@ =~= before + bytes@.subrange(at, at + pattern@.len()) + after);
    assert(bytes@ == before + pattern@ + after);
}

// --- numbers ---------------------------------------------------------------------

/// A number below ten is written as its digit; any other as all but its last
/// digit, followed by that.
pub proof fn decimal_grows_by_digits(n: nat)
    ensures
        n < 10 ==> crate::text::decimal(n).len() == 1 && crate::text::decimal(n)[0] as u32 == 48
            + n,
        n >= 10 ==> crate::text::decimal(n).len() == crate::text::decimal(n / 10).len() + 1
            && crate::text::decimal(n).drop_last() == crate::text::decimal(n / 10)
            && crate::text::decimal(n).last() as u32 == 48 + n % 10,
{
    if n >= 10 {
        assert(crate::text::decimal(n).drop_last() =~= crate::text::decimal(n / 10));
    }
}

/// The digits of a number are put behind what stands there already.
pub proof fn digits_are_put_behind(out: &mut String, n: u64)
    requires
        call_ensures(push_decimal, (out, n), ()),
    ensures
        final(out)@ == old(out)@ + crate::text::decimal(n as nat),
{
}

/// A number is read from its digits: a further digit makes it ten times as large
/// and adds itself, as long as sixteen bits hold it.
pub proof fn digits_add_up(text: &str, r: Option<u16>, longer: &str, q: Option<u16>, digit: char)
    requires
        call_ensures(parse_u16, (text,), r),
        call_ensures(parse_u16, (longer,), q),
        longer@ == text@.push(digit),
        r is Some,
    ensures
        '0' <= digit <= '9' ==> q == (if r->0 * 10 + (digit as u32 - 48) <= 65535 {
            Some((r->0 * 10 + (digit as u32 - 48)) as u16)
        } else {
            None
        }),
        !('0' <= digit <= '9') ==> q is None,
{
    let plus = text@.first() == '+';
    let d = if plus {
        text@.drop_first()
    } else {
        text@
    };
    let e = if plus {
        longer@.drop_first()
    } else {
        longer@
    };
    assert(longer@.first() == text@.first());
    assert(e =~= d.push(digit));
    assert(e.drop_last() =~= d);
    if '0' <= digit <= '9' {
        assert forall|i: int| 0 <= i < e.len() implies '0' <= #[trigger] e[i] <= '9' by {
            if i < d.len() {
                assert(e[i] == d[i]);
            }
        }
    } else {
        assert(e[d.len() as int] == digit);
    }
}

/// A number that sixteen bits do not hold is none with a further digit either.
pub proof fn too_large_stays_too_large(
    text: &str,
    r: Option<u16>,
    longer: &str,
    q: Option<u16>,
    digit: char,
)
    requires
        call_ensures(parse_u16, (text,), r),
        call_ensures(parse_u16, (longer,), q),
        longer@ == text@.push(digit),
        text@.len() > 0,
        forall|i: int| 0 <= i < text@.len() ==> '0' <= #[trigger] text@[i] <= '9',
        r is None,
    ensures
        q is None,
{
    assert(longer@.first() == text@.first());
    assert('0' <= text@[0]);
    assert(longer@.drop_last() =~= text@);
    if '0' <= digit <= '9' {
        assert(crate::text::digits_value(longer@) >= crate::text::digits_value(text@));
    } else {
        assert(longer@[text@.len() as int] == digit);
    }
}

/// One digit is read as itself, with or without a sign before it.
pub proof fn one_digit_is_read(text: &str, r: Option<u16>, digit: char)
    requires
        call_ensures(parse_u16, (text,), r),
        text@ == seq![digit] || text@ == seq!['+', digit],
    ensures
        '0' <= digit <= '9' ==> r == Some((digit as u32 - 48) as u16),
        !('0' <= digit <= '9') ==> r is None,
{
    reveal_with_fuel(crate::text::digits_value, 2);
    let d = if text@.first() == '+' {
        text@.drop_first()
    } else {
        text@
    };
    if text@ == seq!['+', digit] {
        assert(d =~= seq![digit]);
        assert(d[0] == digit);
        assert(d.drop_last() =~= Seq::empty());
    } else if digit != '+' {
        assert(d =~= seq![digit]);
        assert(d[0] == digit);
        assert(d.drop_last() =~= Seq::empty());
    }
}

/// What is no run of digits behind at most one sign is no number.
pub proof fn only_digits_are_read(text: &str, r: Option<u16>, i: int)
    requires
        call_ensures(parse_u16, (text,), r),
        0 <= i < text@.len() && !('0' <= text@[i] <= '9') && (i > 0 || text@[i] != '+')
            || text@.len() == 0 || text@ == seq!['+'],
    ensures
        r is None,
{
    let d = if text@.len() > 0 && text@.first() == '+' {
        text@.drop_first()
    } else {
        text@
    };
    if text@.len() > 0 && text@ != seq!['+'] {
        if text@.first() == '+' {
            assert(d[i - 1] == text@[i]);
        } else {
            assert(d[i] == text@[i]);
        }
    }
}

} // verus!
