//! Text primitives: trimming, splitting, searching and decimal numbers.
//!
//! Text is modelled by its characters, a `Seq<char>`; raw replies by their
//! bytes, a `Seq<u8>`.
use vstd::prelude::*;

verus! {

/// `String::push`: the character is added after the last one, and the rest of
/// the text stays as it was.
pub assume_specification[ String::push ](s: &mut String, c: char)
    ensures
        final(s)@ == old(s)@.push(c),
;

// --- characters --------------------------------------------------------------

/// The characters with the Unicode property White_Space.
pub open spec fn is_space(c: char) -> bool {
    ||| '\u{9}' <= c <= '\u{d}'
    ||| c == ' '
    ||| c == '\u{85}'
    ||| c == '\u{a0}'
    ||| c == '\u{1680}'
    ||| '\u{2000}' <= c <= '\u{200a}'
    ||| c == '\u{2028}'
    ||| c == '\u{2029}'
    ||| c == '\u{202f}'
    ||| c == '\u{205f}'
    ||| c == '\u{3000}'
}

/// Whether `c` is white space.
pub fn space(c: char) -> (r: bool)
    ensures
        r == is_space(c),
{
    ('\u{9}' <= c && c <= '\u{d}') || c == ' ' || c == '\u{85}' || c == '\u{a0}' || c == '\u{1680}'
        || ('\u{2000}' <= c && c <= '\u{200a}') || c == '\u{2028}' || c == '\u{2029}' || c
        == '\u{202f}' || c == '\u{205f}' || c == '\u{3000}'
}

/// The characters of `s`, in order.
pub fn chars_of(s: &str) -> (r: Vec<char>)
    ensures
        r@ == s@,
{
    let mut out: Vec<char> = Vec::new();
    for c in it: s.chars()
        invariant
            it.seq() == s@,
            out@ == s@.take(it.index() as int),
    {
        out.push(c);
    }
    assert(s@.take(s@.len() as int) == s@);
    out
}

/// The text made of `chars[from..to]`.
pub fn text_between(chars: &Vec<char>, from: usize, to: usize) -> (r: String)
    requires
        from <= to <= chars.len(),
    ensures
        r@ == chars@.subrange(from as int, to as int),
{
    let mut out = String::new();
    let mut i: usize = from;
    while i < to
        invariant
            from <= i <= to <= chars.len(),
            out@ == chars@.subrange(from as int, i as int),
        decreases to - i,
    {
        out.push(chars[i]);
        i = i + 1;
    }
    out
}

/// The text, or nothing where there is none.
pub open spec fn or_nothing(text: Option<String>) -> Seq<char> {
    match text {
        Some(s) => s@,
        None => Seq::empty(),
    }
}

/// The text, or nothing where there is none.
pub fn text_or_nothing(text: Option<String>) -> (r: String)
    ensures
        r@ == or_nothing(text),
{
    match text {
        Some(s) => s,
        None => String::new(),
    }
}

/// Whether two texts hold the same characters.
pub fn same_text(a: &str, b: &str) -> (r: bool)
    ensures
        r == (a@ == b@),
{
    a.to_owned() == b.to_owned()
}

// --- trimming ----------------------------------------------------------------

/// `s` without the white space at both ends.
pub open spec fn trimmed(s: Seq<char>) -> Seq<char>
    decreases s.len(),
{
    if s.len() == 0 {
        s
    } else if is_space(s.first()) {
        trimmed(s.drop_first())
    } else if is_space(s.last()) {
        trimmed(s.drop_last())
    } else {
        s
    }
}

proof fn trimmed_stays(s: Seq<char>)
    requires
        s.len() > 0 ==> !is_space(s.first()) && !is_space(s.last()),
    ensures
        trimmed(s) == s,
{
}

/// `s` without the white space at both ends.
pub fn trim(s: &str) -> (r: String)
    ensures
        r@ == trimmed(s@),
{
    let chars = chars_of(s);
    let mut from: usize = 0;
    let mut to: usize = chars.len();
    assert(chars@.subrange(0, to as int) == s@);
    while from < to && space(chars[from])
        invariant
            from <= to <= chars.len(),
            trimmed(chars@.subrange(from as int, to as int)) == trimmed(s@),
        decreases to - from,
    {
        assert(chars@.subrange(from as int, to as int).drop_first() == chars@.subrange(
            from + 1,
            to as int,
        ));
        from = from + 1;
    }
    while from < to && space(chars[to - 1])
        invariant
            from <= to <= chars.len(),
            from < to ==> !is_space(chars@[from as int]),
            trimmed(chars@.subrange(from as int, to as int)) == trimmed(s@),
        decreases to - from,
    {
        assert(chars@.subrange(from as int, to as int).drop_last() == chars@.subrange(
            from as int,
            to - 1,
        ));
        to = to - 1;
    }
    assert(trimmed(chars@.subrange(from as int, to as int)) == chars@.subrange(
        from as int,
        to as int,
    )) by {
        trimmed_stays(chars@.subrange(from as int, to as int));
    }
    text_between(&chars, from, to)
}

/// Trimming leaves nothing to trim: a trimmed text is its own trimmed text.
pub proof fn trimmed_is_trimmed(s: Seq<char>)
    ensures
        trimmed(trimmed(s)) == trimmed(s),
    decreases s.len(),
{
    if s.len() == 0 {
    } else if is_space(s.first()) {
        trimmed_is_trimmed(s.drop_first());
    } else if is_space(s.last()) {
        trimmed_is_trimmed(s.drop_last());
    }
}

/// `s` without the run of `c` at its start.
pub open spec fn without_leading(s: Seq<char>, c: char) -> Seq<char>
    decreases s.len(),
{
    if s.len() > 0 && s.first() == c {
        without_leading(s.drop_first(), c)
    } else {
        s
    }
}

/// `s` without the run of `c` at its start.
pub fn trim_start_matches(s: &str, c: char) -> (r: String)
    ensures
        r@ == without_leading(s@, c),
{
    let chars = chars_of(s);
    let mut from: usize = 0;
    assert(chars@.skip(0) == s@);
    while from < chars.len() && chars[from] == c
        invariant
            from <= chars.len(),
            without_leading(chars@.skip(from as int), c) == without_leading(s@, c),
        decreases chars.len() - from,
    {
        assert(chars@.skip(from as int).drop_first() == chars@.skip(from + 1));
        from = from + 1;
    }
    assert(chars@.skip(from as int) == chars@.subrange(from as int, chars.len() as int));
    text_between(&chars, from, chars.len())
}

/// `s` without the run of `c` at its end.
pub open spec fn without_trailing(s: Seq<char>, c: char) -> Seq<char>
    decreases s.len(),
{
    if s.len() > 0 && s.last() == c {
        without_trailing(s.drop_last(), c)
    } else {
        s
    }
}

/// `s` without the run of `c` at its end.
pub fn trim_end_matches(s: &str, c: char) -> (r: String)
    ensures
        r@ == without_trailing(s@, c),
{
    let chars = chars_of(s);
    let mut to: usize = chars.len();
    assert(chars@.take(to as int) == s@);
    while to > 0 && chars[to - 1] == c
        invariant
            to <= chars.len(),
            without_trailing(chars@.take(to as int), c) == without_trailing(s@, c),
        decreases to,
    {
        assert(chars@.take(to as int).drop_last() == chars@.take(to - 1));
        to = to - 1;
    }
    assert(chars@.take(to as int) == chars@.subrange(0, to as int));
    text_between(&chars, 0, to)
}

// --- splitting ---------------------------------------------------------------

/// Where `c` first occurs in `s`; the length of `s` where it does not.
pub open spec fn position(s: Seq<char>, c: char) -> nat
    decreases s.len(),
{
    if s.len() == 0 || s.first() == c {
        0
    } else {
        1 + position(s.drop_first(), c)
    }
}

/// The first place of a character, and what stands before it.
pub proof fn position_in(s: Seq<char>, c: char)
    ensures
        position(s, c) <= s.len(),
        position(s, c) < s.len() ==> s[position(s, c) as int] == c,
        forall|i: int| 0 <= i < position(s, c) ==> s[i] != c,
    decreases s.len(),
{
    if s.len() == 0 || s.first() == c {
    } else {
        position_in(s.drop_first(), c);
        assert forall|i: int| 0 <= i < position(s, c) implies s[i] != c by {
            if i > 0 {
                assert(s[i] == s.drop_first()[i - 1]);
            }
        }
    }
}

/// A position with no earlier `c` is where `c` first occurs.
pub proof fn position_is(s: Seq<char>, c: char, n: int)
    requires
        0 <= n <= s.len(),
        n < s.len() ==> s[n] == c,
        forall|i: int| 0 <= i < n ==> s[i] != c,
    ensures
        position(s, c) == n,
{
    position_in(s, c);
}

/// The parts of `s` between the occurrences of `c`.
pub open spec fn split(s: Seq<char>, c: char) -> Seq<Seq<char>>
    decreases s.len(),
{
    let n = position(s, c);
    if n >= s.len() {
        seq![s]
    } else {
        seq![s.take(n as int)] + split(s.skip(n as int + 1), c)
    }
}

/// The parts of `s` between the occurrences of `c`.
pub fn split_on(s: &str, c: char) -> (r: Vec<String>)
    ensures
        r.deep_view() == split(s@, c),
{
    let chars = chars_of(s);
    let mut parts: Vec<String> = Vec::new();
    let mut from: usize = 0;
    let mut at: usize = 0;
    assert(chars@.skip(0) == s@);
    assert(parts.deep_view() + split(chars@.skip(0), c) == split(s@, c));
    while at < chars.len()
        invariant
            from <= at <= chars.len(),
            forall|i: int| from <= i < at ==> chars@[i] != c,
            parts.deep_view() + split(chars@.skip(from as int), c) == split(s@, c),
        decreases chars.len() - at,
    {
        if chars[at] == c {
            let ghost rest = chars@.skip(from as int);
            let ghost before = parts.deep_view();
            let part = text_between(&chars, from, at);
            proof {
                position_is(rest, c, at - from);
                assert(rest.take(at - from) == part@);
                assert(rest.skip(at - from + 1) == chars@.skip(at + 1));
            }
            parts.push(part);
            assert(parts.deep_view() == before.push(part@));
            assert(parts.deep_view() + split(chars@.skip(at + 1), c) == before + (seq![part@]
                + split(chars@.skip(at + 1), c)));
            from = at + 1;
        }
        at = at + 1;
    }
    let ghost rest = chars@.skip(from as int);
    let ghost before = parts.deep_view();
    let part = text_between(&chars, from, at);
    proof {
        position_is(rest, c, at - from);
        assert(rest == part@);
    }
    parts.push(part);
    assert(parts.deep_view() == before + seq![part@]);
    parts
}

/// How many characters stand before the first white space of `s`.
pub open spec fn word_length(s: Seq<char>) -> nat
    decreases s.len(),
{
    if s.len() == 0 || is_space(s.first()) {
        0
    } else {
        1 + word_length(s.drop_first())
    }
}

/// A text begins with a word no longer than itself.
pub proof fn word_length_in(s: Seq<char>)
    ensures
        word_length(s) <= s.len(),
        s.len() > 0 && !is_space(s.first()) ==> word_length(s) > 0,
    decreases s.len(),
{
    if s.len() > 0 && !is_space(s.first()) {
        word_length_in(s.drop_first());
    }
}

/// The words of `s`: its maximal runs of characters that are no white space.
pub open spec fn words(s: Seq<char>) -> Seq<Seq<char>>
    decreases s.len(),
{
    if s.len() == 0 {
        Seq::empty()
    } else if is_space(s.first()) {
        words(s.drop_first())
    } else {
        let n = word_length(s);
        proof {
            word_length_in(s);
        }
        seq![s.take(n as int)] + words(s.skip(n as int))
    }
}

/// A run without white space, up to white space or the end, is the first word.
pub proof fn word_length_is(s: Seq<char>, n: int)
    requires
        0 <= n <= s.len(),
        n < s.len() ==> is_space(s[n]),
        forall|i: int| 0 <= i < n ==> !is_space(s[i]),
    ensures
        word_length(s) == n,
    decreases n,
{
    if n > 0 {
        let t = s.drop_first();
        assert forall|i: int| 0 <= i < n - 1 implies !is_space(t[i]) by {
            assert(t[i] == s[i + 1]);
        }
        word_length_is(t, n - 1);
    }
}

/// The words of `s`, in order.
pub fn split_whitespace(s: &str) -> (r: Vec<String>)
    ensures
        r.deep_view() == words(s@),
{
    let chars = chars_of(s);
    let mut out: Vec<String> = Vec::new();
    let mut at: usize = 0;
    assert(chars@.skip(0) == s@);
    assert(out.deep_view() + words(chars@.skip(0)) == words(s@));
    while at < chars.len()
        invariant
            at <= chars.len(),
            out.deep_view() + words(chars@.skip(at as int)) == words(s@),
        decreases chars.len() - at,
    {
        let ghost rest = chars@.skip(at as int);
        if space(chars[at]) {
            assert(rest.drop_first() == chars@.skip(at + 1));
            at = at + 1;
        } else {
            let mut end: usize = at;
            while end < chars.len() && !space(chars[end])
                invariant
                    at <= end <= chars.len(),
                    forall|i: int| at <= i < end ==> !is_space(#[trigger] chars@[i]),
                decreases chars.len() - end,
            {
                end = end + 1;
            }
            let ghost before = out.deep_view();
            let word = text_between(&chars, at, end);
            proof {
                word_length_is(rest, end - at);
                assert(rest.take(end - at) == word@);
                assert(rest.skip(end - at) == chars@.skip(end as int));
            }
            assert(end > at) by {
                if end == at {
                    assert(is_space(chars@[at as int]));
                }
            }
            out.push(word);
            assert(out.deep_view() == before.push(word@));
            assert(out.deep_view() + words(chars@.skip(end as int)) == before + (seq![word@]
                + words(chars@.skip(end as int))));
            at = end;
        }
    }
    assert(chars@.skip(at as int) == Seq::<char>::empty());
    out
}

// --- case ----------------------------------------------------------------------

/// The ASCII lower case of `c`; every other character is itself.
pub open spec fn lower(c: char) -> char {
    if 'A' <= c <= 'Z' {
        (c as u32 + 32) as char
    } else {
        c
    }
}

/// Equality of two texts up to ASCII case.
pub open spec fn same_ignoring_case(a: Seq<char>, b: Seq<char>) -> bool {
    &&& a.len() == b.len()
    &&& forall|i: int| 0 <= i < a.len() ==> lower(#[trigger] a[i]) == lower(b[i])
}

fn to_lower(c: char) -> (r: char)
    ensures
        r == lower(c),
{
    if 'A' <= c && c <= 'Z' {
        (c as u8 + 32) as char
    } else {
        c
    }
}

/// Whether two texts are equal up to ASCII case.
pub fn eq_ignore_ascii_case(a: &str, b: &str) -> (r: bool)
    ensures
        r == same_ignoring_case(a@, b@),
{
    let x = chars_of(a);
    let y = chars_of(b);
    if x.len() != y.len() {
        return false;
    }
    let mut i: usize = 0;
    while i < x.len()
        invariant
            i <= x.len() == y.len(),
            x@ == a@,
            y@ == b@,
            forall|j: int| 0 <= j < i ==> lower(#[trigger] x@[j]) == lower(y@[j]),
        decreases x.len() - i,
    {
        if to_lower(x[i]) != to_lower(y[i]) {
            assert(lower(a@[i as int]) != lower(b@[i as int]));
            return false;
        }
        i = i + 1;
    }
    true
}

// --- searching -----------------------------------------------------------------

/// Whether `pattern` stands in `bytes` at `at`.
pub open spec fn occurs_at(bytes: Seq<u8>, pattern: Seq<u8>, at: int) -> bool {
    0 <= at && at + pattern.len() <= bytes.len() && bytes.subrange(at, at + pattern.len())
        == pattern
}

/// Whether `pattern` stands anywhere in `bytes`.
pub open spec fn occurs(bytes: Seq<u8>, pattern: Seq<u8>) -> bool {
    exists|at: int| occurs_at(bytes, pattern, at)
}

/// Whether `pattern` stands in `bytes` at `at`.
pub fn stands_at(bytes: &[u8], pattern: &[u8], at: usize) -> (r: bool)
    ensures
        r == occurs_at(bytes@, pattern@, at as int),
{
    let size: usize = bytes.len();
    if pattern.len() > size || at > size - pattern.len() {
        return false;
    }
    let mut i: usize = 0;
    while i < pattern.len()
        invariant
            size == bytes@.len(),
            at + pattern@.len() <= size,
            i <= pattern@.len(),
            forall|j: int| 0 <= j < i ==> bytes@[at + j] == #[trigger] pattern@[j],
        decreases pattern.len() - i,
    {
        if bytes[at + i] != pattern[i] {
            assert(bytes@.subrange(at as int, at + pattern@.len())[i as int] != pattern@[i as int]);
            return false;
        }
        i = i + 1;
    }
    assert(bytes@.subrange(at as int, at + pattern@.len()) == pattern@);
    true
}

/// Whether `pattern` stands anywhere in `bytes`.
pub fn contains_bytes(bytes: &[u8], pattern: &[u8]) -> (r: bool)
    ensures
        r == occurs(bytes@, pattern@),
{
    let size: usize = bytes.len();
    let mut at: usize = 0;
    while at < size
        invariant
            at <= size == bytes@.len(),
            forall|k: int| 0 <= k < at ==> !occurs_at(bytes@, pattern@, k),
        decreases size - at,
    {
        if stands_at(bytes, pattern, at) {
            return true;
        }
        at = at + 1;
    }
    stands_at(bytes, pattern, size)
}

// --- decimal numbers -------------------------------------------------------------

/// The character of a digit below ten.
pub open spec fn digit_char(d: nat) -> char {
    (48 + d) as char
}

/// The decimal digits of `n`, without leading zeros.
pub open spec fn decimal(n: nat) -> Seq<char>
    decreases n,
{
    if n < 10 {
        seq![digit_char(n)]
    } else {
        decimal(n / 10).push(digit_char(n % 10))
    }
}

/// Appends the decimal digits of `n` to `out`.
pub fn push_decimal(out: &mut String, n: u64)
    ensures
        final(out)@ == old(out)@ + decimal(n as nat),
    decreases n,
{
    let ghost before = out@;
    if n >= 10 {
        push_decimal(out, n / 10);
    }
    let d: u8 = (n % 10) as u8;
    out.push((48 + d) as char);
    assert(out@ == before + decimal(n as nat));
}

/// Whether every character of `s` is a decimal digit.
pub open spec fn all_digits(s: Seq<char>) -> bool {
    forall|i: int| 0 <= i < s.len() ==> '0' <= #[trigger] s[i] <= '9'
}

/// The number that the digits `s` stand for.
pub open spec fn digits_value(s: Seq<char>) -> nat
    decreases s.len(),
{
    if s.len() == 0 {
        0
    } else {
        10 * digits_value(s.drop_last()) + (s.last() as u32 - 48) as nat
    }
}

/// The number that `s` stands for: an optional `+`, then at least one decimal
/// digit and nothing else.
pub open spec fn number(s: Seq<char>) -> Option<nat> {
    let digits = if s.len() > 0 && s.first() == '+' {
        s.drop_first()
    } else {
        s
    };
    if digits.len() > 0 && all_digits(digits) {
        Some(digits_value(digits))
    } else {
        None
    }
}

/// Writing a number in decimal and reading it back gives the number.
pub proof fn number_reads_decimal(n: nat)
    ensures
        number(decimal(n)) == Some(n),
{
    decimal_digits(n);
}

/// The decimal digits of a number are digits, at least one, and stand for it.
pub proof fn decimal_digits(n: nat)
    ensures
        decimal(n).len() > 0,
        all_digits(decimal(n)),
        decimal(n).first() != '+',
        digits_value(decimal(n)) == n,
    decreases n,
{
    if n < 10 {
        assert(decimal(n).drop_last() == Seq::<char>::empty());
        assert(digits_value(decimal(n).drop_last()) == 0);
    } else {
        decimal_digits(n / 10);
        assert(decimal(n).drop_last() == decimal(n / 10));
    }
}

proof fn digits_value_grows(s: Seq<char>, n: int)
    requires
        0 <= n <= s.len(),
        all_digits(s),
    ensures
        digits_value(s.take(n)) <= digits_value(s),
    decreases s.len() - n,
{
    if n == s.len() {
        assert(s.take(n) == s);
    } else {
        digits_value_grows(s, n + 1);
        assert(s.take(n + 1).drop_last() == s.take(n));
        assert('0' <= s[n]);
    }
}

/// The number that `s` stands for, where it fits sixteen bits.
pub fn parse_u16(s: &str) -> (r: Option<u16>)
    ensures
        r == match number(s@) {
            Some(n) if n <= u16::MAX => Some(n as u16),
            _ => None,
        },
{
    let chars = chars_of(s);
    let start: usize = if chars.len() > 0 && chars[0] == '+' {
        1
    } else {
        0
    };
    let ghost digits = chars@.skip(start as int);
    proof {
        if start == 1 {
            assert(digits == s@.drop_first());
        } else {
            assert(digits == s@);
        }
    }
    if chars.len() == start {
        return None;
    }
    let mut value: u32 = 0;
    let mut i: usize = start;
    assert(digits.take(0) == Seq::<char>::empty());
    while i < chars.len()
        invariant
            start <= i <= chars.len(),
            digits == chars@.skip(start as int),
            all_digits(digits.take(i - start)),
            value == digits_value(digits.take(i - start)),
            value <= u16::MAX,
            digits.len() > 0,
            number(s@) == (if all_digits(digits) {
                Some(digits_value(digits))
            } else {
                None
            }),
        decreases chars.len() - i,
    {
        let c = chars[i];
        let ghost k = i - start;
        if !('0' <= c && c <= '9') {
            assert(digits[k] == c);
            return None;
        }
        value = value * 10 + (c as u32 - 48);
        proof {
            assert(digits.take(k + 1).drop_last() == digits.take(k));
            assert(digits.take(k + 1).last() == c);
            assert forall|j: int| 0 <= j < k + 1 implies '0' <= #[trigger] digits.take(k + 1)[j]
                <= '9' by {
                if j < k {
                    assert(digits.take(k + 1)[j] == digits.take(k)[j]);
                }
            }
        }
        if value > 65535 {
            proof {
                if all_digits(digits) {
                    digits_value_grows(digits, k + 1);
                }
            }
            return None;
        }
        i = i + 1;
    }
    assert(digits.take(i - start) == digits);
    Some(value as u16)
}

} // verus!
