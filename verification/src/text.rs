//! Text as sequences of characters: searching, trimming, lines and numbers.

use vstd::prelude::*;
use vstd::string::*;

verus! {

/// Whether `needle` stands in `hay` from position `at` on.
pub open spec fn occurs_at(hay: Seq<char>, needle: Seq<char>, at: int) -> bool {
    &&& 0 <= at
    &&& at + needle.len() <= hay.len()
    &&& hay.subrange(at, at + needle.len()) == needle
}

/// Whether `needle` stands somewhere in `hay`.
pub open spec fn has_text(hay: Seq<char>, needle: Seq<char>) -> bool {
    exists|at: int| occurs_at(hay, needle, at)
}

/// The characters with the Unicode property `White_Space`.
pub open spec fn is_white_space(c: char) -> bool {
    ||| '\u{9}' <= c <= '\u{d}'
    ||| c == '\u{20}'
    ||| c == '\u{85}'
    ||| c == '\u{a0}'
    ||| c == '\u{1680}'
    ||| '\u{2000}' <= c <= '\u{200a}'
    ||| c == '\u{2028}'
    ||| c == '\u{2029}'
    ||| c == '\u{202f}'
    ||| c == '\u{205f}'
    ||| c == '\u{3000}'
}

/// `s` without the white space it starts with.
pub open spec fn trimmed_start(s: Seq<char>) -> Seq<char>
    decreases s.len(),
{
    if s.len() > 0 && is_white_space(s[0]) {
        trimmed_start(s.drop_first())
    } else {
        s
    }
}

/// `s` without the white space it ends with.
pub open spec fn trimmed_end(s: Seq<char>) -> Seq<char>
    decreases s.len(),
{
    if s.len() > 0 && is_white_space(s.last()) {
        trimmed_end(s.drop_last())
    } else {
        s
    }
}

/// `s` without the white space around it.
pub open spec fn trimmed(s: Seq<char>) -> Seq<char> {
    trimmed_end(trimmed_start(s))
}

/// A text of white space only, or of nothing.
pub open spec fn blank(s: Seq<char>) -> bool {
    trimmed(s).len() == 0
}

/// The decimal digit with value `d`.
pub open spec fn digit(d: nat) -> char
    recommends
        d < 10,
{
    ('0' as u32 + d) as char
}

/// `n` in decimal notation.
pub open spec fn decimal(n: nat) -> Seq<char>
    decreases n,
{
    if n < 10 {
        seq![digit(n)]
    } else {
        decimal(n / 10).push(digit(n % 10))
    }
}

/// The texts that a list of strings holds.
pub open spec fn texts(list: Seq<String>) -> Seq<Seq<char>> {
    list.map_values(|s: String| s@)
}

/// The text that an optional string holds.
pub open spec fn maybe_text(s: Option<String>) -> Option<Seq<char>> {
    match s {
        Some(t) => Some(t@),
        None => None,
    }
}

/// The characters of `s`.
pub fn characters(s: &str) -> (chars: Vec<char>)
    ensures
        chars@ == s@,
{
    let mut chars: Vec<char> = Vec::new();
    for c in it: s.chars()
        invariant
            it.seq() == s@,
            chars@ == s@.take(it.index() as int),
    {
        chars.push(c);
    }
    assert(s@.take(s@.len() as int) == s@);
    chars
}

/// Whether `c` is white space.
pub fn white_space(c: char) -> (white: bool)
    ensures
        white == is_white_space(c),
{
    ('\u{9}' <= c && c <= '\u{d}') || c == '\u{20}' || c == '\u{85}' || c == '\u{a0}' || c
        == '\u{1680}' || ('\u{2000}' <= c && c <= '\u{200a}') || c == '\u{2028}' || c == '\u{2029}'
        || c == '\u{202f}' || c == '\u{205f}' || c == '\u{3000}'
}

/// Whether `needle` stands in `hay` from position `at` on.
pub fn occurs(hay: &Vec<char>, needle: &Vec<char>, at: usize) -> (found: bool)
    ensures
        found == occurs_at(hay@, needle@, at as int),
{
    if needle.len() > hay.len() || at > hay.len() - needle.len() {
        return false;
    }
    let mut i: usize = 0;
    while i < needle.len()
        invariant
            i <= needle.len(),
            at + needle.len() <= hay.len(),
            forall|j: int| 0 <= j < i ==> hay[at + j] == needle[j],
        decreases needle.len() - i,
    {
        if hay[at + i] != needle[i] {
            assert(hay@.subrange(at as int, at + needle@.len())[i as int] != needle@[i as int]);
            return false;
        }
        i = i + 1;
    }
    assert(hay@.subrange(at as int, at + needle@.len()) == needle@);
    true
}

/// Whether `needle` stands somewhere in `hay`.
pub fn contains(hay: &Vec<char>, needle: &Vec<char>) -> (found: bool)
    ensures
        found == has_text(hay@, needle@),
{
    let mut at: usize = 0;
    while at < hay.len()
        invariant
            at <= hay.len(),
            forall|j: int| 0 <= j < at ==> !occurs_at(hay@, needle@, j),
        decreases hay.len() - at,
    {
        if occurs(hay, needle, at) {
            return true;
        }
        at = at + 1;
    }
    occurs(hay, needle, at)
}

/// Whether `needle` stands somewhere in `hay`.
pub fn text_contains(hay: &str, needle: &str) -> (found: bool)
    ensures
        found == has_text(hay@, needle@),
{
    contains(&characters(hay), &characters(needle))
}

/// Whether two texts are equal.
pub fn same_text(a: &str, b: &str) -> (same: bool)
    ensures
        same == (a@ == b@),
{
    let left = characters(a);
    let right = characters(b);
    let same = left.len() == right.len() && occurs(&left, &right, 0);
    assert(a@.subrange(0, a@.len() as int) == a@);
    same
}

/// `prefix` followed by `rest`.
pub fn joined(prefix: &str, rest: &str) -> (text: String)
    ensures
        text@ == prefix@ + rest@,
{
    let mut text = prefix.to_owned();
    text.append(rest);
    text
}

/// Where the text without its surrounding white space starts and ends.
fn trim_bounds(chars: &Vec<char>) -> (bounds: (usize, usize))
    ensures
        bounds.0 <= bounds.1 <= chars.len(),
        chars@.subrange(bounds.0 as int, bounds.1 as int) == trimmed(chars@),
{
    let len: usize = chars.len();
    let mut start: usize = 0;
    assert(chars@.skip(0) == chars@);
    while start < len && white_space(chars[start])
        invariant
            start <= len == chars.len(),
            trimmed_start(chars@) == trimmed_start(chars@.skip(start as int)),
        decreases len - start,
    {
        assert(chars@.skip(start as int).drop_first() == chars@.skip(start + 1));
        start = start + 1;
    }
    let ghost rest = chars@.skip(start as int);
    assert(trimmed_start(chars@) == rest);
    let mut end: usize = len;
    assert(chars@.subrange(start as int, len as int) == rest);
    while end > start && white_space(chars[end - 1])
        invariant
            start <= end <= len == chars.len(),
            trimmed_end(rest) == trimmed_end(chars@.subrange(start as int, end as int)),
        decreases end,
    {
        assert(chars@.subrange(start as int, end as int).drop_last() == chars@.subrange(
            start as int,
            end - 1,
        ));
        end = end - 1;
    }
    (start, end)
}

/// `s` without the white space around it.
pub fn trim<'a>(s: &'a str) -> (text: &'a str)
    ensures
        text@ == trimmed(s@),
{
    let chars = characters(s);
    let (start, end) = trim_bounds(&chars);
    s.substring_char(start, end)
}

/// Whether `s` holds nothing but white space.
pub fn is_blank(s: &str) -> (is: bool)
    ensures
        is == blank(s@),
{
    let chars = characters(s);
    let (start, end) = trim_bounds(&chars);
    start == end
}

/// What follows `prefix` in `s`, if `s` starts with it.
pub fn after_prefix<'a>(s: &'a str, prefix: &str) -> (rest: Option<&'a str>)
    ensures
        rest is Some == occurs_at(s@, prefix@, 0),
        rest matches Some(r) ==> r@ == s@.skip(prefix@.len() as int),
{
    let chars = characters(s);
    let start = characters(prefix);
    if occurs(&chars, &start, 0) {
        Some(s.substring_char(start.len(), chars.len()))
    } else {
        None
    }
}

/// What precedes the final `last` in `s`, if `s` ends with it.
pub fn before_last<'a>(s: &'a str, last: char) -> (rest: Option<&'a str>)
    ensures
        rest is Some == (s@.len() > 0 && s@.last() == last),
        rest matches Some(r) ==> r@ == s@.drop_last(),
{
    let chars = characters(s);
    let len: usize = chars.len();
    if len > 0 && chars[len - 1] == last {
        Some(s.substring_char(0, len - 1))
    } else {
        None
    }
}

/// The first `count` characters of `s`.
pub fn first_chars<'a>(s: &'a str, count: usize) -> (text: &'a str)
    requires
        count <= s@.len(),
    ensures
        text@ == s@.take(count as int),
{
    s.substring_char(0, count)
}

/// The digit with value `d` as a text.
fn digit_text(d: u64) -> (text: &'static str)
    requires
        d < 10,
    ensures
        text@ == seq![digit(d as nat)],
{
    proof {
        reveal_strlit("0");
        reveal_strlit("1");
        reveal_strlit("2");
        reveal_strlit("3");
        reveal_strlit("4");
        reveal_strlit("5");
        reveal_strlit("6");
        reveal_strlit("7");
        reveal_strlit("8");
        reveal_strlit("9");
    }
    match d {
        0 => "0",
        1 => "1",
        2 => "2",
        3 => "3",
        4 => "4",
        5 => "5",
        6 => "6",
        7 => "7",
        8 => "8",
        _ => "9",
    }
}

/// `n` in decimal notation.
pub fn decimal_text(n: u64) -> (text: String)
    ensures
        text@ == decimal(n as nat),
    decreases n,
{
    if n < 10 {
        digit_text(n).to_owned()
    } else {
        let mut text = decimal_text(n / 10);
        text.append(digit_text(n % 10));
        assert(decimal(n as nat) =~= decimal(n as nat / 10) + seq![digit(n as nat % 10)]);
        text
    }
}

/// A decimal digit.
pub open spec fn is_digit(c: char) -> bool {
    '0' <= c <= '9'
}

/// The number that a sequence of decimal digits stands for.
pub open spec fn digits_value(s: Seq<char>) -> nat
    decreases s.len(),
{
    if s.len() == 0 {
        0
    } else {
        (10 * digits_value(s.drop_last()) + (s.last() as int - '0' as int)) as nat
    }
}

/// The digits of an unsigned number, which may be written with a plus sign.
pub open spec fn unsigned_digits(s: Seq<char>) -> Seq<char> {
    if s.len() > 1 && s[0] == '+' {
        s.drop_first()
    } else {
        s
    }
}

/// The 16-bit number that `s` is the decimal notation of, if it is one.
pub open spec fn parsed_u16(s: Seq<char>) -> Option<u16> {
    let digits = unsigned_digits(s);
    if digits.len() > 0 && (forall|i: int| 0 <= i < digits.len() ==> is_digit(digits[i]))
        && digits_value(digits) <= u16::MAX {
        Some(digits_value(digits) as u16)
    } else {
        None
    }
}

/// Reads a 16-bit number in decimal notation.
pub fn parse_u16(s: &str) -> (value: Option<u16>)
    ensures
        value == parsed_u16(s@),
{
    let chars = characters(s);
    let len: usize = chars.len();
    let start: usize = if len > 1 && chars[0] == '+' {
        1
    } else {
        0
    };
    let ghost digits = unsigned_digits(s@);
    assert(digits =~= s@.skip(start as int));
    if start == len {
        return None;
    }
    let mut value: u32 = 0;
    let mut i: usize = start;
    while i < len
        invariant
            start <= i <= len == chars.len(),
            digits == chars@.skip(start as int),
            digits == unsigned_digits(s@),
            value <= 65536,
            forall|j: int| 0 <= j < i - start ==> is_digit(digits[j]),
            value <= 65535 ==> digits_value(digits.take(i - start)) == value,
            value > 65535 ==> digits_value(digits.take(i - start)) > 65535,
        decreases len - i,
    {
        let c = chars[i];
        assert(digits[i - start] == c);
        if c < '0' || c > '9' {
            return None;
        }
        let ghost taken = digits.take(i + 1 - start);
        assert(taken.drop_last() == digits.take(i - start));
        let next: u32 = 10 * value + (c as u32 - '0' as u32);
        value = if value > 65535 || next > 65535 {
            65536
        } else {
            next
        };
        i = i + 1;
    }
    assert(digits.take(len - start) == digits);
    if value > 65535 {
        None
    } else {
        Some(value as u16)
    }
}

/// How many characters of `s` come before its first line break.
pub open spec fn first_line_len(s: Seq<char>) -> nat
    decreases s.len(),
{
    if s.len() == 0 || s[0] == '\n' {
        0
    } else {
        1 + first_line_len(s.drop_first())
    }
}

/// The lines of `s`, each without the white space around it, leaving out those
/// of which nothing is left.
pub open spec fn entries(s: Seq<char>) -> Seq<Seq<char>>
    decreases s.len(),
{
    if s.len() == 0 {
        Seq::empty()
    } else {
        let len = first_line_len(s);
        let entry = trimmed(s.take(len as int));
        let rest = if len < s.len() {
            entries(s.skip(len as int + 1))
        } else {
            Seq::empty()
        };
        if entry.len() > 0 {
            seq![entry] + rest
        } else {
            rest
        }
    }
}

proof fn lemma_first_line_len(s: Seq<char>, len: int)
    requires
        0 <= len <= s.len(),
        forall|i: int| 0 <= i < len ==> s[i] != '\n',
        len == s.len() || s[len] == '\n',
    ensures
        first_line_len(s) == len,
    decreases s.len(),
{
    if len > 0 {
        lemma_first_line_len(s.drop_first(), len - 1);
    }
}

/// The entries of a text that starts with a whole line are the entry of that
/// line, if anything is left of it, and the entries of the rest.
pub proof fn lemma_entries_of_line(line: Seq<char>, rest: Seq<char>)
    requires
        forall|i: int| 0 <= i < line.len() ==> line[i] != '\n',
    ensures
        entries(line + seq!['\n'] + rest) == if trimmed(line).len() > 0 {
            seq![trimmed(line)] + entries(rest)
        } else {
            entries(rest)
        },
{
    let s = line + seq!['\n'] + rest;
    lemma_first_line_len(s, line.len() as int);
    assert(s.take(line.len() as int) == line);
    assert(s.skip(line.len() as int + 1) == rest);
}

/// A text that neither starts nor ends with white space is not changed by
/// trimming.
pub proof fn lemma_trimmed_as_is(s: Seq<char>)
    requires
        s.len() > 0,
        !is_white_space(s[0]),
        !is_white_space(s.last()),
    ensures
        trimmed(s) == s,
{
}

/// The entries of a text: see [`entries`].
pub fn text_entries(s: &str) -> (list: Vec<String>)
    ensures
        texts(list@) == entries(s@),
{
    let chars = characters(s);
    let len: usize = chars.len();
    let mut list: Vec<String> = Vec::new();
    let mut start: usize = 0;
    assert(chars@.skip(0) == s@);
    assert(texts(list@) =~= Seq::<Seq<char>>::empty());
    assert(texts(list@) + entries(s@) == entries(s@));
    while start < len
        invariant
            start <= len == chars.len(),
            chars@ == s@,
            texts(list@) + entries(chars@.skip(start as int)) == entries(s@),
        decreases len - start,
    {
        let ghost rest = chars@.skip(start as int);
        let ghost before = texts(list@);
        let mut end: usize = start;
        while end < len && chars[end] != '\n'
            invariant
                start <= end <= len == chars.len(),
                forall|i: int| start <= i < end ==> chars[i] != '\n',
            decreases len - end,
        {
            end = end + 1;
        }
        proof {
            lemma_first_line_len(rest, end - start);
            assert(rest.take(end - start) == s@.subrange(start as int, end as int));
            if end < len {
                assert(rest.skip(end - start + 1) == chars@.skip(end + 1));
            } else {
                assert(chars@.skip(len as int) == Seq::<char>::empty());
            }
        }
        let line = s.substring_char(start, end);
        let entry = trim(line);
        if !entry.is_empty() {
            let entry = entry.to_owned();
            list.push(entry);
            assert(texts(list@) == before.push(entry@));
            assert(before.push(entry@) + entries(
                chars@.skip(if end < len {
                    end + 1
                } else {
                    len as int
                }),
            ) == before + entries(rest));
        }
        start = if end < len {
            end + 1
        } else {
            len
        };
    }
    assert(chars@.skip(len as int) == Seq::<char>::empty());
    assert(texts(list@) + Seq::<Seq<char>>::empty() == texts(list@));
    list
}

/// What follows the last line break of `s`; all of it where it has none.
pub open spec fn last_line(s: Seq<char>) -> Seq<char>
    decreases s.len(),
{
    if s.len() == 0 || s.last() == '\n' {
        Seq::empty()
    } else {
        last_line(s.drop_last()).push(s.last())
    }
}

/// The last line of a text starts after its last line break.
pub proof fn lemma_last_line(s: Seq<char>, start: int)
    requires
        0 <= start <= s.len(),
        forall|i: int| start <= i < s.len() ==> s[i] != '\n',
        start == 0 || s[start - 1] == '\n',
    ensures
        last_line(s) == s.skip(start),
    decreases s.len(),
{
    if start < s.len() {
        lemma_last_line(s.drop_last(), start);
        assert(s.drop_last().skip(start).push(s.last()) == s.skip(start));
    } else {
        assert(s.skip(start) == Seq::<char>::empty());
    }
}

/// What follows the last line break of `s`.
pub fn text_last_line<'a>(s: &'a str) -> (line: &'a str)
    ensures
        line@ == last_line(s@),
{
    let chars = characters(s);
    let len: usize = chars.len();
    let mut start: usize = len;
    while start > 0 && chars[start - 1] != '\n'
        invariant
            start <= len == chars.len(),
            forall|i: int| start <= i < len ==> chars[i] != '\n',
        decreases start,
    {
        start = start - 1;
    }
    proof {
        lemma_last_line(s@, start as int);
        assert(s@.subrange(start as int, len as int) == s@.skip(start as int));
    }
    s.substring_char(start, len)
}

/// Decimal notation can be read back: it is made of digits, has none too many,
/// and stands for the number.
pub proof fn law_decimal_is_read_back(n: nat)
    ensures
        decimal(n).len() > 0,
        forall|i: int| 0 <= i < decimal(n).len() ==> is_digit(#[trigger] decimal(n)[i]),
        decimal(n).len() > 1 ==> decimal(n)[0] != '0',
        n > 0 ==> decimal(n)[0] != '0',
        digits_value(decimal(n)) == n,
    decreases n,
{
    if n < 10 {
        assert(decimal(n).drop_last() =~= Seq::<char>::empty());
        assert(digits_value(Seq::<char>::empty()) == 0);
    } else {
        law_decimal_is_read_back(n / 10);
        assert(decimal(n).drop_last() =~= decimal(n / 10));
        assert(decimal(n).last() == digit(n % 10));
        assert forall|i: int| 0 <= i < decimal(n).len() implies is_digit(#[trigger] decimal(n)[i]) by {
            if i < decimal(n / 10).len() {
                assert(decimal(n)[i] == decimal(n / 10)[i]);
            }
        }
    }
}

/// A 16-bit number is read from its decimal notation, with or without a plus
/// sign; a larger number is not.
pub proof fn law_port_is_read_from_its_notation(n: nat)
    ensures
        parsed_u16(decimal(n)) == if n <= 65535 {
            Some(n as u16)
        } else {
            None
        },
        parsed_u16(seq!['+'] + decimal(n)) == parsed_u16(decimal(n)),
{
    law_decimal_is_read_back(n);
    assert(is_digit(decimal(n)[0]));
    assert((seq!['+'] + decimal(n)).drop_first() =~= decimal(n));
}

/// A text that holds anything but digits, after a plus sign at most, names no
/// number.
pub proof fn law_port_is_made_of_digits(s: Seq<char>, i: int)
    requires
        0 <= i < s.len(),
        !is_digit(s[i]),
        i > 0 || s[0] != '+' || s.len() == 1,
    ensures
        parsed_u16(s) is None,
{
    let digits = unsigned_digits(s);
    if s.len() > 1 && s[0] == '+' {
        assert(digits[i - 1] == s[i]);
    } else {
        assert(digits[i] == s[i]);
    }
}

/// Trimming takes the white space around a text, all of it and no more.
pub proof fn law_trimming_takes_the_white_space_around(
    before: Seq<char>,
    text: Seq<char>,
    after: Seq<char>,
)
    requires
        text.len() > 0,
        !is_white_space(text[0]),
        !is_white_space(text.last()),
        forall|i: int| 0 <= i < before.len() ==> is_white_space(#[trigger] before[i]),
        forall|i: int| 0 <= i < after.len() ==> is_white_space(#[trigger] after[i]),
    ensures
        trimmed(before + text + after) == text,
    decreases before.len() + after.len(),
{
    let all = before + text + after;
    if before.len() > 0 {
        assert(all[0] == before[0]);
        assert(all.drop_first() =~= before.drop_first() + text + after);
        assert forall|i: int| 0 <= i < before.drop_first().len() implies is_white_space(
            #[trigger] before.drop_first()[i],
        ) by {
            assert(before.drop_first()[i] == before[i + 1]);
        }
        law_trimming_takes_the_white_space_around(before.drop_first(), text, after);
    } else if after.len() > 0 {
        assert(all[0] == text[0]);
        assert(all.last() == after.last());
        assert(all.drop_last() =~= before + text + after.drop_last());
        assert((before + text + after.drop_last())[0] == text[0]);
        assert forall|i: int| 0 <= i < after.drop_last().len() implies is_white_space(
            #[trigger] after.drop_last()[i],
        ) by {
            assert(after.drop_last()[i] == after[i]);
        }
        law_trimming_takes_the_white_space_around(before, text, after.drop_last());
    } else {
        assert(all =~= text);
    }
}

} // verus!
